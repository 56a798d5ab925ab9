//! The two build tools of CPAN, and what has to be installed before one can run.

use vstd::prelude::*;

use crate::dependency;
use crate::dependency::Dependency;
use crate::text;
use crate::version_map::VersionMap;

verus! {

/// The build tool a CPAN distribution uses for its configure step.
///
/// A distribution ships either a `Makefile.PL` (driven by
/// [`ExtUtils::MakeMaker`](https://metacpan.org/pod/ExtUtils::MakeMaker)) or a
/// `Build.PL` (driven by [`Module::Build`](https://metacpan.org/pod/Module::Build)
/// or any API-compatible replacement such as `Module::Build::Tiny`); a few ship
/// both.
#[derive(Debug, Clone, Copy, PartialEq, Eq, Hash, Structural)]
pub enum BuildTool {
    /// `ExtUtils::MakeMaker`, "EUMM": the configure step is `perl Makefile.PL`.
    Eumm,
    /// `Module::Build`, "MB": the configure step is `perl Build.PL`. Whatever
    /// implementation the distribution's `configure` prerequisites call for is
    /// used as-is (it need not be `Module::Build` itself); classic
    /// `Module::Build` is only assumed when the metadata names none.
    ModuleBuild,
}

impl BuildTool {
    /// The name of the configure script.
    pub open spec fn script(self) -> Seq<char> {
        match self {
            BuildTool::Eumm => "Makefile.PL"@,
            BuildTool::ModuleBuild => "Build.PL"@,
        }
    }

    /// The argument that forces a pure-Perl build.
    pub open spec fn pure_perl_flag(self) -> Seq<char> {
        match self {
            BuildTool::Eumm => "PUREPERL_ONLY=1"@,
            BuildTool::ModuleBuild => "--pureperl-only"@,
        }
    }

    /// The file that the configure step generates and the later steps run.
    pub open spec fn generated(self) -> Seq<char> {
        match self {
            BuildTool::Eumm => "Makefile"@,
            BuildTool::ModuleBuild => "Build"@,
        }
    }

    /// The module that stands for the tool when the metadata names none.
    pub open spec fn fallback(self) -> Seq<char> {
        match self {
            BuildTool::Eumm => "ExtUtils::MakeMaker"@,
            BuildTool::ModuleBuild => "Module::Build"@,
        }
    }

    /// Whether `module` is the tool or an implementation of it.
    pub open spec fn provided_by(self, module: Seq<char>) -> bool {
        match self {
            BuildTool::Eumm => module == "ExtUtils::MakeMaker"@,
            BuildTool::ModuleBuild => "Module::Build"@.is_prefix_of(module),
        }
    }

    /// The configure script this tool runs: `Makefile.PL` for [`Eumm`], or
    /// `Build.PL` for [`ModuleBuild`].
    ///
    /// [`Eumm`]: BuildTool::Eumm
    /// [`ModuleBuild`]: BuildTool::ModuleBuild
    pub fn configure_script(self) -> (r: &'static str)
        ensures
            r@ == self.script(),
    {
        match self {
            BuildTool::Eumm => "Makefile.PL",
            BuildTool::ModuleBuild => "Build.PL",
        }
    }

    /// The configure-step argument that forces a pure-Perl build, in which no XS is
    /// compiled even where a working compiler and the XS sources are present:
    /// the `PUREPERL_ONLY=1` [`WriteMakefile`] parameter for [`Eumm`], or the
    /// `--pureperl-only` [`Build.PL`] option for [`ModuleBuild`].
    ///
    /// Passing it at configure time is enough: `ExtUtils::MakeMaker` bakes it into
    /// the generated `Makefile` and `Module::Build` records it in `_build/`, so the
    /// later build / test / install steps honour it without the argument being
    /// repeated.
    ///
    /// [`Eumm`]: BuildTool::Eumm
    /// [`ModuleBuild`]: BuildTool::ModuleBuild
    /// [`WriteMakefile`]: https://metacpan.org/pod/ExtUtils::MakeMaker#PUREPERL_ONLY
    /// [`Build.PL`]: https://metacpan.org/pod/Module::Build::API#%2Fpureperl-only
    pub fn pure_perl_arg(self) -> (r: &'static str)
        ensures
            r@ == self.pure_perl_flag(),
    {
        match self {
            BuildTool::Eumm => "PUREPERL_ONLY=1",
            BuildTool::ModuleBuild => "--pureperl-only",
        }
    }

    /// The file that the configure step generates and the later steps run:
    /// `Makefile` for [`Eumm`](BuildTool::Eumm), or `Build` for
    /// [`ModuleBuild`](BuildTool::ModuleBuild).
    pub(crate) fn generated_script(self) -> (r: &'static str)
        ensures
            r@ == self.generated(),
    {
        match self {
            BuildTool::Eumm => "Makefile",
            BuildTool::ModuleBuild => "Build",
        }
    }

    /// The module assumed to provide this tool when the distribution's metadata
    /// does not name one. It provides this tool and no other.
    pub fn fallback_module(self) -> (r: &'static str)
        ensures
            r@ == self.fallback(),
            self.provided_by(r@),
            forall|other: BuildTool| other != self ==> !(#[trigger] other.provided_by(r@)),
    {
        proof {
            law_fallback_provides_its_tool_only(self, BuildTool::Eumm);
            law_fallback_provides_its_tool_only(self, BuildTool::ModuleBuild);
        }
        match self {
            BuildTool::Eumm => "ExtUtils::MakeMaker",
            BuildTool::ModuleBuild => "Module::Build",
        }
    }

    /// Whether `module` is (an implementation of) this build tool, for the purpose
    /// of deciding whether the [`fallback_module`](Self::fallback_module) still
    /// needs to be added to the configure prerequisites.
    pub fn is_provided_by(self, module: &str) -> (r: bool)
        ensures
            r == self.provided_by(module@),
    {
        match self {
            BuildTool::Eumm => text::same_text(module, "ExtUtils::MakeMaker"),
            // Any `Module::Build`-family module is treated as an MB provider.
            BuildTool::ModuleBuild => text::text_starts_with(module, "Module::Build"),
        }
    }
}

impl Default for BuildTool {
    /// [`BuildTool::ModuleBuild`]: MB is preferred when a distribution ships both
    /// `Build.PL` and `Makefile.PL`.
    fn default() -> (r: Self)
        ensures
            r == BuildTool::ModuleBuild,
    {
        BuildTool::ModuleBuild
    }
}

/// The module assumed for a build tool provides that tool, and not the other.
pub proof fn law_fallback_provides_its_tool_only(tool: BuildTool, other: BuildTool)
    ensures
        tool.provided_by(tool.fallback()),
        tool != other ==> !other.provided_by(tool.fallback()),
{
    reveal_strlit("ExtUtils::MakeMaker");
    reveal_strlit("Module::Build");
    assert("ExtUtils::MakeMaker"@.len() != "Module::Build"@.len());
    assert("ExtUtils::MakeMaker"@[0] != "Module::Build"@[0]);
}

/// A module provides `Module::Build` exactly if its name begins with these thirteen
/// characters, and `ExtUtils::MakeMaker` exactly if that is its name.
pub proof fn law_who_provides_a_tool(module: Seq<char>)
    ensures
        BuildTool::ModuleBuild.provided_by(module) <==> module.len() >= 13 && module.take(13) == seq![
            'M', 'o', 'd', 'u', 'l', 'e', ':', ':', 'B', 'u', 'i', 'l', 'd',
        ],
        BuildTool::Eumm.provided_by(module) <==> module == seq![
            'E', 'x', 't', 'U', 't', 'i', 'l', 's', ':', ':', 'M', 'a', 'k', 'e', 'M', 'a', 'k',
            'e', 'r',
        ],
{
    reveal_strlit("ExtUtils::MakeMaker");
    reveal_strlit("Module::Build");
    let spelled = seq!['M', 'o', 'd', 'u', 'l', 'e', ':', ':', 'B', 'u', 'i', 'l', 'd'];
    assert("Module::Build"@ =~= spelled);
    assert("ExtUtils::MakeMaker"@ =~= seq![
        'E', 'x', 't', 'U', 't', 'i', 'l', 's', ':', ':', 'M', 'a', 'k', 'e', 'M', 'a', 'k', 'e',
        'r',
    ]);
    if module.len() >= 13 {
        assert(module.take(13) =~= module.subrange(0, 13));
    }
}

/// What has to be installed before the configure step of `tool` can run, given the
/// `configure` requirements of the metadata: these without `perl`, and the tool
/// itself, in any version, when none of them provides it.
pub open spec fn before_configure(
    tool: BuildTool,
    requires_map: Map<Seq<char>, Seq<char>>,
) -> Map<Seq<char>, Seq<char>> {
    let kept = requires_map.remove("perl"@);
    if exists|module: Seq<char>| #[trigger]
        kept.contains_key(module) && tool.provided_by(module) {
        kept
    } else {
        kept.insert(tool.fallback(), "0"@)
    }
}

/// The dependencies that [`before_configure`] names, sorted by module name.
pub(crate) fn pre_configure(tool: BuildTool, required: &VersionMap) -> (r: Vec<Dependency>)
    ensures
        r.deep_view() == dependency::listing(before_configure(tool, required@)),
        dependency::is_listing(r.deep_view(), before_configure(tool, required@)),
{
    let entries = required.entries();
    let ghost list = entries.deep_view();
    let mut deps = VersionMap::new();
    let mut provided: bool = false;
    assert(deps@ =~= dependency::as_map(list.take(0)).remove("perl"@));
    for i in 0..entries.len()
        invariant
            list == entries.deep_view(),
            dependency::sorted(list),
            deps@ == dependency::as_map(list.take(i as int)).remove("perl"@),
            provided == exists|module: Seq<char>| #[trigger]
                deps@.contains_key(module) && tool.provided_by(module),
    {
        let entry = &entries[i];
        let ghost before = deps@;
        proof {
            assert(list[i as int] == entry.deep_view());
            dependency::lemma_sorted_prefix(list, i + 1);
            assert(list.take(i + 1) =~= list.take(i as int).push(list[i as int]));
            dependency::lemma_as_map_push(list.take(i as int), list[i as int]);
        }
        if !text::same_text(entry.module.as_str(), "perl") {
            deps.insert(entry.module.clone(), entry.version.clone());
            if tool.is_provided_by(entry.module.as_str()) {
                provided = true;
                assert(deps@.contains_key(entry.module@));
            }
            proof {
                assert forall|module: Seq<char>| #[trigger]
                    before.contains_key(module) implies deps@.contains_key(module) by {}
            }
        }
        assert(deps@ =~= dependency::as_map(list.take(i + 1)).remove("perl"@));
    }
    assert(list.take(entries@.len() as int) =~= list);
    if !provided {
        deps.insert(tool.fallback_module().to_string(), "0".to_string());
    }
    let r = deps.into_entries();
    proof {
        dependency::lemma_is_the_listing(r.deep_view(), before_configure(tool, required@));
    }
    r
}

} // verus!
