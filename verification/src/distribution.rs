//! A CPAN distribution unpacked in a local filesystem directory.

use vstd::prelude::*;

use crate::build_tool;
use crate::build_tool::BuildTool;
use crate::dependency;
use crate::dependency::Dependency;
use crate::meta::{Meta, MetaView};
use crate::opening;
use crate::opening::Opening;
use crate::os_text::OsText;
use crate::perl::{Perl, PerlView};

verus! {

/// A Perl CPAN distribution laid out in a local filesystem directory.
///
/// Construct one with [`Distribution::new`] (or [`Distribution::with_preference`]
/// to choose between EUMM and MB), passing the path to the directory that
/// contains the distribution (the directory holding `Makefile.PL` / `Build.PL`,
/// `META.json`, and so on) together with the [`Perl`] that
/// [`execute_configure`] (and any later build/install step) will run through.
///
/// On construction the static metadata is read and parsed straight away, and the
/// [`build_tool`](Self::build_tool) is resolved from the scripts present. The
/// supplied [`Perl`] is reconfigured to run in [`root`](Self::root). The
/// generated `MYMETA` metadata only exists once [`execute_configure`] has run;
/// that method loads it, or you can load it on its own with [`read_mymeta`].
///
/// Call [`with_pure_perl`](Self::with_pure_perl) before
/// [`execute_configure`] to force a pure-Perl (no-XS) build.
///
/// [`execute_configure`]: Self::execute_configure
/// [`read_mymeta`]: Self::read_mymeta
#[derive(Debug, PartialEq, Eq)]
#[non_exhaustive]
pub struct Distribution {
    /// The directory containing the distribution.
    pub root: OsText,
    /// The Perl interpreter and environment used to run the distribution's
    /// build steps. Set to run in [`root`](Self::root) on construction.
    pub perl: Perl,
    /// Metadata parsed from the distribution's `META.json`, or from `META.yml`
    /// when there is no `META.json`. Read when the [`Distribution`] is created.
    pub distribution_meta: Meta,
    /// Metadata parsed from the distribution's `MYMETA.json`, or from
    /// `MYMETA.yml` when there is no `MYMETA.json`. `MYMETA` files are written
    /// by the configure step, so this is `None` until [`execute_configure`] or
    /// [`read_mymeta`] has populated it.
    ///
    /// [`execute_configure`]: Self::execute_configure
    /// [`read_mymeta`]: Self::read_mymeta
    pub distribution_mymeta: Option<Meta>,
    /// The build tool the configure step will use, resolved on construction from
    /// the scripts present in [`root`](Self::root) and the preference passed to
    /// [`Distribution::with_preference`].
    pub build_tool: BuildTool,
    /// When `true`, [`execute_configure`](Self::execute_configure) appends the
    /// build tool's [`pure_perl_arg`](BuildTool::pure_perl_arg) so the
    /// distribution is built without compiling XS. `false` (the default) leaves
    /// the choice to the distribution and interpreter. Set with
    /// [`with_pure_perl`](Self::with_pure_perl).
    pub pure_perl: bool,
}

/// What a [`Distribution`] says.
pub struct DistributionView {
    /// The directory.
    pub root: Seq<u8>,
    /// The interpreter and its environment.
    pub perl: PerlView,
    /// The static metadata.
    pub distribution_meta: MetaView,
    /// The generated metadata.
    pub distribution_mymeta: Option<MetaView>,
    /// The build tool.
    pub build_tool: BuildTool,
    /// Whether a pure-Perl build is forced.
    pub pure_perl: bool,
}

impl DeepView for Distribution {
    type V = DistributionView;

    open spec fn deep_view(&self) -> DistributionView {
        DistributionView {
            root: self.root@,
            perl: self.perl.deep_view(),
            distribution_meta: self.distribution_meta.deep_view(),
            distribution_mymeta: self.distribution_mymeta.deep_view(),
            build_tool: self.build_tool,
            pure_perl: self.pure_perl,
        }
    }
}

impl Clone for Distribution {
    fn clone(&self) -> (r: Distribution)
        ensures
            r.deep_view() == self.deep_view(),
    {
        Distribution {
            root: self.root.clone(),
            perl: self.perl.clone(),
            distribution_meta: self.distribution_meta.clone(),
            distribution_mymeta: self.distribution_mymeta.clone(),
            build_tool: self.build_tool,
            pure_perl: self.pure_perl,
        }
    }
}

impl Distribution {
    /// Open the CPAN distribution rooted at `root`, to be built with `perl`,
    /// preferring MB ([`BuildTool::ModuleBuild`]) when it ships both `Build.PL`
    /// and `Makefile.PL`.
    ///
    /// `META.json` is read and parsed immediately; if it does not exist,
    /// `META.yml` is used instead. The opening ends in an error if neither metadata
    /// file is present (or the one found cannot be parsed), or if the distribution
    /// has neither `Build.PL` nor `Makefile.PL`.
    pub fn new(root: OsText, perl: Perl) -> (r: Opening)
        ensures
            r.deep_view() == opening::opening(root@, perl.deep_view(), BuildTool::ModuleBuild),
    {
        Self::with_preference(root, perl, BuildTool::default())
    }

    /// Open the CPAN distribution rooted at `root`, to be built with `perl`,
    /// choosing `prefer` as the build tool when it ships **both** `Build.PL` and
    /// `Makefile.PL`.
    ///
    /// When only one of the two scripts is present, that one is used regardless
    /// of `prefer`. Metadata handling and the error cases are as for
    /// [`Distribution::new`].
    pub fn with_preference(root: OsText, perl: Perl, prefer: BuildTool) -> (r: Opening)
        ensures
            r.deep_view() == opening::opening(root@, perl.deep_view(), prefer),
    {
        Opening::begin(root, perl, prefer)
    }

    /// Set whether the configure step forces a pure-Perl, no-XS build
    /// ([`pure_perl`](Self::pure_perl)).
    ///
    /// With it enabled, [`execute_configure`](Self::execute_configure) passes
    /// the build tool's [`pure_perl_arg`](BuildTool::pure_perl_arg)
    /// (`PUREPERL_ONLY=1` for `ExtUtils::MakeMaker`, `--pureperl-only` for
    /// `Module::Build`) as a configure-step argument. No environment variable
    /// is set, and the later steps need no further flagging.
    #[must_use]
    pub fn with_pure_perl(self, pure_perl: bool) -> (r: Distribution)
        ensures
            r == (Distribution { pure_perl, ..self }),
    {
        Distribution { pure_perl, ..self }
    }

    /// The prerequisites that must be installed **before** the configure step
    /// can run.
    ///
    /// This is the distribution's `configure`-phase `requires` (from
    /// [`distribution_meta`](Self::distribution_meta)), plus the build tool
    /// itself ([`ExtUtils::MakeMaker`] or [`Module::Build`]) when the metadata
    /// does not already call for it. `perl` is dropped: it is a
    /// minimum-version marker, not an installable module.
    ///
    /// Installing the returned dependencies is the caller's responsibility; this
    /// method only computes the list. The result is sorted by module name.
    ///
    /// [`ExtUtils::MakeMaker`]: https://metacpan.org/pod/ExtUtils::MakeMaker
    /// [`Module::Build`]: https://metacpan.org/pod/Module::Build
    pub fn execute_pre_configure(&self) -> (r: Vec<Dependency>)
        ensures
            r.deep_view() == self.deep_view().pre_configure(),
            dependency::is_listing(
                r.deep_view(),
                build_tool::before_configure(
                    self.build_tool,
                    self.distribution_meta.deep_view().prereqs.configure.requires,
                ),
            ),
    {
        build_tool::pre_configure(
            self.build_tool,
            &self.distribution_meta.prereqs.configure.requires,
        )
    }
}

impl DistributionView {
    /// The list of what must be installed before the configure step can run.
    pub open spec fn pre_configure(self) -> Seq<dependency::DependencyView> {
        dependency::listing(
            build_tool::before_configure(
                self.build_tool,
                self.distribution_meta.prereqs.configure.requires,
            ),
        )
    }
}

} // verus!
