//! The configure step, and reading the metadata that it generates.

use vstd::prelude::*;

use crate::dependencies;
use crate::dependencies::{Dependencies, DependenciesView};
use crate::distribution::{Distribution, DistributionView};
use crate::error::{BuildError, BuildErrorView};
use crate::meta::{Meta, MetaView};
use crate::protocol::{ExecuteResult, Reply, ReplyView, Request, RequestView, Step, StepView};
use crate::search;
use crate::search::{MetaSearch, MetaSearchView};

verus! {

/// How far a configure step has come.
#[derive(Debug, PartialEq, Eq)]
pub enum Configuring {
    /// Asking for the configure script.
    Script,
    /// Running the configure script.
    Run,
    /// With the result of the run, looking for the generated metadata.
    Mymeta(ExecuteResult, MetaSearch),
}

/// What a [`Configuring`] says.
pub enum ConfiguringView {
    /// Asking for the configure script.
    Script,
    /// Running the configure script.
    Run,
    /// With the result of the run, looking for the generated metadata.
    Mymeta(ExecuteResult, MetaSearchView),
}

impl DeepView for Configuring {
    type V = ConfiguringView;

    open spec fn deep_view(&self) -> ConfiguringView {
        match self {
            Configuring::Script => ConfiguringView::Script,
            Configuring::Run => ConfiguringView::Run,
            Configuring::Mymeta(result, search) => ConfiguringView::Mymeta(
                *result,
                search.deep_view(),
            ),
        }
    }
}

/// The names of the generated metadata, in the order in which they are tried.
pub open spec fn mymeta_names() -> Seq<Seq<char>> {
    seq!["MYMETA.json"@, "MYMETA.yml"@]
}

/// A search for the generated metadata, at its beginning.
pub open spec fn mymeta_search() -> MetaSearchView {
    MetaSearchView { candidates: mymeta_names(), next: 0, found: false }
}

impl DistributionView {
    /// The arguments that `perl` is given in the configure step: the script, and the
    /// flag for a pure-Perl build if one is forced.
    pub open spec fn configure_args(self) -> Seq<Seq<char>> {
        if self.pure_perl {
            seq![self.build_tool.script(), self.build_tool.pure_perl_flag()]
        } else {
            seq![self.build_tool.script()]
        }
    }

    /// What a configure step that stands `at` waits for.
    pub open spec fn configure_request(self, at: ConfiguringView) -> RequestView {
        match at {
            ConfiguringView::Script => RequestView::IsFile {
                root: self.root,
                name: self.build_tool.script(),
            },
            ConfiguringView::Run => RequestView::RunPerl {
                perl: self.perl,
                args: self.configure_args(),
            },
            ConfiguringView::Mymeta(_, search) => search.request(self.root),
        }
    }

    /// The distribution with `found` for its generated metadata, if there is any.
    pub open spec fn with_mymeta(self, found: Option<MetaView>) -> DistributionView {
        match found {
            Some(meta) => DistributionView { distribution_mymeta: Some(meta), ..self },
            None => self,
        }
    }

    /// The prerequisites after a configure step that left `found` for its generated
    /// metadata: those of the generated metadata, or of the static metadata if there
    /// is none.
    pub open spec fn resolved(self, found: Option<MetaView>) -> DependenciesView {
        match found {
            Some(meta) => dependencies::dependencies_of(meta),
            None => dependencies::dependencies_of(self.distribution_meta),
        }
    }

    /// The metadata that the prerequisites are taken from where `reply` ends the
    /// configure step: the generated metadata that it brings, or else the static
    /// metadata.
    pub open spec fn resolved_from(self, reply: ReplyView) -> MetaView {
        match reply {
            ReplyView::Parsed(Ok(meta)) => meta,
            _ => self.distribution_meta,
        }
    }

    /// The distribution, and where its configure step stands, after `reply`. A reply
    /// to something that was not asked changes nothing.
    pub open spec fn after_configure(self, at: ConfiguringView, reply: ReplyView) -> (
        DistributionView,
        StepView<ConfiguringView, (ExecuteResult, DependenciesView)>,
    ) {
        match (at, reply) {
            (ConfiguringView::Script, ReplyView::IsFile(true)) => (
                self,
                StepView::Pending(ConfiguringView::Run),
            ),
            (ConfiguringView::Script, ReplyView::IsFile(false)) => (
                self,
                StepView::Finished(
                    Err(BuildErrorView::ScriptNotFound { tool: self.build_tool, root: self.root }),
                ),
            ),
            (ConfiguringView::Run, ReplyView::Ran(Ok(result))) => (
                self,
                StepView::Pending(ConfiguringView::Mymeta(result, mymeta_search())),
            ),
            (ConfiguringView::Run, ReplyView::Ran(Err(cause))) => (
                self,
                StepView::Finished(Err(BuildErrorView::NotRun { cause })),
            ),
            (ConfiguringView::Mymeta(result, search), _) => match search.after(self.root, reply) {
                StepView::Pending(search) => (
                    self,
                    StepView::Pending(ConfiguringView::Mymeta(result, search)),
                ),
                StepView::Finished(Ok(found)) => (
                    self.with_mymeta(found),
                    StepView::Finished(Ok((result, self.resolved(found)))),
                ),
                StepView::Finished(Err(error)) => (self, StepView::Finished(Err(error))),
            },
            _ => (self, StepView::Pending(at)),
        }
    }

    /// The distribution, and where a search for its generated metadata stands, after
    /// `reply`.
    pub open spec fn after_mymeta(self, search: MetaSearchView, reply: ReplyView) -> (
        DistributionView,
        StepView<MetaSearchView, MetaView>,
    ) {
        match search.after(self.root, reply) {
            StepView::Pending(search) => (self, StepView::Pending(search)),
            StepView::Finished(Ok(Some(meta))) => (
                self.with_mymeta(Some(meta)),
                StepView::Finished(Ok(meta)),
            ),
            StepView::Finished(Ok(None)) => (
                self,
                StepView::Finished(Err(BuildErrorView::NoMymeta { root: self.root })),
            ),
            StepView::Finished(Err(error)) => (self, StepView::Finished(Err(error))),
        }
    }
}

impl Distribution {
    /// Begin the configure step: `perl Build.PL` for [`BuildTool::ModuleBuild`], or
    /// `perl Makefile.PL` for [`BuildTool::Eumm`], through [`perl`](Self::perl)
    /// (which runs it in [`root`](Self::root) with the CPAN build environment
    /// applied). [`configure_request`](Self::configure_request) says what it waits
    /// for, and [`configure_advance`](Self::configure_advance) takes the answer.
    ///
    /// The step ends with the [`ExecuteResult`] paired with the distribution's
    /// [`Dependencies`]. A non-zero exit is reported in the [`ExecuteResult`],
    /// not as an error; an error means `perl` could not be spawned, the script
    /// is missing, or a produced `MYMETA.*` could not be parsed.
    ///
    /// The configure step normally writes a `MYMETA.json` / `MYMETA.yml` with the
    /// prerequisites resolved for the current environment. If one is present
    /// afterwards it is parsed into [`distribution_mymeta`](Self::distribution_mymeta)
    /// and the resulting [`Dependencies`] come from it; otherwise they come from
    /// [`distribution_meta`](Self::distribution_meta).
    ///
    /// When [`pure_perl`](Self::pure_perl) is set the build tool's
    /// [`pure_perl_arg`](BuildTool::pure_perl_arg) is appended to the script's
    /// arguments, so the distribution is built without XS.
    ///
    /// [`BuildTool::ModuleBuild`]: crate::BuildTool::ModuleBuild
    /// [`BuildTool::Eumm`]: crate::BuildTool::Eumm
    /// [`BuildTool::pure_perl_arg`]: crate::BuildTool::pure_perl_arg
    pub fn execute_configure(&self) -> (r: Configuring)
        ensures
            r.deep_view() == ConfiguringView::Script,
    {
        Configuring::Script
    }

    /// What a configure step that stands `at` waits for.
    pub fn configure_request(&self, at: &Configuring) -> (r: Request<'_>)
        ensures
            r.deep_view() == self.deep_view().configure_request(at.deep_view()),
    {
        match at {
            Configuring::Script => Request::IsFile {
                root: &self.root,
                name: self.build_tool.configure_script(),
            },
            Configuring::Run => {
                let mut args: Vec<&'static str> = vec![self.build_tool.configure_script()];
                if self.pure_perl {
                    args.push(self.build_tool.pure_perl_arg());
                }
                assert(args.deep_view() =~= self.deep_view().configure_args());
                Request::RunPerl { perl: &self.perl, args }
            },
            Configuring::Mymeta(_, search) => search.request(&self.root),
        }
    }

    /// Go on with what came of the request of a configure step that stands `at`.
    pub fn configure_advance(&mut self, at: Configuring, reply: Reply) -> (r: Step<
        Configuring,
        (ExecuteResult, Dependencies),
    >)
        ensures
            (final(self).deep_view(), r.deep_view()) == old(self).deep_view().after_configure(
                at.deep_view(),
                reply.deep_view(),
            ),
            r matches Step::Finished(Ok((_, deps))) ==> deps.deep_view().is_listing_of(
                old(self).deep_view().resolved_from(reply.deep_view()),
            ),
    {
        match at {
            Configuring::Script => match reply {
                Reply::IsFile(true) => Step::Pending(Configuring::Run),
                Reply::IsFile(false) => Step::Finished(
                    Err(
                        BuildError::ScriptNotFound {
                            tool: self.build_tool,
                            root: self.root.clone(),
                        },
                    ),
                ),
                _ => Step::Pending(Configuring::Script),
            },
            Configuring::Run => match reply {
                Reply::Ran(Ok(result)) => {
                    let search = search::search_for("MYMETA.json", "MYMETA.yml");
                    Step::Pending(Configuring::Mymeta(result, search))
                },
                Reply::Ran(Err(cause)) => Step::Finished(Err(BuildError::NotRun { cause })),
                _ => Step::Pending(Configuring::Run),
            },
            Configuring::Mymeta(result, search) => match search.advance(&self.root, reply) {
                Step::Pending(search) => Step::Pending(Configuring::Mymeta(result, search)),
                Step::Finished(Ok(Some(mymeta))) => {
                    let deps = Dependencies::from_meta(&mymeta);
                    self.distribution_mymeta = Some(mymeta);
                    Step::Finished(Ok((result, deps)))
                },
                Step::Finished(Ok(None)) => {
                    let deps = Dependencies::from_meta(&self.distribution_meta);
                    Step::Finished(Ok((result, deps)))
                },
                Step::Finished(Err(error)) => Step::Finished(Err(error)),
            },
        }
    }

    /// Begin to read `MYMETA.json` (or `MYMETA.yml` when there is no `MYMETA.json`)
    /// from the distribution root, to parse it and store it on
    /// [`distribution_mymeta`](Self::distribution_mymeta).
    ///
    /// The reading ends in an error if neither file is present, or if the one that is
    /// found cannot be read or parsed. On success the freshly parsed metadata is
    /// returned for convenience.
    pub fn read_mymeta(&self) -> (r: MetaSearch)
        ensures
            r.deep_view() == mymeta_search(),
    {
        search::search_for("MYMETA.json", "MYMETA.yml")
    }

    /// What a search for the generated metadata waits for.
    pub fn mymeta_request(&self, search: &MetaSearch) -> (r: Request<'_>)
        ensures
            r.deep_view() == search.deep_view().request(self.root@),
    {
        search.request(&self.root)
    }

    /// Go on with what came of the request of a search for the generated metadata.
    pub fn mymeta_advance(&mut self, search: MetaSearch, reply: Reply) -> (r: Step<
        MetaSearch,
        &Meta,
    >)
        ensures
            (final(self).deep_view(), r.deep_view()) == old(self).deep_view().after_mymeta(
                search.deep_view(),
                reply.deep_view(),
            ),
    {
        match search.advance(&self.root, reply) {
            Step::Pending(search) => Step::Pending(search),
            Step::Finished(Ok(Some(mymeta))) => {
                let stored = self.distribution_mymeta.insert(mymeta);
                Step::Finished(Ok(stored))
            },
            Step::Finished(Ok(None)) => Step::Finished(
                Err(BuildError::NoMymeta { root: self.root.clone() }),
            ),
            Step::Finished(Err(error)) => Step::Finished(Err(error)),
        }
    }
}

} // verus!
