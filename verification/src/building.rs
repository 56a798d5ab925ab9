//! The steps after configuring: build, test, install, clean.

use vstd::prelude::*;

use crate::build_tool::BuildTool;
use crate::distribution::{Distribution, DistributionView};
use crate::error::{BuildError, BuildErrorView};
use crate::protocol::{ExecuteResult, Reply, ReplyView, Request, RequestView, Step, StepView};

verus! {

/// How far a step of the generated build script has come.
#[derive(Debug, Clone, Copy, PartialEq, Eq)]
pub struct Building {
    /// The target to build; `None` builds the default target.
    target: Option<&'static str>,
    /// Whether the generated script was found, so that it is to be run.
    found: bool,
}

/// What a [`Building`] says.
pub struct BuildingView {
    /// The target to build.
    pub target: Option<Seq<char>>,
    /// Whether the generated script was found.
    pub found: bool,
}

impl DeepView for Building {
    type V = BuildingView;

    closed spec fn deep_view(&self) -> BuildingView {
        BuildingView { target: self.target.deep_view(), found: self.found }
    }
}

/// The step for `target`, at its beginning.
pub open spec fn building(target: Option<Seq<char>>) -> BuildingView {
    BuildingView { target, found: false }
}

impl DistributionView {
    /// The run of the generated build script for `target`: of `make` or of
    /// `perl Build`, each followed by the target if there is one.
    pub open spec fn build_run(self, target: Option<Seq<char>>) -> RequestView {
        match self.build_tool {
            BuildTool::Eumm => RequestView::RunMake { perl: self.perl, target },
            BuildTool::ModuleBuild => RequestView::RunPerl {
                perl: self.perl,
                args: match target {
                    Some(target) => seq!["Build"@, target],
                    None => seq!["Build"@],
                },
            },
        }
    }

    /// What a step that stands `at` waits for.
    pub open spec fn build_request(self, at: BuildingView) -> RequestView {
        if at.found {
            self.build_run(at.target)
        } else {
            RequestView::IsFile { root: self.root, name: self.build_tool.generated() }
        }
    }

    /// Where a step stands after `reply`. A reply to something that was not asked
    /// changes nothing.
    pub open spec fn after_build(self, at: BuildingView, reply: ReplyView) -> StepView<
        BuildingView,
        ExecuteResult,
    > {
        match reply {
            ReplyView::IsFile(true) if !at.found => StepView::Pending(
                BuildingView { found: true, ..at },
            ),
            ReplyView::IsFile(false) if !at.found => StepView::Finished(
                Err(BuildErrorView::NotConfigured { tool: self.build_tool, root: self.root }),
            ),
            ReplyView::Ran(Ok(result)) if at.found => StepView::Finished(Ok(result)),
            ReplyView::Ran(Err(cause)) if at.found => StepView::Finished(
                Err(BuildErrorView::NotRun { cause }),
            ),
            _ => StepView::Pending(at),
        }
    }
}

impl Distribution {
    /// Begin the build step, to run through [`perl`](Self::perl) (in
    /// [`root`](Self::root), with the CPAN build environment applied): `make` for
    /// [`BuildTool::Eumm`], or `perl Build` for [`BuildTool::ModuleBuild`].
    /// [`build_request`](Self::build_request) says what it waits for, and
    /// [`build_advance`](Self::build_advance) takes the answer.
    ///
    /// This runs after [`execute_configure`](Self::execute_configure), which
    /// generates the `Makefile` / `Build` script invoked here; the step ends in an
    /// error if that artifact is missing (or, for EUMM, if no `make` is
    /// available). A non-zero exit is reported in the [`ExecuteResult`] that the step
    /// ends with, not as an error.
    pub fn execute_build(&self) -> (r: Building)
        ensures
            r.deep_view() == building(None),
    {
        self.run_build_target(None)
    }

    /// Begin to run the test suite: `make test` for [`BuildTool::Eumm`], or
    /// `perl Build test` for [`BuildTool::ModuleBuild`].
    ///
    /// Runs after [`execute_build`](Self::execute_build); the requirements and
    /// error behaviour are the same as for [`execute_build`](Self::execute_build).
    pub fn execute_test(&self) -> (r: Building)
        ensures
            r.deep_view() == building(Some("test"@)),
    {
        self.run_build_target(Some("test"))
    }

    /// Begin to install the built distribution: `make install` for
    /// [`BuildTool::Eumm`], or `perl Build install` for [`BuildTool::ModuleBuild`].
    ///
    /// Where files land is governed by the [`perl`](Self::perl) wrapper's
    /// `install_base`. Runs after [`execute_build`](Self::execute_build); the
    /// requirements and error behaviour are the same as for
    /// [`execute_build`](Self::execute_build).
    pub fn execute_install(&self) -> (r: Building)
        ensures
            r.deep_view() == building(Some("install"@)),
    {
        self.run_build_target(Some("install"))
    }

    /// Begin to undo the build step: `make clean` for [`BuildTool::Eumm`], or
    /// `perl Build clean` for [`BuildTool::ModuleBuild`].
    ///
    /// This removes the files created by [`execute_build`](Self::execute_build)
    /// (object files, the `blib/` tree, and so on) while leaving the generated
    /// `Makefile` / `Build` script in place. Runs after
    /// [`execute_configure`](Self::execute_configure); the requirements and error
    /// behaviour are the same as for [`execute_build`](Self::execute_build).
    pub fn execute_clean(&self) -> (r: Building)
        ensures
            r.deep_view() == building(Some("clean"@)),
    {
        self.run_build_target(Some("clean"))
    }

    /// Begin to undo the configure step too: `make distclean` for
    /// [`BuildTool::Eumm`], or `perl Build distclean` for
    /// [`BuildTool::ModuleBuild`].
    ///
    /// Like [`execute_clean`](Self::execute_clean), but also removes the
    /// generated `Makefile` / `Build` script and the `MYMETA.*` files, returning
    /// the tree to roughly its pre-[`execute_configure`](Self::execute_configure)
    /// state. The generated script still has to be present to run this; the
    /// requirements and error behaviour are otherwise as for
    /// [`execute_build`](Self::execute_build).
    pub fn execute_distclean(&self) -> (r: Building)
        ensures
            r.deep_view() == building(Some("distclean"@)),
    {
        self.run_build_target(Some("distclean"))
    }

    /// Shared beginning of the steps that invoke the generated build script with an
    /// optional target (`None` builds the default target).
    fn run_build_target(&self, target: Option<&'static str>) -> (r: Building)
        ensures
            r.deep_view() == building(target.deep_view()),
    {
        Building { target, found: false }
    }

    /// What a step that stands `at` waits for.
    pub fn build_request(&self, at: &Building) -> (r: Request<'_>)
        ensures
            r.deep_view() == self.deep_view().build_request(at.deep_view()),
    {
        if !at.found {
            return Request::IsFile {
                root: &self.root,
                name: self.build_tool.generated_script(),
            };
        }
        match self.build_tool {
            BuildTool::Eumm => Request::RunMake { perl: &self.perl, target: at.target },
            BuildTool::ModuleBuild => {
                let mut args: Vec<&'static str> = vec!["Build"];
                if let Some(target) = at.target {
                    args.push(target);
                }
                assert(self.deep_view().build_run(at.target.deep_view())->args
                    =~= args.deep_view());
                Request::RunPerl { perl: &self.perl, args }
            },
        }
    }

    /// Go on with what came of the request of a step that stands `at`.
    pub fn build_advance(&self, at: Building, reply: Reply) -> (r: Step<Building, ExecuteResult>)
        ensures
            r.deep_view() == self.deep_view().after_build(at.deep_view(), reply.deep_view()),
    {
        if at.found {
            match reply {
                Reply::Ran(Ok(result)) => Step::Finished(Ok(result)),
                Reply::Ran(Err(cause)) => Step::Finished(Err(BuildError::NotRun { cause })),
                _ => Step::Pending(at),
            }
        } else {
            match reply {
                Reply::IsFile(true) => Step::Pending(
                    Building { target: at.target, found: true },
                ),
                Reply::IsFile(false) => Step::Finished(
                    Err(
                        BuildError::NotConfigured {
                            tool: self.build_tool,
                            root: self.root.clone(),
                        },
                    ),
                ),
                _ => Step::Pending(at),
            }
        }
    }
}

} // verus!
