//! Opening a distribution: reading its metadata and settling on a build tool.

use vstd::prelude::*;

use crate::build_tool::BuildTool;
use crate::distribution::{Distribution, DistributionView};
use crate::error::{BuildError, BuildErrorView};
use crate::meta::{Meta, MetaView};
use crate::os_text::OsText;
use crate::perl::{Perl, PerlView};
use crate::protocol::{Reply, ReplyView, Request, RequestView, Step, StepView};
use crate::search;
use crate::search::{MetaSearch, MetaSearchView};

verus! {

/// A distribution that is being opened.
#[derive(Debug, PartialEq, Eq)]
pub struct Opening {
    root: OsText,
    perl: Perl,
    prefer: BuildTool,
    stage: OpeningStage,
}

/// How far an [`Opening`] has come.
#[derive(Debug, PartialEq, Eq)]
enum OpeningStage {
    /// Looking for the metadata.
    Meta(MetaSearch),
    /// With the metadata, asking for `Build.PL`.
    BuildPl(Meta),
    /// With the metadata and the answer on `Build.PL`, asking for `Makefile.PL`.
    MakefilePl(Meta, bool),
}

/// What an [`Opening`] says.
pub struct OpeningView {
    /// The directory.
    pub root: Seq<u8>,
    /// The interpreter and its environment.
    pub perl: PerlView,
    /// The build tool to choose when there is a choice.
    pub prefer: BuildTool,
    /// How far the opening has come.
    pub stage: OpeningStageView,
}

/// How far an [`Opening`] has come.
pub enum OpeningStageView {
    /// Looking for the metadata.
    Meta(MetaSearchView),
    /// With the metadata, asking for `Build.PL`.
    BuildPl(MetaView),
    /// With the metadata and the answer on `Build.PL`, asking for `Makefile.PL`.
    MakefilePl(MetaView, bool),
}

impl DeepView for Opening {
    type V = OpeningView;

    closed spec fn deep_view(&self) -> OpeningView {
        OpeningView {
            root: self.root@,
            perl: self.perl.deep_view(),
            prefer: self.prefer,
            stage: match self.stage {
                OpeningStage::Meta(search) => OpeningStageView::Meta(search.deep_view()),
                OpeningStage::BuildPl(meta) => OpeningStageView::BuildPl(meta.deep_view()),
                OpeningStage::MakefilePl(meta, has_build_pl) => OpeningStageView::MakefilePl(
                    meta.deep_view(),
                    has_build_pl,
                ),
            },
        }
    }
}

/// The names of the static metadata, in the order in which they are tried.
pub open spec fn meta_names() -> Seq<Seq<char>> {
    seq!["META.json"@, "META.yml"@]
}

/// The opening of the directory `root`, at its beginning.
pub open spec fn opening(root: Seq<u8>, perl: PerlView, prefer: BuildTool) -> OpeningView {
    OpeningView {
        root,
        perl,
        prefer,
        stage: OpeningStageView::Meta(
            MetaSearchView { candidates: meta_names(), next: 0, found: false },
        ),
    }
}

/// The build tool of a distribution that ships the given scripts: `prefer` if it
/// ships both, the tool of the one that it ships, or none.
pub open spec fn tool_for(has_build_pl: bool, has_makefile_pl: bool, prefer: BuildTool) -> Option<
    BuildTool,
> {
    if has_build_pl && has_makefile_pl {
        Some(prefer)
    } else if has_build_pl {
        Some(BuildTool::ModuleBuild)
    } else if has_makefile_pl {
        Some(BuildTool::Eumm)
    } else {
        None
    }
}

/// The distribution as it is once it has been opened: the interpreter runs in its
/// directory, there is no generated metadata, and a pure-Perl build is not forced.
pub open spec fn opened(
    root: Seq<u8>,
    perl: PerlView,
    meta: MetaView,
    build_tool: BuildTool,
) -> DistributionView {
    DistributionView {
        root,
        perl: PerlView { current_dir: Some(root), ..perl },
        distribution_meta: meta,
        distribution_mymeta: None,
        build_tool,
        pure_perl: false,
    }
}

impl OpeningView {
    /// What the opening waits for.
    pub open spec fn request(self) -> RequestView {
        match self.stage {
            OpeningStageView::Meta(search) => search.request(self.root),
            OpeningStageView::BuildPl(_) => RequestView::IsFile {
                root: self.root,
                name: "Build.PL"@,
            },
            OpeningStageView::MakefilePl(..) => RequestView::IsFile {
                root: self.root,
                name: "Makefile.PL"@,
            },
        }
    }

    /// Where the opening stands after `reply`. A reply to something that was not
    /// asked changes nothing.
    pub open spec fn after(self, reply: ReplyView) -> StepView<OpeningView, DistributionView> {
        match (self.stage, reply) {
            (OpeningStageView::Meta(search), _) => match search.after(self.root, reply) {
                StepView::Pending(search) => StepView::Pending(
                    OpeningView { stage: OpeningStageView::Meta(search), ..self },
                ),
                StepView::Finished(Ok(Some(meta))) => StepView::Pending(
                    OpeningView { stage: OpeningStageView::BuildPl(meta), ..self },
                ),
                StepView::Finished(Ok(None)) => StepView::Finished(
                    Err(BuildErrorView::NoMeta { root: self.root }),
                ),
                StepView::Finished(Err(error)) => StepView::Finished(Err(error)),
            },
            (OpeningStageView::BuildPl(meta), ReplyView::IsFile(present)) => StepView::Pending(
                OpeningView { stage: OpeningStageView::MakefilePl(meta, present), ..self },
            ),
            (
                OpeningStageView::MakefilePl(meta, has_build_pl),
                ReplyView::IsFile(has_makefile_pl),
            ) => match tool_for(has_build_pl, has_makefile_pl, self.prefer) {
                Some(tool) => StepView::Finished(Ok(opened(self.root, self.perl, meta, tool))),
                None => StepView::Finished(
                    Err(BuildErrorView::NoConfigureScript { root: self.root }),
                ),
            },
            _ => StepView::Pending(self),
        }
    }
}

/// The build tool of a distribution that ships the given scripts.
fn choose_tool(has_build_pl: bool, has_makefile_pl: bool, prefer: BuildTool) -> (r: Option<
    BuildTool,
>)
    ensures
        r == tool_for(has_build_pl, has_makefile_pl, prefer),
{
    match (has_build_pl, has_makefile_pl) {
        (true, true) => Some(prefer),
        (true, false) => Some(BuildTool::ModuleBuild),
        (false, true) => Some(BuildTool::Eumm),
        (false, false) => None,
    }
}

impl Opening {
    /// Begin to open the directory `root`.
    pub(crate) fn begin(root: OsText, perl: Perl, prefer: BuildTool) -> (r: Opening)
        ensures
            r.deep_view() == opening(root@, perl.deep_view(), prefer),
    {
        let search = search::search_for("META.json", "META.yml");
        Opening { root, perl, prefer, stage: OpeningStage::Meta(search) }
    }

    /// What the opening waits for.
    pub fn request(&self) -> (r: Request<'_>)
        ensures
            r.deep_view() == self.deep_view().request(),
    {
        match &self.stage {
            OpeningStage::Meta(search) => search.request(&self.root),
            OpeningStage::BuildPl(_) => Request::IsFile { root: &self.root, name: "Build.PL" },
            OpeningStage::MakefilePl(_, _) => Request::IsFile {
                root: &self.root,
                name: "Makefile.PL",
            },
        }
    }

    /// Go on with what came of the request.
    pub fn advance(self, reply: Reply) -> (r: Step<Opening, Distribution>)
        ensures
            r.deep_view() == self.deep_view().after(reply.deep_view()),
    {
        let Opening { root, perl, prefer, stage } = self;
        match stage {
            OpeningStage::Meta(search) => match search.advance(&root, reply) {
                Step::Pending(search) => Step::Pending(
                    Opening { root, perl, prefer, stage: OpeningStage::Meta(search) },
                ),
                Step::Finished(Ok(Some(meta))) => Step::Pending(
                    Opening { root, perl, prefer, stage: OpeningStage::BuildPl(meta) },
                ),
                Step::Finished(Ok(None)) => Step::Finished(Err(BuildError::NoMeta { root })),
                Step::Finished(Err(error)) => Step::Finished(Err(error)),
            },
            OpeningStage::BuildPl(meta) => {
                let stage = match reply {
                    Reply::IsFile(present) => OpeningStage::MakefilePl(meta, present),
                    _ => OpeningStage::BuildPl(meta),
                };
                Step::Pending(Opening { root, perl, prefer, stage })
            },
            OpeningStage::MakefilePl(meta, has_build_pl) => match reply {
                Reply::IsFile(has_makefile_pl) => match choose_tool(
                    has_build_pl,
                    has_makefile_pl,
                    prefer,
                ) {
                    Some(build_tool) => Step::Finished(
                        Ok(
                            Distribution {
                                perl: perl.with_current_dir(root.clone()),
                                root,
                                distribution_meta: meta,
                                distribution_mymeta: None,
                                build_tool,
                                pure_perl: false,
                            },
                        ),
                    ),
                    None => Step::Finished(Err(BuildError::NoConfigureScript { root })),
                },
                _ => {
                    let stage = OpeningStage::MakefilePl(meta, has_build_pl);
                    Step::Pending(Opening { root, perl, prefer, stage })
                },
            },
        }
    }
}

} // verus!
