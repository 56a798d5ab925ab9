//! Looking for a metadata file under one of several names.

use vstd::prelude::*;

use crate::error::{BuildError, BuildErrorView, ParseFailure, ParseFailureView};
use crate::meta::{Meta, MetaView};
use crate::os_text::OsText;
use crate::protocol::{Reply, ReplyView, Request, RequestView, Step, StepView};

verus! {

/// A search for the first of several names under which a directory holds a metadata
/// file.
#[derive(Debug, PartialEq, Eq)]
pub struct MetaSearch {
    candidates: Vec<&'static str>,
    next: usize,
    found: bool,
}

/// What a [`MetaSearch`] says.
pub struct MetaSearchView {
    /// The names, in the order in which they are tried.
    pub candidates: Seq<Seq<char>>,
    /// The name that is being tried.
    pub next: int,
    /// Whether a file of that name was found, so that it is to be parsed.
    pub found: bool,
}

impl DeepView for MetaSearch {
    type V = MetaSearchView;

    closed spec fn deep_view(&self) -> MetaSearchView {
        MetaSearchView {
            candidates: self.candidates.deep_view(),
            next: self.next as int,
            found: self.found,
        }
    }
}

impl MetaSearchView {
    /// The search among `candidates`, from the one at `next` on: over, with nothing
    /// found, when there is none left.
    pub open spec fn from(
        candidates: Seq<Seq<char>>,
        next: int,
    ) -> StepView<MetaSearchView, Option<MetaView>> {
        if next < candidates.len() {
            StepView::Pending(MetaSearchView { candidates, next, found: false })
        } else {
            StepView::Finished(Ok(None))
        }
    }

    /// What the search waits for in the directory `root`.
    pub open spec fn request(self, root: Seq<u8>) -> RequestView {
        let name = self.candidates[self.next];
        if self.found {
            RequestView::ParseMeta { root, name }
        } else {
            RequestView::IsFile { root, name }
        }
    }

    /// Where the search in the directory `root` stands after `reply`. A reply to
    /// something that was not asked changes nothing.
    pub open spec fn after(self, root: Seq<u8>, reply: ReplyView) -> StepView<
        MetaSearchView,
        Option<MetaView>,
    > {
        match reply {
            ReplyView::IsFile(true) if !self.found => StepView::Pending(
                MetaSearchView { found: true, ..self },
            ),
            ReplyView::IsFile(false) if !self.found => Self::from(self.candidates, self.next + 1),
            ReplyView::Parsed(Ok(meta)) if self.found => StepView::Finished(Ok(Some(meta))),
            ReplyView::Parsed(Err(cause)) if self.found => StepView::Finished(
                Err(
                    BuildErrorView::Unparsed(
                        ParseFailureView { root, name: self.candidates[self.next], cause },
                    ),
                ),
            ),
            _ => StepView::Pending(self),
        }
    }
}

/// Search a directory for the first of `candidates` that exists there as a file, to be
/// parsed as CPAN distribution metadata. The search ends with `None` if none of them
/// exists.
pub fn read_meta(candidates: Vec<&'static str>) -> (r: Step<MetaSearch, Option<Meta>>)
    ensures
        r.deep_view() == MetaSearchView::from(candidates.deep_view(), 0),
{
    if candidates.len() == 0 {
        Step::Finished(Ok(None))
    } else {
        Step::Pending(MetaSearch { candidates, next: 0, found: false })
    }
}

/// The search for a metadata file under the name `json`, or else under the name `yml`.
pub(crate) fn search_for(json: &'static str, yml: &'static str) -> (r: MetaSearch)
    ensures
        r.deep_view() == (MetaSearchView { candidates: seq![json@, yml@], next: 0, found: false }),
{
    let candidates: Vec<&'static str> = vec![json, yml];
    assert(candidates.deep_view() =~= seq![json@, yml@]);
    match read_meta(candidates) {
        Step::Pending(search) => search,
        Step::Finished(_) => vstd::pervasive::unreached(),
    }
}

impl MetaSearch {
    #[verifier::type_invariant]
    spec fn at_a_candidate(self) -> bool {
        self.next < self.candidates@.len()
    }

    /// What the search waits for in the directory `root`.
    pub fn request<'a>(&self, root: &'a OsText) -> (r: Request<'a>)
        ensures
            r.deep_view() == self.deep_view().request(root@),
    {
        proof {
            use_type_invariant(self);
        }
        let name = self.candidates[self.next];
        if self.found {
            Request::ParseMeta { root, name }
        } else {
            Request::IsFile { root, name }
        }
    }

    /// Go on with what came of the request in the directory `root`.
    pub fn advance(self, root: &OsText, reply: Reply) -> (r: Step<MetaSearch, Option<Meta>>)
        ensures
            r.deep_view() == self.deep_view().after(root@, reply.deep_view()),
    {
        proof {
            use_type_invariant(&self);
        }
        if self.found {
            match reply {
                Reply::Parsed(Ok(meta)) => Step::Finished(Ok(Some(meta))),
                Reply::Parsed(Err(cause)) => {
                    let name = self.candidates[self.next];
                    let failure = ParseFailure { root: root.clone(), name, cause };
                    Step::Finished(Err(BuildError::Unparsed(failure)))
                },
                _ => Step::Pending(self),
            }
        } else {
            match reply {
                Reply::IsFile(true) => Step::Pending(
                    MetaSearch { candidates: self.candidates, next: self.next, found: true },
                ),
                Reply::IsFile(false) => {
                    let n: usize = self.candidates.len();
                    let next: usize = self.next + 1;
                    if next < n {
                        Step::Pending(
                            MetaSearch { candidates: self.candidates, next, found: false },
                        )
                    } else {
                        Step::Finished(Ok(None))
                    }
                },
                _ => Step::Pending(self),
            }
        }
    }
}

} // verus!
