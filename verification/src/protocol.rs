//! How an operation and its surroundings talk: the operation asks for one thing at
//! a time, and goes on when it is told what came of it.

use vstd::prelude::*;

use crate::error::{BuildError, BuildErrorView};
use crate::meta::{Meta, MetaView};
use crate::os_text::OsText;
use crate::perl::{Perl, PerlView};

verus! {

/// What an operation asks of its surroundings.
#[derive(Debug, PartialEq, Eq)]
pub enum Request<'a> {
    /// Is there a regular file of this name in the directory? Answered by
    /// [`Reply::IsFile`].
    IsFile {
        /// The directory.
        root: &'a OsText,
        /// The name of the file.
        name: &'static str,
    },
    /// Parse the metadata file of this name in the directory. Answered by
    /// [`Reply::Parsed`].
    ParseMeta {
        /// The directory.
        root: &'a OsText,
        /// The name of the file.
        name: &'static str,
    },
    /// Run `perl` with these arguments. Answered by [`Reply::Ran`].
    RunPerl {
        /// The interpreter and its environment.
        perl: &'a Perl,
        /// The arguments.
        args: Vec<&'static str>,
    },
    /// Run `make` with this target, or with none. Answered by [`Reply::Ran`].
    RunMake {
        /// The environment that names the `make` to run.
        perl: &'a Perl,
        /// The target.
        target: Option<&'static str>,
    },
}

/// What a [`Request`] says.
pub enum RequestView {
    /// A question whether a file is there.
    IsFile {
        /// The directory.
        root: Seq<u8>,
        /// The name of the file.
        name: Seq<char>,
    },
    /// A metadata file to parse.
    ParseMeta {
        /// The directory.
        root: Seq<u8>,
        /// The name of the file.
        name: Seq<char>,
    },
    /// A run of `perl`.
    RunPerl {
        /// The interpreter and its environment.
        perl: PerlView,
        /// The arguments.
        args: Seq<Seq<char>>,
    },
    /// A run of `make`.
    RunMake {
        /// The environment that names the `make` to run.
        perl: PerlView,
        /// The target.
        target: Option<Seq<char>>,
    },
}

impl<'a> DeepView for Request<'a> {
    type V = RequestView;

    open spec fn deep_view(&self) -> RequestView {
        match self {
            Request::IsFile { root, name } => RequestView::IsFile { root: root@, name: name@ },
            Request::ParseMeta { root, name } => RequestView::ParseMeta {
                root: root@,
                name: name@,
            },
            Request::RunPerl { perl, args } => RequestView::RunPerl {
                perl: perl.deep_view(),
                args: args.deep_view(),
            },
            Request::RunMake { perl, target } => RequestView::RunMake {
                perl: perl.deep_view(),
                target: target.deep_view(),
            },
        }
    }
}

/// How a run of `perl` or `make` ended.
#[derive(Debug, Clone, Copy, PartialEq, Eq, Structural)]
pub struct ExecuteResult {
    /// Whether it exited with status zero.
    pub is_success: bool,
    /// The exit status, if there was one.
    pub code: Option<i32>,
}

impl DeepView for ExecuteResult {
    type V = ExecuteResult;

    open spec fn deep_view(&self) -> ExecuteResult {
        *self
    }
}

/// What came of a [`Request`].
#[derive(Debug, PartialEq, Eq)]
pub enum Reply {
    /// Whether the file is there.
    IsFile(bool),
    /// The metadata, or why it could not be read or parsed.
    Parsed(Result<Meta, String>),
    /// How the run ended, or why it could not be started.
    Ran(Result<ExecuteResult, String>),
}

/// What a [`Reply`] says.
pub enum ReplyView {
    /// Whether the file is there.
    IsFile(bool),
    /// The metadata, or why it could not be read or parsed.
    Parsed(Result<MetaView, Seq<char>>),
    /// How the run ended, or why it could not be started.
    Ran(Result<ExecuteResult, Seq<char>>),
}

impl DeepView for Reply {
    type V = ReplyView;

    open spec fn deep_view(&self) -> ReplyView {
        match self {
            Reply::IsFile(present) => ReplyView::IsFile(*present),
            Reply::Parsed(Ok(meta)) => ReplyView::Parsed(Ok(meta.deep_view())),
            Reply::Parsed(Err(cause)) => ReplyView::Parsed(Err(cause@)),
            Reply::Ran(Ok(result)) => ReplyView::Ran(Ok(*result)),
            Reply::Ran(Err(cause)) => ReplyView::Ran(Err(cause@)),
        }
    }
}

/// Where an operation stands: it waits for the answer to its next request, or it
/// has come to its end.
#[derive(Debug, PartialEq, Eq)]
pub enum Step<S, T> {
    /// The operation, waiting.
    Pending(S),
    /// What the operation came to.
    Finished(Result<T, BuildError>),
}

/// What a [`Step`] says.
pub enum StepView<S, T> {
    /// The operation, waiting.
    Pending(S),
    /// What the operation came to.
    Finished(Result<T, BuildErrorView>),
}

impl<S: DeepView, T: DeepView> DeepView for Step<S, T> {
    type V = StepView<S::V, T::V>;

    open spec fn deep_view(&self) -> StepView<S::V, T::V> {
        match self {
            Step::Pending(state) => StepView::Pending(state.deep_view()),
            Step::Finished(Ok(value)) => StepView::Finished(Ok(value.deep_view())),
            Step::Finished(Err(error)) => StepView::Finished(Err(error.deep_view())),
        }
    }
}

} // verus!
