//! What can go wrong.

use vstd::prelude::*;

use crate::build_tool::BuildTool;
use crate::os_text;
use crate::os_text::OsText;

verus! {

/// Why an operation on a distribution did not come to its end.
///
/// A `perl` or `make` that ran and failed is none of these: that is reported in the
/// result of the run.
#[derive(Debug, PartialEq, Eq)]
pub enum BuildError {
    /// The directory holds neither `META.json` nor `META.yml`.
    NoMeta {
        /// The directory.
        root: OsText,
    },
    /// The directory holds neither `Build.PL` nor `Makefile.PL`.
    NoConfigureScript {
        /// The directory.
        root: OsText,
    },
    /// The configure script of the build tool is gone.
    ScriptNotFound {
        /// The build tool.
        tool: BuildTool,
        /// The directory.
        root: OsText,
    },
    /// The directory holds neither `MYMETA.json` nor `MYMETA.yml`.
    NoMymeta {
        /// The directory.
        root: OsText,
    },
    /// The file that the configure step generates is not there.
    NotConfigured {
        /// The build tool.
        tool: BuildTool,
        /// The directory.
        root: OsText,
    },
    /// A metadata file could not be read or parsed.
    Unparsed(ParseFailure),
    /// `perl` or `make` could not be run at all.
    NotRun {
        /// What was reported.
        cause: String,
    },
}

/// A metadata file that could not be read or parsed.
#[derive(Debug, PartialEq, Eq)]
pub struct ParseFailure {
    /// The directory.
    pub root: OsText,
    /// The name of the file in it.
    pub name: &'static str,
    /// What was reported.
    pub cause: String,
}

/// What a [`ParseFailure`] says.
pub struct ParseFailureView {
    /// The directory.
    pub root: Seq<u8>,
    /// The name of the file in it.
    pub name: Seq<char>,
    /// What was reported.
    pub cause: Seq<char>,
}

impl DeepView for ParseFailure {
    type V = ParseFailureView;

    open spec fn deep_view(&self) -> ParseFailureView {
        ParseFailureView { root: self.root@, name: self.name@, cause: self.cause@ }
    }
}

/// What a [`BuildError`] says.
pub enum BuildErrorView {
    /// No metadata.
    NoMeta {
        /// The directory.
        root: Seq<u8>,
    },
    /// No configure script.
    NoConfigureScript {
        /// The directory.
        root: Seq<u8>,
    },
    /// The configure script is gone.
    ScriptNotFound {
        /// The build tool.
        tool: BuildTool,
        /// The directory.
        root: Seq<u8>,
    },
    /// No generated metadata.
    NoMymeta {
        /// The directory.
        root: Seq<u8>,
    },
    /// No generated build script.
    NotConfigured {
        /// The build tool.
        tool: BuildTool,
        /// The directory.
        root: Seq<u8>,
    },
    /// Metadata that could not be parsed.
    Unparsed(ParseFailureView),
    /// A command that could not be run.
    NotRun {
        /// What was reported.
        cause: Seq<char>,
    },
}

impl DeepView for BuildError {
    type V = BuildErrorView;

    open spec fn deep_view(&self) -> BuildErrorView {
        match self {
            BuildError::NoMeta { root } => BuildErrorView::NoMeta { root: root@ },
            BuildError::NoConfigureScript { root } => BuildErrorView::NoConfigureScript {
                root: root@,
            },
            BuildError::ScriptNotFound { tool, root } => BuildErrorView::ScriptNotFound {
                tool: *tool,
                root: root@,
            },
            BuildError::NoMymeta { root } => BuildErrorView::NoMymeta { root: root@ },
            BuildError::NotConfigured { tool, root } => BuildErrorView::NotConfigured {
                tool: *tool,
                root: root@,
            },
            BuildError::Unparsed(failure) => BuildErrorView::Unparsed(failure.deep_view()),
            BuildError::NotRun { cause } => BuildErrorView::NotRun { cause: cause@ },
        }
    }
}

impl BuildErrorView {
    /// The error in words. `path` is how the platform spells the file that could not be
    /// parsed; the other errors have no use for it.
    pub open spec fn words(self, windows: bool, path: Seq<char>) -> Seq<char> {
        match self {
            BuildErrorView::NoMeta { root } => "no META.json or META.yml in "@
                + os_text::shown(root, windows),
            BuildErrorView::NoConfigureScript { root } => "no Build.PL or Makefile.PL in "@
                + os_text::shown(root, windows),
            BuildErrorView::ScriptNotFound { tool, root } => tool.script() + " not found in "@
                + os_text::shown(root, windows),
            BuildErrorView::NoMymeta { root } => "no MYMETA.json or MYMETA.yml in "@
                + os_text::shown(root, windows),
            BuildErrorView::NotConfigured { tool, root } => tool.generated() + " not found in "@
                + os_text::shown(root, windows) + "; run execute_configure first"@,
            BuildErrorView::Unparsed(_) => "failed to parse "@ + path,
            BuildErrorView::NotRun { cause } => cause,
        }
    }

    /// Whether `path` spells the file that could not be parsed, if that is the error.
    pub open spec fn concerns(self, windows: bool, path: Seq<char>) -> bool {
        self matches BuildErrorView::Unparsed(failure) ==> os_text::is_file_name(failure.name)
            ==> os_text::is_adjoined(path, os_text::shown(failure.root, windows), failure.name)
    }
}

/// Each error says what is wrong, and with which directory, file or command.
pub proof fn law_errors_in_words(
    tool: BuildTool,
    root: Seq<u8>,
    failure: ParseFailureView,
    text: Seq<char>,
    windows: bool,
)
    ensures
        ({
            let shown = os_text::shown(root, windows);
            &&& (BuildErrorView::NoMeta { root }).words(windows, text)
                == "no META.json or META.yml in "@ + shown
            &&& (BuildErrorView::NoConfigureScript { root }).words(windows, text)
                == "no Build.PL or Makefile.PL in "@ + shown
            &&& (BuildErrorView::ScriptNotFound { tool, root }).words(windows, text)
                == tool.script() + " not found in "@ + shown
            &&& (BuildErrorView::NoMymeta { root }).words(windows, text)
                == "no MYMETA.json or MYMETA.yml in "@ + shown
            &&& (BuildErrorView::NotConfigured { tool, root }).words(windows, text)
                == tool.generated() + " not found in "@ + shown
                + "; run execute_configure first"@
            &&& BuildErrorView::Unparsed(failure).words(windows, text) == "failed to parse "@ + text
            &&& (BuildErrorView::NotRun { cause: text }).words(windows, text) == text
        }),
{
}

/// The error about a file that could not be parsed spells the directory and the name:
/// the path ends in the name, and if the directory is neither empty nor ends in a
/// separator or a colon, nor begins with a verbatim prefix, it is the directory, one
/// separator and the name.
pub proof fn law_parse_failure_is_spelled_out(
    failure: ParseFailureView,
    windows: bool,
    path: Seq<char>,
)
    requires
        BuildErrorView::Unparsed(failure).concerns(windows, path),
        failure.name.len() > 0,
        failure.name[0] != '.',
        forall|i: int|
            0 <= i < failure.name.len() ==> #[trigger] failure.name[i] != '/' && failure.name[i]
                != '\\' && failure.name[i] != ':',
    ensures
        failure.name.is_suffix_of(path),
        ({
            let shown = os_text::shown(failure.root, windows);
            let n = shown.len();
            let verbatim = n >= 4 && shown[0] == '\\' && shown[1] == '\\' && shown[2] == '?'
                && shown[3] == '\\';
            n > 0 && !verbatim && shown.last() != '/' && shown.last() != '\\' && shown.last() != ':'
                ==> {
                &&& path.len() == n + 1 + failure.name.len()
                &&& path.take(n as int) == shown
                &&& path[n as int] == '/' || path[n as int] == '\\'
            }
        }),
{
    let shown = os_text::shown(failure.root, windows);
    assert(os_text::is_file_name(failure.name));
    let n = shown.len();
    if n > 0 && !os_text::is_verbatim(shown) && shown.last() != '/' && shown.last() != '\\'
        && shown.last() != ':' {
        assert(path.take(n as int) =~= shown);
    }
}

impl BuildError {
    /// The error in words.
    pub fn message(&self, windows: bool) -> (r: String)
        ensures
            exists|path: Seq<char>| #[trigger]
                self.deep_view().concerns(windows, path) && r@ == self.deep_view().words(
                    windows,
                    path,
                ),
            self matches BuildError::Unparsed(failure) ==> exists|path: Seq<char>| #[trigger]
                os_text::platform_joins(
                    os_text::shown(failure.root@, windows),
                    failure.name@,
                    path,
                ) && r@ == "failed to parse "@ + path,
    {
        let path = match self {
            BuildError::Unparsed(failure) => {
                os_text::spelled_path(failure.root.display(windows).as_str(), failure.name)
            },
            _ => String::new(),
        };
        assert(self.deep_view().concerns(windows, path@));
        self.message_at(windows, path.as_str())
    }

    /// The error in words, where the platform spells the file that could not be parsed
    /// as `path`.
    pub fn message_at(&self, windows: bool, path: &str) -> (r: String)
        ensures
            r@ == self.deep_view().words(windows, path@),
    {
        match self {
            BuildError::NoMeta { root } => {
                "no META.json or META.yml in ".to_string().concat(root.display(windows).as_str())
            },
            BuildError::NoConfigureScript { root } => {
                "no Build.PL or Makefile.PL in ".to_string().concat(root.display(windows).as_str())
            },
            BuildError::ScriptNotFound { tool, root } => {
                tool.configure_script().to_string().concat(" not found in ").concat(
                    root.display(windows).as_str(),
                )
            },
            BuildError::NoMymeta { root } => {
                "no MYMETA.json or MYMETA.yml in ".to_string().concat(
                    root.display(windows).as_str(),
                )
            },
            BuildError::NotConfigured { tool, root } => {
                tool.generated_script().to_string().concat(" not found in ").concat(
                    root.display(windows).as_str(),
                ).concat("; run execute_configure first")
            },
            BuildError::Unparsed(_) => "failed to parse ".to_string().concat(path),
            BuildError::NotRun { cause } => cause.clone(),
        }
    }
}

} // verus!
