//! A configured Perl interpreter: where `perl` and `make` live, where newly built
//! modules are installed, and which directories go on `PERL5LIB`.

use vstd::prelude::*;

use crate::os_text;
use crate::os_text::OsText;

verus! {

/// A Perl interpreter and the environment used to build and install CPAN
/// distributions with it.
///
/// Construct one with [`Perl::new`] (which finds `perl` on `PATH`) or
/// [`Perl::with_perl`] (which takes an explicit interpreter), then adjust it with
/// [`with_install_base`](Self::with_install_base) and [`with_lib`](Self::with_lib).
#[derive(Debug, PartialEq, Eq)]
#[non_exhaustive]
pub struct Perl {
    /// Full path to the `perl` executable.
    pub perl: OsText,
    /// Full path to `make`, or `None` when no `make` is on `PATH`. Required to build
    /// `ExtUtils::MakeMaker` distributions; `Module::Build` distributions do not
    /// need it.
    pub make: Option<OsText>,
    /// Full path to the install location for newly installed modules: the
    /// equivalent of `ExtUtils::MakeMaker`'s `INSTALL_BASE` or `Module::Build`'s
    /// `--install_base`. `None` installs to the interpreter's default location.
    pub install_base: Option<OsText>,
    /// Full paths of directories to search for Perl modules. Joined with the
    /// platform path separator by [`perl5lib`](Self::perl5lib) to form the
    /// `PERL5LIB` environment variable.
    pub lib: Vec<OsText>,
    /// The directory to run in; `None` runs in the current directory.
    pub current_dir: Option<OsText>,
}

/// What a [`Perl`] says.
pub struct PerlView {
    /// The interpreter.
    pub perl: Seq<u8>,
    /// The `make` to use.
    pub make: Option<Seq<u8>>,
    /// The install location.
    pub install_base: Option<Seq<u8>>,
    /// The module search path.
    pub lib: Seq<Seq<u8>>,
    /// The directory to run in.
    pub current_dir: Option<Seq<u8>>,
}

impl DeepView for Perl {
    type V = PerlView;

    open spec fn deep_view(&self) -> PerlView {
        PerlView {
            perl: self.perl@,
            make: self.make.deep_view(),
            install_base: self.install_base.deep_view(),
            lib: self.lib.deep_view(),
            current_dir: self.current_dir.deep_view(),
        }
    }
}

impl Clone for Perl {
    fn clone(&self) -> (r: Perl)
        ensures
            r.deep_view() == self.deep_view(),
    {
        Perl {
            perl: self.perl.clone(),
            make: self.make.clone(),
            install_base: self.install_base.clone(),
            lib: os_text::clone_list(&self.lib),
            current_dir: self.current_dir.clone(),
        }
    }
}

/// Why an executable was not found on `PATH`.
#[derive(Debug, Clone, Copy, PartialEq, Eq, Structural)]
pub enum SearchFailure {
    /// No directory of `PATH` holds such an executable.
    NotFound,
    /// There is no directory to search.
    NowhereToSearch,
    /// The path that was found could not be made canonical.
    NotCanonical,
}

impl SearchFailure {
    /// The reason in words.
    pub open spec fn words(self) -> Seq<char> {
        match self {
            SearchFailure::NotFound => "cannot find binary path"@,
            SearchFailure::NowhereToSearch =>
                "no path to search and provided name is not an absolute path"@,
            SearchFailure::NotCanonical => "cannot canonicalize path"@,
        }
    }

    /// The reason in words.
    pub fn message(self) -> (r: &'static str)
        ensures
            r@ == self.words(),
    {
        match self {
            SearchFailure::NotFound => "cannot find binary path",
            SearchFailure::NowhereToSearch =>
                "no path to search and provided name is not an absolute path",
            SearchFailure::NotCanonical => "cannot canonicalize path",
        }
    }
}

/// There is no `perl` on `PATH`.
#[derive(Debug, Clone, Copy, PartialEq, Eq, Structural)]
pub struct PerlNotFound {
    /// Why none was found.
    pub cause: SearchFailure,
}

impl PerlNotFound {
    /// The error in words.
    pub fn message(self) -> (r: String)
        ensures
            r@ == "no `perl` executable found on PATH: "@ + self.cause.words(),
    {
        "no `perl` executable found on PATH: ".to_string().concat(self.cause.message())
    }
}

/// Whether `name` is made of ASCII letters only, and of at least one.
pub open spec fn plain_name(name: Seq<char>) -> bool {
    &&& name.len() > 0
    &&& forall|i: int|
        0 <= i < name.len() ==> ('a' <= #[trigger] name[i] <= 'z' || 'A' <= name[i] <= 'Z')
}

/// Whether a component of a path can end at this byte: a slash, a backslash or the colon
/// of a drive.
pub open spec fn ends_a_component(byte: u8) -> bool {
    byte == 0x2f || byte == 0x5c || byte == 0x3a
}

/// The byte, in lower case if it is an ASCII letter.
pub open spec fn lower(byte: int) -> int {
    if 0x41 <= byte <= 0x5a {
        byte + 0x20
    } else {
        byte
    }
}

/// Whether a component of `path` that begins at `start` is `name`, the case of ASCII
/// letters aside, with nothing behind it or with an extension.
pub open spec fn holds_at(path: Seq<u8>, name: Seq<char>, start: int) -> bool {
    let end = start + name.len();
    &&& 0 <= start
    &&& end <= path.len()
    &&& start > 0 ==> ends_a_component(path[start - 1])
    &&& forall|i: int|
        0 <= i < name.len() ==> lower(path[start + i] as int) == lower(#[trigger] name[i] as int)
    &&& end < path.len() ==> path[end] == 0x2e  // `.`

}

/// Whether `path` is one to an executable called `name`.
pub open spec fn is_path_to(path: Seq<u8>, name: Seq<char>) -> bool {
    exists|start: int| holds_at(path, name, start)
}

/// `which::which`: the path of the first executable called `name` on `PATH`. What is
/// found, and whether anything is, depends on the environment and on the file system,
/// so that nothing is claimed of it. Claimed is: a path that is found was put together
/// from a directory and `name`, which on Windows may get an extension and the case in
/// which the directory lists it; of that extension no more than its dot, because it is
/// taken from `PATHEXT` as it stands there, separators and all; and a search never fails
/// to make a path canonical, which is the failure of another function of that crate.
#[verifier::external_body]
fn find_executable(name: &str) -> (r: Result<OsText, SearchFailure>)
    requires
        plain_name(name@),
    ensures
        r matches Ok(path) ==> is_path_to(path@, name@),
        r matches Err(cause) ==> cause != SearchFailure::NotCanonical,
{
    match which::which(name) {
        Ok(path) => Ok(OsText { bytes: path.into_os_string().into_encoded_bytes() }),
        Err(which::Error::CannotFindBinaryPath) => Err(SearchFailure::NotFound),
        Err(which::Error::CannotGetCurrentDirAndPathListEmpty) => {
            Err(SearchFailure::NowhereToSearch)
        },
        Err(which::Error::CannotCanonicalize) => Err(SearchFailure::NotCanonical),
    }
}

/// Whether a search of `PATH` for `name` can come back with `found`. A search may come
/// back with something else each time; nothing but a search makes this known.
pub closed spec fn search_finds(name: &str, found: Result<OsText, SearchFailure>) -> bool {
    call_ensures(find_executable, (name,), found)
}

/// What [`search_finds`] speaks of is what [`find_executable`] comes back with.
proof fn law_found_by_a_search(name: &str, found: Result<OsText, SearchFailure>)
    ensures
        search_finds(name, found) <==> call_ensures(find_executable, (name,), found),
{
}

/// Make `search` for `name`.
fn search_for<F: Fn(&str) -> Result<OsText, SearchFailure>>(search: F, name: &str) -> (r: Result<
    OsText,
    SearchFailure,
>)
    requires
        call_requires(search, (name,)),
    ensures
        call_ensures(search, (name,), r),
{
    search(name)
}

/// The byte that separates the directories of a search path.
pub open spec fn path_separator(windows: bool) -> u8 {
    if windows {
        0x3b  // `;`

    } else {
        0x3a  // `:`

    }
}

/// The parts, in order, with `separator` between each two.
pub open spec fn joined(parts: Seq<Seq<u8>>, separator: u8) -> Seq<u8>
    decreases parts.len(),
{
    if parts.len() == 0 {
        Seq::empty()
    } else if parts.len() == 1 {
        parts[0]
    } else {
        joined(parts.drop_last(), separator).push(separator) + parts.last()
    }
}

impl Perl {
    /// Create a wrapper, resolving `perl` and `make` from `PATH`.
    ///
    /// The first `perl` on `PATH` is used; an error is returned if there is none.
    /// The first `make` on `PATH` is used when present, otherwise
    /// [`make`](Self::make) is `None`. [`install_base`](Self::install_base) is `None`
    /// (install to the default location) and [`lib`](Self::lib) is empty; set them
    /// with [`with_install_base`](Self::with_install_base) and
    /// [`with_lib`](Self::with_lib).
    pub fn new() -> (r: Result<Perl, PerlNotFound>)
        ensures
            r matches Ok(perl) ==> {
                &&& perl.deep_view() == interpreter(perl.perl@, perl.make.deep_view())
                &&& is_path_to(perl.perl@, "perl"@)
                &&& perl.make matches Some(make) ==> is_path_to(make@, "make"@)
            },
            r matches Err(error) ==> error.cause != SearchFailure::NotCanonical,
            r matches Ok(perl) ==> exists|found: Result<OsText, SearchFailure>| #[trigger]
                search_finds("perl", found) && found is Ok && perl.perl@ == found->Ok_0@,
            r matches Ok(perl) ==> exists|found: Result<OsText, SearchFailure>| #[trigger]
                search_finds("make", found) && (perl.make is Some <==> found is Ok) && (
                perl.make is Some ==> perl.make->0@ == found->Ok_0@),
            r matches Err(error) ==> search_finds("perl", Err(error.cause)),
    {
        proof {
            reveal_strlit("perl");
            reveal_strlit("make");
        }
        let perl = search_for(find_executable, "perl");
        let make = search_for(find_executable, "make");
        proof {
            law_found_by_a_search("perl", perl);
            law_found_by_a_search("make", make);
        }
        Self::from_search(perl, make)
    }

    /// The wrapper for what a search of `PATH` for `perl` and for `make` came back
    /// with.
    pub fn from_search(
        perl: Result<OsText, SearchFailure>,
        make: Result<OsText, SearchFailure>,
    ) -> (r: Result<Perl, PerlNotFound>)
        ensures
            perl is Ok <==> r is Ok,
            perl matches Err(cause) ==> r == Err::<Perl, PerlNotFound>(PerlNotFound { cause }),
            r matches Ok(found) ==> found.deep_view() == interpreter(
                perl->Ok_0@,
                make.ok().deep_view(),
            ),
    {
        match perl {
            Ok(path) => Ok(Self::with_found_make(path, make)),
            Err(cause) => Err(PerlNotFound { cause }),
        }
    }

    /// Create a wrapper that uses `perl` as the interpreter instead of searching
    /// `PATH`.
    ///
    /// `make` is still resolved from `PATH` (first match, or `None`);
    /// [`install_base`](Self::install_base) is `None` and [`lib`](Self::lib) is
    /// empty.
    pub fn with_perl(perl: OsText) -> (r: Perl)
        ensures
            r.deep_view() == interpreter(perl@, r.make.deep_view()),
            r.make matches Some(make) ==> is_path_to(make@, "make"@),
            exists|found: Result<OsText, SearchFailure>| #[trigger]
                search_finds("make", found) && (r.make is Some <==> found is Ok) && (r.make is Some
                    ==> r.make->0@ == found->Ok_0@),
    {
        proof {
            reveal_strlit("make");
        }
        let make = search_for(find_executable, "make");
        proof {
            law_found_by_a_search("make", make);
        }
        Self::with_found_make(perl, make)
    }

    /// The wrapper around `perl` for what a search of `PATH` for `make` came back
    /// with.
    pub fn with_found_make(perl: OsText, make: Result<OsText, SearchFailure>) -> (r: Perl)
        ensures
            r.deep_view() == interpreter(perl@, make.ok().deep_view()),
    {
        let make = match make {
            Ok(path) => Some(path),
            Err(_) => None,
        };
        let r = Perl { perl, make, install_base: None, lib: Vec::new(), current_dir: None };
        assert(r.lib.deep_view() =~= Seq::<Seq<u8>>::empty());
        r
    }

    /// Set the install location for newly installed modules
    /// ([`install_base`](Self::install_base)).
    #[must_use]
    pub fn with_install_base(self, install_base: OsText) -> (r: Perl)
        ensures
            r == (Perl { install_base: Some(install_base), ..self }),
    {
        Perl { install_base: Some(install_base), ..self }
    }

    /// Replace the module search path ([`lib`](Self::lib)).
    #[must_use]
    pub fn with_lib(self, lib: Vec<OsText>) -> (r: Perl)
        ensures
            r == (Perl { lib, ..self }),
    {
        Perl { lib, ..self }
    }

    /// Override [`make`](Self::make) with an explicit path.
    #[must_use]
    pub fn with_make(self, make: OsText) -> (r: Perl)
        ensures
            r == (Perl { make: Some(make), ..self }),
    {
        Perl { make: Some(make), ..self }
    }

    /// Run in the given directory ([`current_dir`](Self::current_dir)).
    #[must_use]
    pub fn with_current_dir(self, current_dir: OsText) -> (r: Perl)
        ensures
            r == (Perl { current_dir: Some(current_dir), ..self }),
    {
        Perl { current_dir: Some(current_dir), ..self }
    }

    /// The `PERL5LIB` value: [`lib`](Self::lib) joined with the path separator of the
    /// platform (`;` on Windows, `:` elsewhere). Empty when `lib` is empty.
    pub fn perl5lib(&self, windows: bool) -> (r: OsText)
        ensures
            r@ == joined(self.lib.deep_view(), path_separator(windows)),
    {
        let separator: u8 = if windows { 0x3b } else { 0x3a };
        let ghost parts = self.lib.deep_view();
        let mut bytes: Vec<u8> = Vec::new();
        assert(parts.take(0) =~= Seq::<Seq<u8>>::empty());
        for i in 0..self.lib.len()
            invariant
                parts == self.lib.deep_view(),
                separator == path_separator(windows),
                bytes@ == joined(parts.take(i as int), separator),
        {
            let ghost longer = parts.take(i + 1);
            assert(longer.drop_last() =~= parts.take(i as int));
            assert(longer.last() == self.lib@[i as int]@);
            if i > 0 {
                bytes.push(separator);
            }
            let mut part = self.lib[i].clone();
            bytes.append(&mut part.bytes);
            assert(bytes@ =~= joined(longer, separator));
        }
        assert(parts.take(self.lib@.len() as int) =~= parts);
        OsText { bytes }
    }
}

/// The wrapper around `perl` with the given `make` and nothing else set.
pub open spec fn interpreter(perl: Seq<u8>, make: Option<Seq<u8>>) -> PerlView {
    PerlView { perl, make, install_base: None, lib: Seq::empty(), current_dir: None }
}

/// A wrapper that was just made has the interpreter and the `make` that it was made
/// with, and nothing else set.
pub proof fn law_fresh_wrapper(perl: Seq<u8>, make: Option<Seq<u8>>)
    ensures
        interpreter(perl, make).perl == perl,
        interpreter(perl, make).make == make,
        interpreter(perl, make).install_base is None,
        interpreter(perl, make).lib.len() == 0,
        interpreter(perl, make).current_dir is None,
{
}

/// A `PERL5LIB` value keeps the directories in order: without any it is empty, one alone
/// is the value, and one more at the end of the search path goes behind the value for
/// the others, with a separator in front of it.
pub proof fn law_joined_keeps_the_order(parts: Seq<Seq<u8>>, last: Seq<u8>, separator: u8)
    ensures
        joined(Seq::empty(), separator).len() == 0,
        joined(seq![last], separator) == last,
        parts.len() > 0 ==> joined(parts.push(last), separator) == joined(
            parts,
            separator,
        ) + seq![separator] + last,
{
    if parts.len() > 0 {
        let longer = parts.push(last);
        assert(longer.drop_last() =~= parts);
        assert(joined(longer, separator) =~= joined(parts, separator) + seq![separator] + last);
    }
}

/// Every directory but the first stands in a `PERL5LIB` value behind the value for those
/// before it, a separator between, whatever comes after it.
pub proof fn law_joined_begins_with_the_first(parts: Seq<Seq<u8>>, n: int, separator: u8)
    requires
        0 < n < parts.len(),
    ensures
        (joined(parts.take(n), separator) + seq![separator] + parts[n]).is_prefix_of(
            joined(parts, separator),
        ),
    decreases parts.len(),
{
    let short = parts.drop_last();
    assert(parts =~= short.push(parts.last()));
    law_joined_keeps_the_order(short, parts.last(), separator);
    if n < parts.len() - 1 {
        law_joined_begins_with_the_first(short, n, separator);
        assert(short.take(n) =~= parts.take(n));
    } else {
        assert(short =~= parts.take(n));
    }
}

/// A `PERL5LIB` value tells its directories apart: two search paths, neither of them
/// empty and with no separator inside a directory, give the same value only if they
/// are the same.
pub proof fn law_joined_is_unambiguous(a: Seq<Seq<u8>>, b: Seq<Seq<u8>>, separator: u8)
    requires
        a.len() > 0,
        b.len() > 0,
        forall|i: int| 0 <= i < a.len() ==> !(#[trigger] a[i]).contains(separator),
        forall|i: int| 0 <= i < b.len() ==> !(#[trigger] b[i]).contains(separator),
        joined(a, separator) == joined(b, separator),
    ensures
        a == b,
    decreases a.len(),
{
    let whole = joined(a, separator);
    let a_init = joined(a.drop_last(), separator);
    let b_init = joined(b.drop_last(), separator);
    if a.len() >= 2 {
        assert(whole[a_init.len() as int] == separator);
    }
    if b.len() >= 2 {
        assert(whole[b_init.len() as int] == separator);
    }
    if a.len() == 1 {
        if b.len() >= 2 {
            assert(a[0].contains(whole[b_init.len() as int]));
        }
        assert(a =~= b);
    } else if b.len() == 1 {
        assert(b[0].contains(whole[a_init.len() as int]));
    } else {
        assert(whole == a_init.push(separator) + a.last());
        assert(whole == b_init.push(separator) + b.last());
        assert(whole.len() == a_init.len() + 1 + a.last().len());
        assert(whole.len() == b_init.len() + 1 + b.last().len());
        if a_init.len() < b_init.len() {
            assert((a_init.push(separator) + a.last())[b_init.len() as int] == separator);
            assert(a[a.len() - 1][b_init.len() - (a_init.len() + 1)] == separator);
        }
        if b_init.len() < a_init.len() {
            assert((b_init.push(separator) + b.last())[a_init.len() as int] == separator);
            assert(b[b.len() - 1][a_init.len() - (b_init.len() + 1)] == separator);
        }
        assert(a_init =~= whole.take(a_init.len() as int));
        assert(b_init =~= whole.take(a_init.len() as int));
        assert(a.last() =~= whole.skip(a_init.len() as int + 1));
        assert(b.last() =~= whole.skip(a_init.len() as int + 1));
        law_joined_is_unambiguous(a.drop_last(), b.drop_last(), separator);
        assert(a =~= a.drop_last().push(a.last()));
        assert(b =~= b.drop_last().push(b.last()));
    }
}

} // verus!
