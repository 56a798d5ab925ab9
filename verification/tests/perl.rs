//! The Perl wrapper.

use cpan_distribution_build::{OsText, Perl, PerlNotFound, SearchFailure};

/// The path as `std` sees it.
fn path(text: &OsText) -> std::path::PathBuf {
    std::path::PathBuf::from(String::from_utf8(text.bytes.clone()).unwrap())
}

#[test]
fn new_resolves_perl_from_path() {
    let Ok(perl) = Perl::new() else {
        println!("skipping: no `perl` on PATH");
        return;
    };
    assert!(path(&perl.perl).is_absolute());
    assert!(path(&perl.perl).file_stem().is_some());
    assert!(perl.install_base.is_none());
    assert!(perl.lib.is_empty());
    // `make` mirrors whatever is (or isn't) on PATH.
    assert_eq!(perl.make.is_some(), which::which("make").is_ok());
}

#[test]
fn new_finds_what_the_search_of_path_finds() {
    match (Perl::new(), which::which("perl")) {
        (Ok(perl), Ok(found)) => {
            assert_eq!(path(&perl.perl), found);
            assert_eq!(perl.make.as_ref().map(path), which::which("make").ok());
            assert_eq!(perl.current_dir, None);
        }
        (Err(error), Err(cause)) => {
            assert_eq!(error.cause.message(), cause.to_string());
            assert_eq!(
                error.message(),
                format!("no `perl` executable found on PATH: {cause}")
            );
        }
        (perl, found) => panic!("{perl:?} but {found:?}"),
    }
}

#[test]
fn with_perl_uses_the_given_interpreter() {
    let perl = Perl::with_perl(OsText::new("/usr/local/bin/perl"));
    assert_eq!(path(&perl.perl), std::path::Path::new("/usr/local/bin/perl"));
    assert!(perl.install_base.is_none());
    assert_eq!(perl.make.is_some(), which::which("make").is_ok());
}

#[test]
fn with_perl_finds_make_where_the_search_of_path_finds_it() {
    let perl = Perl::with_perl(OsText::new("perl"));
    assert_eq!(perl.make.as_ref().map(path), which::which("make").ok());
}

#[test]
fn with_install_base_sets_the_location() {
    let perl = Perl::with_perl(OsText::new("/usr/bin/perl"))
        .with_install_base(OsText::new("/opt/perl5"));
    assert_eq!(perl.install_base, Some(OsText::new("/opt/perl5")));
}

#[test]
fn with_make_overrides_resolution() {
    let perl =
        Perl::with_perl(OsText::new("/usr/bin/perl")).with_make(OsText::new("/usr/bin/gmake"));
    assert_eq!(perl.make, Some(OsText::new("/usr/bin/gmake")));
}

#[test]
fn with_lib_accepts_various_path_types() {
    let perl = Perl::with_perl(OsText::new("/usr/bin/perl")).with_lib(vec![
        OsText::new("/opt/perl5/lib/perl5"),
        OsText::new("/home/me/perl5/lib/perl5"),
    ]);
    assert_eq!(
        perl.lib,
        vec![
            OsText::new("/opt/perl5/lib/perl5"),
            OsText::new("/home/me/perl5/lib/perl5"),
        ]
    );
}

#[test]
fn perl5lib_joins_with_colon() {
    let perl = Perl::with_perl(OsText::new("/usr/bin/perl"))
        .with_lib(vec![OsText::new("/a/lib"), OsText::new("/b/c/lib")]);
    assert_eq!(perl.perl5lib(false), OsText::new("/a/lib:/b/c/lib"));
}

#[test]
fn perl5lib_is_empty_without_lib_dirs() {
    let perl = Perl::with_perl(OsText::new("/usr/bin/perl"));
    assert_eq!(perl.perl5lib(false), OsText::new(""));
    assert_eq!(perl.perl5lib(true), OsText::new(""));
}

#[test]
fn perl5lib_joins_with_semicolon_on_windows() {
    let perl = Perl::with_perl(OsText::new("perl")).with_lib(vec![
        OsText::new("C:\\a"),
        OsText::new("C:\\b"),
        OsText::new("D:\\c"),
    ]);
    assert_eq!(perl.perl5lib(true), OsText::new("C:\\a;C:\\b;D:\\c"));
}

#[test]
fn perl5lib_tells_search_paths_apart() {
    let one = Perl::with_perl(OsText::new("perl")).with_lib(vec![OsText::new("/a")]);
    let two = one.clone().with_lib(vec![OsText::new("/a"), OsText::new("")]);
    let three = one.clone().with_lib(vec![OsText::new(""), OsText::new("/a")]);
    assert_eq!(one.perl5lib(false), OsText::new("/a"));
    assert_eq!(two.perl5lib(false), OsText::new("/a:"));
    assert_eq!(three.perl5lib(false), OsText::new(":/a"));
}

#[test]
fn a_failed_search_for_perl_is_an_error() {
    for cause in
        [SearchFailure::NotFound, SearchFailure::NowhereToSearch, SearchFailure::NotCanonical]
    {
        let make = Ok(OsText::new("/usr/bin/make"));
        assert_eq!(Perl::from_search(Err(cause), make), Err(PerlNotFound { cause }));
    }
    assert_eq!(
        PerlNotFound { cause: SearchFailure::NotFound }.message(),
        "no `perl` executable found on PATH: cannot find binary path"
    );
    assert_eq!(
        PerlNotFound { cause: SearchFailure::NowhereToSearch }.message(),
        "no `perl` executable found on PATH: \
         no path to search and provided name is not an absolute path"
    );
    assert_eq!(
        PerlNotFound { cause: SearchFailure::NotCanonical }.message(),
        "no `perl` executable found on PATH: cannot canonicalize path"
    );
}

#[test]
fn causes_read_as_the_search_reports_them() {
    let pairs = [
        (SearchFailure::NotFound, which::Error::CannotFindBinaryPath),
        (SearchFailure::NowhereToSearch, which::Error::CannotGetCurrentDirAndPathListEmpty),
        (SearchFailure::NotCanonical, which::Error::CannotCanonicalize),
    ];
    for (cause, reported) in pairs {
        assert_eq!(cause.message(), reported.to_string());
    }
}

#[test]
fn a_failed_search_for_make_leaves_it_out() {
    let perl = OsText::new("/usr/bin/perl");
    let found = Perl::from_search(Ok(perl.clone()), Err(SearchFailure::NotFound)).unwrap();
    assert_eq!(found.perl, perl);
    assert_eq!(found.make, None);
    assert_eq!(found.install_base, None);
    assert!(found.lib.is_empty());
    assert_eq!(found.current_dir, None);

    let make = OsText::new("/usr/bin/make");
    let found = Perl::with_found_make(perl, Ok(make.clone()));
    assert_eq!(found.make, Some(make));
}
