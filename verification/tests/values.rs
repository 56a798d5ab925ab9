//! Build tools, version maps, dependency lists, searches and texts.

use cpan_distribution_build::search::read_meta;
use cpan_distribution_build::{
    BuildError, BuildTool, Dependencies, Dependency, Meta, OsText, ParseFailure, Phase, Prereqs,
    Reply, Request, SpecVersion, Step, VersionMap,
};

fn dep(module: &str, version: &str) -> Dependency {
    Dependency { module: module.into(), version: version.into() }
}

fn versions(entries: &[(&str, &str)]) -> VersionMap {
    let mut map = VersionMap::new();
    for (module, version) in entries {
        map.insert(module.to_string(), version.to_string());
    }
    map
}

fn meta(prereqs: Prereqs) -> Meta {
    Meta {
        name: "Foo-Bar".to_string(),
        version: "1.23".to_string(),
        spec_version: SpecVersion::V2,
        prereqs,
    }
}

/// The entries of a map, as a list of dependencies gives them.
fn listed(map: VersionMap) -> Vec<Dependency> {
    let runtime = Phase { requires: map, ..Phase::default() };
    Dependencies::from_meta(&meta(Prereqs { runtime, ..Prereqs::default() })).runtime.requires
}

#[test]
fn pure_perl_arg_is_the_configure_step_flag_for_each_tool() {
    assert_eq!(BuildTool::Eumm.pure_perl_arg(), "PUREPERL_ONLY=1");
    assert_eq!(BuildTool::ModuleBuild.pure_perl_arg(), "--pureperl-only");
}

#[test]
fn configure_script_of_each_tool() {
    assert_eq!(BuildTool::Eumm.configure_script(), "Makefile.PL");
    assert_eq!(BuildTool::ModuleBuild.configure_script(), "Build.PL");
}

#[test]
fn module_build_is_the_default_tool() {
    assert_eq!(BuildTool::default(), BuildTool::ModuleBuild);
}

#[test]
fn the_module_assumed_for_a_tool_provides_that_tool_only() {
    assert_eq!(BuildTool::Eumm.fallback_module(), "ExtUtils::MakeMaker");
    assert_eq!(BuildTool::ModuleBuild.fallback_module(), "Module::Build");
    assert!(BuildTool::Eumm.is_provided_by("ExtUtils::MakeMaker"));
    assert!(!BuildTool::ModuleBuild.is_provided_by("ExtUtils::MakeMaker"));
    assert!(BuildTool::ModuleBuild.is_provided_by("Module::Build"));
    assert!(!BuildTool::Eumm.is_provided_by("Module::Build"));
}

#[test]
fn defaults_are_empty() {
    assert!(VersionMap::default().entries().is_empty());
    let prereqs = Prereqs::default();
    for phase in
        [&prereqs.configure, &prereqs.build, &prereqs.test, &prereqs.runtime, &prereqs.develop]
    {
        assert!(phase.requires.entries().is_empty());
        assert!(phase.recommends.entries().is_empty());
        assert!(phase.suggests.entries().is_empty());
        assert!(phase.conflicts.entries().is_empty());
    }
    let deps = Dependencies::default();
    for phase in [&deps.configure, &deps.build, &deps.test, &deps.runtime, &deps.develop] {
        assert!(phase.requires.is_empty());
        assert!(phase.recommends.is_empty());
        assert!(phase.suggests.is_empty());
        assert!(phase.conflicts.is_empty());
    }
}

#[test]
fn an_empty_map_lists_nothing() {
    assert_eq!(listed(VersionMap::new()), vec![]);
    assert_eq!(VersionMap::default(), VersionMap::new());
}

#[test]
fn lists_are_sorted_whatever_the_order_of_insertion() {
    let sorted = vec![
        dep("Carp", "0"),
        dep("Test", "3"),
        dep("Test::More", "1"),
        dep("TestX", "2"),
        dep("perl", "5.010"),
        dep("\u{e9}", "4"),
    ];
    let forwards: Vec<(&str, &str)> =
        sorted.iter().map(|d| (d.module.as_str(), d.version.as_str())).collect();
    let mut backwards = forwards.clone();
    backwards.reverse();
    assert_eq!(listed(versions(&forwards)), sorted);
    assert_eq!(listed(versions(&backwards)), sorted);
    assert_eq!(versions(&forwards), versions(&backwards));
}

#[test]
fn inserting_again_replaces_the_version() {
    let map = versions(&[("B", "1"), ("A", "2"), ("C", "3"), ("B", ">= 4")]);
    assert_eq!(listed(map), vec![dep("A", "2"), dep("B", ">= 4"), dep("C", "3")]);
}

#[test]
fn every_group_lands_where_it_belongs() {
    fn phase(name: &str) -> Phase {
        Phase {
            requires: versions(&[(name, "requires")]),
            recommends: versions(&[(name, "recommends")]),
            suggests: versions(&[(name, "suggests")]),
            conflicts: versions(&[(name, "conflicts")]),
        }
    }
    let deps = Dependencies::from_meta(&meta(Prereqs {
        configure: phase("configure"),
        build: phase("build"),
        test: phase("test"),
        runtime: phase("runtime"),
        develop: phase("develop"),
    }));
    let phases = [
        ("configure", &deps.configure),
        ("build", &deps.build),
        ("test", &deps.test),
        ("runtime", &deps.runtime),
        ("develop", &deps.develop),
    ];
    for (name, phase) in phases {
        assert_eq!(phase.requires, vec![dep(name, "requires")]);
        assert_eq!(phase.recommends, vec![dep(name, "recommends")]);
        assert_eq!(phase.suggests, vec![dep(name, "suggests")]);
        assert_eq!(phase.conflicts, vec![dep(name, "conflicts")]);
    }
    assert_eq!(deps.clone(), deps);
}

#[test]
fn no_metadata_no_dependencies() {
    assert_eq!(Dependencies::from_meta(&meta(Prereqs::default())), Dependencies::default());
}

#[test]
fn a_search_without_candidates_is_over() {
    assert_eq!(read_meta(vec![]), Step::Finished(Ok(None)));
}

#[test]
fn a_search_takes_the_first_candidate_that_is_there() {
    let root = OsText::new("/work");
    let Step::Pending(search) = read_meta(vec!["a", "b", "c"]) else {
        panic!("the search is over");
    };
    assert_eq!(search.request(&root), Request::IsFile { root: &root, name: "a" });
    let Step::Pending(search) = search.advance(&OsText::new("/work"), Reply::IsFile(false)) else {
        panic!("the search is over");
    };
    assert_eq!(search.request(&root), Request::IsFile { root: &root, name: "b" });
    let Step::Pending(search) = search.advance(&OsText::new("/work"), Reply::IsFile(true)) else {
        panic!("the search is over");
    };
    assert_eq!(search.request(&root), Request::ParseMeta { root: &root, name: "b" });
    let found = meta(Prereqs::default());
    assert_eq!(
        search.advance(&OsText::new("/work"), Reply::Parsed(Ok(found.clone()))),
        Step::Finished(Ok(Some(found)))
    );
}

#[test]
fn a_search_that_finds_nothing_ends_with_nothing() {
    let Step::Pending(search) = read_meta(vec!["a"]) else {
        panic!("the search is over");
    };
    assert_eq!(search.advance(&OsText::new("/work"), Reply::IsFile(false)), Step::Finished(Ok(None)));
}

#[test]
fn a_search_ends_with_a_file_that_cannot_be_parsed() {
    let Step::Pending(search) = read_meta(vec!["a", "b"]) else {
        panic!("the search is over");
    };
    let Step::Pending(search) = search.advance(&OsText::new("/work"), Reply::IsFile(true)) else {
        panic!("the search is over");
    };
    assert_eq!(
        search.advance(&OsText::new("/work"), Reply::Parsed(Err("no JSON".to_string()))),
        Step::Finished(Err(BuildError::Unparsed(ParseFailure {
            root: OsText::new("/work"),
            name: "a",
            cause: "no JSON".to_string(),
        })))
    );
}

#[test]
fn text_is_shown_as_it_was_given() {
    for text in ["", "/work/Foo-Bar-1.23", "/h\u{f6}me/\u{65e5}\u{672c}/\u{1f42a}"] {
        assert_eq!(OsText::new(text).bytes, text.as_bytes());
        assert_eq!(OsText::new(text).display(false), text);
        assert_eq!(OsText::new(text).display(true), text);
    }
}

#[test]
fn what_is_not_utf_8_is_replaced() {
    assert_eq!(OsText { bytes: vec![0xff, b'a', 0xe6, 0x97] }.display(false), "\u{fffd}a\u{fffd}");
}

#[test]
fn a_lone_surrogate_counts_as_one_character_on_windows_only() {
    let text = OsText { bytes: vec![b'a', 0xed, 0xa0, 0x80, 0xed, 0xbf, 0xbf, b'b', 0xed, 0xa0] };
    assert_eq!(text.display(true), "a\u{fffd}\u{fffd}b\u{fffd}\u{fffd}");
    assert_eq!(
        text.display(false),
        "a\u{fffd}\u{fffd}\u{fffd}\u{fffd}\u{fffd}\u{fffd}b\u{fffd}\u{fffd}"
    );
    // U+D7FF is the last character before the surrogates.
    assert_eq!(OsText::new("\u{d7ff}").display(true), "\u{d7ff}");
}

#[test]
fn the_entries_of_a_map_can_be_read() {
    let map = versions(&[("perl", "5.010"), ("Carp", "0")]);
    assert_eq!(*map.entries(), vec![dep("Carp", "0"), dep("perl", "5.010")]);
}
