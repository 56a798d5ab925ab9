//! Distributions in a simulated directory, from opening to cleaning up.

use cpan_distribution_build::{
    BuildError, BuildTool, Building, Dependencies, Dependency, Distribution, ExecuteResult, Meta,
    OsText, ParseFailure, Perl, Phase, Prereqs, Reply, Request, SpecVersion, Step, VersionMap,
};

/// What a file of the simulated directory holds.
enum Content {
    /// Something that is never parsed.
    Text,
    /// Well-formed metadata.
    Metadata(Meta),
    /// Metadata that cannot be parsed.
    Malformed,
}

/// A command line, and the outcome of running it: the files that it writes, and how it
/// ended.
type Script = fn(&str) -> (Vec<(&'static str, Content)>, Result<ExecuteResult, String>);

/// A directory that holds a distribution.
struct Directory {
    files: Vec<(&'static str, Content)>,
    script: Script,
    commands: Vec<String>,
}

const ROOT: &str = "/work/Foo-Bar-1.23";

fn root() -> OsText {
    OsText::new(ROOT)
}

/// A `Perl` wrapper for the simulated runs.
fn test_perl() -> Perl {
    Perl::with_perl(OsText::new("perl"))
}

fn exited(code: i32) -> Result<ExecuteResult, String> {
    Ok(ExecuteResult { is_success: code == 0, code: Some(code) })
}

fn succeeds(_: &str) -> (Vec<(&'static str, Content)>, Result<ExecuteResult, String>) {
    (vec![], exited(0))
}

fn fails(_: &str) -> (Vec<(&'static str, Content)>, Result<ExecuteResult, String>) {
    (vec![], exited(1))
}

fn cannot_start(command: &str) -> (Vec<(&'static str, Content)>, Result<ExecuteResult, String>) {
    (vec![], Err(format!("cannot start {command}")))
}

fn dist_with(files: Vec<(&'static str, Content)>) -> Directory {
    Directory { files, script: succeeds, commands: vec![] }
}

impl Directory {
    fn running(mut self, script: Script) -> Directory {
        self.script = script;
        self
    }

    fn remove(&mut self, name: &str) {
        self.files.retain(|(file, _)| *file != name);
    }

    fn run(&mut self, perl: &Perl, command: String) -> Reply {
        assert_eq!(perl.current_dir, Some(root()));
        let (written, result) = (self.script)(&command);
        self.files.extend(written);
        self.commands.push(command);
        Reply::Ran(result)
    }

    /// What comes of a request.
    fn answer(&mut self, request: Request<'_>) -> Reply {
        match request {
            Request::IsFile { root: dir, name } => {
                assert_eq!(*dir, root());
                Reply::IsFile(self.files.iter().any(|(file, _)| *file == name))
            }
            Request::ParseMeta { root: dir, name } => {
                assert_eq!(*dir, root());
                match self.files.iter().find(|(file, _)| *file == name) {
                    Some((_, Content::Metadata(meta))) => Reply::Parsed(Ok(meta.clone())),
                    _ => Reply::Parsed(Err("malformed".to_string())),
                }
            }
            Request::RunPerl { perl, args } => {
                let command = format!("perl {}", args.join(" "));
                self.run(perl, command)
            }
            Request::RunMake { perl, target } => {
                let command = match target {
                    Some(target) => format!("make {target}"),
                    None => "make".to_string(),
                };
                self.run(perl, command)
            }
        }
    }

    fn open_with(&mut self, prefer: BuildTool) -> Result<Distribution, BuildError> {
        self.finish_opening(Distribution::with_preference(root(), test_perl(), prefer))
    }

    fn open(&mut self) -> Result<Distribution, BuildError> {
        self.finish_opening(Distribution::new(root(), test_perl()))
    }

    fn finish_opening(
        &mut self,
        mut opening: cpan_distribution_build::Opening,
    ) -> Result<Distribution, BuildError> {
        loop {
            let reply = self.answer(opening.request());
            match opening.advance(reply) {
                Step::Pending(next) => opening = next,
                Step::Finished(result) => return result,
            }
        }
    }

    fn configure(
        &mut self,
        dist: &mut Distribution,
    ) -> Result<(ExecuteResult, Dependencies), BuildError> {
        let mut at = dist.execute_configure();
        loop {
            let reply = self.answer(dist.configure_request(&at));
            match dist.configure_advance(at, reply) {
                Step::Pending(next) => at = next,
                Step::Finished(result) => return result,
            }
        }
    }

    fn read_mymeta(&mut self, dist: &mut Distribution) -> Result<Meta, BuildError> {
        let mut search = dist.read_mymeta();
        loop {
            let reply = self.answer(dist.mymeta_request(&search));
            match dist.mymeta_advance(search, reply) {
                Step::Pending(next) => search = next,
                Step::Finished(result) => return result.map(|meta| meta.clone()),
            }
        }
    }

    fn run_step(
        &mut self,
        dist: &Distribution,
        mut at: Building,
    ) -> Result<ExecuteResult, BuildError> {
        loop {
            let reply = self.answer(dist.build_request(&at));
            match dist.build_advance(at, reply) {
                Step::Pending(next) => at = next,
                Step::Finished(result) => return result,
            }
        }
    }
}

fn versions(entries: &[(&str, &str)]) -> VersionMap {
    let mut map = VersionMap::new();
    for (module, version) in entries {
        map.insert(module.to_string(), version.to_string());
    }
    map
}

fn required(entries: &[(&str, &str)]) -> Phase {
    Phase { requires: versions(entries), ..Phase::default() }
}

fn meta(spec_version: SpecVersion, prereqs: Prereqs) -> Meta {
    Meta { name: "Foo-Bar".to_string(), version: "1.23".to_string(), spec_version, prereqs }
}

fn meta_json() -> Content {
    Content::Metadata(meta(
        SpecVersion::V2,
        Prereqs { runtime: required(&[("perl", "5.010")]), ..Prereqs::default() },
    ))
}

fn meta_yml() -> Content {
    Content::Metadata(meta(
        SpecVersion::V1_4,
        Prereqs { runtime: required(&[("perl", "5.006")]), ..Prereqs::default() },
    ))
}

fn meta_multi_phase() -> Content {
    Content::Metadata(meta(
        SpecVersion::V2,
        Prereqs {
            configure: required(&[("ExtUtils::MakeMaker", "0")]),
            runtime: Phase {
                requires: versions(&[("perl", "5.010"), ("Carp", "0")]),
                recommends: versions(&[("JSON::XS", "3.0")]),
                ..Phase::default()
            },
            test: required(&[("Test::More", "0.88")]),
            ..Prereqs::default()
        },
    ))
}

fn mymeta_json() -> Content {
    Content::Metadata(meta(
        SpecVersion::V2,
        Prereqs { runtime: required(&[("Moo", "2.0")]), ..Prereqs::default() },
    ))
}

/// Metadata with the given `configure` requirements.
fn meta_with_configure(entries: &[(&str, &str)]) -> Content {
    Content::Metadata(meta(
        SpecVersion::V2,
        Prereqs { configure: required(entries), ..Prereqs::default() },
    ))
}

fn dep(module: &str, version: &str) -> Dependency {
    Dependency { module: module.into(), version: version.into() }
}

fn text() -> Content {
    Content::Text
}

#[test]
fn reads_meta_json_immediately() {
    let mut dir = dist_with(vec![("META.json", meta_json()), ("Build.PL", text())]);
    let dist = dir.open().unwrap();
    assert_eq!(dist.distribution_meta.name, "Foo-Bar");
    assert_eq!(dist.distribution_meta.version, "1.23");
    assert!(dist.distribution_mymeta.is_none());
}

#[test]
fn construction_points_perl_at_the_distribution_root() {
    let mut dir = dist_with(vec![("META.json", meta_json()), ("Build.PL", text())]);
    let dist = dir.open().unwrap();
    assert_eq!(dist.perl.current_dir, Some(root()));
}

#[test]
fn prefers_meta_json_over_meta_yml() {
    // The YAML file carries a different spec version; if it were the one
    // parsed, `spec_version` would not be V2.
    let mut dir = dist_with(vec![
        ("META.json", meta_json()),
        ("META.yml", meta_yml()),
        ("Build.PL", text()),
    ]);
    let dist = dir.open().unwrap();
    assert_eq!(dist.distribution_meta.spec_version, SpecVersion::V2);
}

#[test]
fn falls_back_to_meta_yml() {
    let mut dir = dist_with(vec![("META.yml", meta_yml()), ("Makefile.PL", text())]);
    let dist = dir.open().unwrap();
    assert_eq!(dist.distribution_meta.name, "Foo-Bar");
    assert_eq!(dist.distribution_meta.spec_version, SpecVersion::V1_4);
}

#[test]
fn errors_when_no_meta_present() {
    let mut dir = dist_with(vec![("Build.PL", text())]);
    let err = dir.open().unwrap_err();
    assert!(err.message(false).contains("no META.json or META.yml"));
}

#[test]
fn errors_when_no_configure_script() {
    let mut dir = dist_with(vec![("META.json", meta_json())]);
    let err = dir.open().unwrap_err();
    assert!(err.message(false).contains("no Build.PL or Makefile.PL"));
}

#[test]
fn defaults_to_module_build_when_both_scripts_present() {
    let mut dir = dist_with(vec![
        ("META.json", meta_json()),
        ("Build.PL", text()),
        ("Makefile.PL", text()),
    ]);
    let dist = dir.open().unwrap();
    assert_eq!(dist.build_tool, BuildTool::ModuleBuild);
}

#[test]
fn preference_selects_eumm_when_both_scripts_present() {
    let mut dir = dist_with(vec![
        ("META.json", meta_json()),
        ("Build.PL", text()),
        ("Makefile.PL", text()),
    ]);
    let dist = dir.open_with(BuildTool::Eumm).unwrap();
    assert_eq!(dist.build_tool, BuildTool::Eumm);
}

#[test]
fn single_script_wins_over_preference() {
    let mut dir = dist_with(vec![("META.json", meta_json()), ("Makefile.PL", text())]);
    let dist = dir.open_with(BuildTool::ModuleBuild).unwrap();
    assert_eq!(dist.build_tool, BuildTool::Eumm);

    let mut dir = dist_with(vec![("META.json", meta_json()), ("Build.PL", text())]);
    let dist = dir.open_with(BuildTool::Eumm).unwrap();
    assert_eq!(dist.build_tool, BuildTool::ModuleBuild);
}

#[test]
fn pre_configure_lists_configure_requires_without_perl_and_adds_tool() {
    let meta = meta_with_configure(&[("File::Which", "1.09"), ("perl", "5.010")]);
    let mut dir = dist_with(vec![("META.json", meta), ("Build.PL", text())]);
    let dist = dir.open().unwrap();

    let deps = dist.execute_pre_configure();
    assert_eq!(
        deps,
        vec![
            Dependency { module: "File::Which".into(), version: "1.09".into() },
            Dependency { module: "Module::Build".into(), version: "0".into() },
        ]
    );
}

#[test]
fn pre_configure_keeps_named_mb_implementation() {
    let meta = meta_with_configure(&[("Module::Build::Tiny", "0.034")]);
    let mut dir = dist_with(vec![("META.json", meta), ("Build.PL", text())]);
    let dist = dir.open().unwrap();

    let deps = dist.execute_pre_configure();
    assert_eq!(
        deps,
        vec![Dependency { module: "Module::Build::Tiny".into(), version: "0.034".into() }]
    );
}

#[test]
fn pre_configure_adds_eumm_for_makefile_pl() {
    let mut dir = dist_with(vec![("META.json", meta_json()), ("Makefile.PL", text())]);
    let dist = dir.open().unwrap();

    let deps = dist.execute_pre_configure();
    assert_eq!(
        deps,
        vec![Dependency { module: "ExtUtils::MakeMaker".into(), version: "0".into() }]
    );
}

#[test]
fn pre_configure_takes_any_name_that_begins_like_module_build_for_a_provider() {
    let meta = meta_with_configure(&[("Module::BuildPrime", "1")]);
    let mut dir = dist_with(vec![("META.json", meta), ("Build.PL", text())]);
    let dist = dir.open().unwrap();
    assert_eq!(dist.execute_pre_configure(), vec![dep("Module::BuildPrime", "1")]);
}

#[test]
fn pre_configure_takes_only_makemaker_itself_for_a_provider_of_eumm() {
    let meta = meta_with_configure(&[
        ("Module::Build", "0.42"),
        ("ExtUtils::MakeMaker::CPANfile", "0.09"),
        ("perl", "5.008001"),
    ]);
    let mut dir = dist_with(vec![("META.json", meta), ("Makefile.PL", text())]);
    let dist = dir.open().unwrap();
    assert_eq!(
        dist.execute_pre_configure(),
        vec![
            dep("ExtUtils::MakeMaker", "0"),
            dep("ExtUtils::MakeMaker::CPANfile", "0.09"),
            dep("Module::Build", "0.42"),
        ]
    );

    let meta = meta_with_configure(&[("ExtUtils::MakeMaker", "6.58"), ("Alpha", "3")]);
    let mut dir = dist_with(vec![("META.json", meta), ("Makefile.PL", text())]);
    let dist = dir.open().unwrap();
    assert_eq!(
        dist.execute_pre_configure(),
        vec![dep("Alpha", "3"), dep("ExtUtils::MakeMaker", "6.58")]
    );
}

#[test]
fn pre_configure_does_not_take_the_module_of_one_tool_for_the_other() {
    let meta = meta_with_configure(&[("ExtUtils::MakeMaker", "6.58")]);
    let mut dir = dist_with(vec![("META.json", meta), ("Build.PL", text())]);
    let dist = dir.open().unwrap();
    assert_eq!(
        dist.execute_pre_configure(),
        vec![dep("ExtUtils::MakeMaker", "6.58"), dep("Module::Build", "0")]
    );

    let meta = meta_with_configure(&[("Module::Build", "0.42")]);
    let mut dir = dist_with(vec![("META.json", meta), ("Makefile.PL", text())]);
    let dist = dir.open().unwrap();
    assert_eq!(
        dist.execute_pre_configure(),
        vec![dep("ExtUtils::MakeMaker", "0"), dep("Module::Build", "0.42")]
    );
}

#[test]
fn dependencies_from_meta_group_by_phase_and_relationship() {
    let mut dir = dist_with(vec![("META.json", meta_multi_phase()), ("Makefile.PL", text())]);
    let dist = dir.open().unwrap();

    let deps = Dependencies::from_meta(&dist.distribution_meta);
    // Sorted by module name; `perl` is kept (this is the full picture).
    assert_eq!(deps.runtime.requires, vec![dep("Carp", "0"), dep("perl", "5.010")]);
    assert_eq!(deps.runtime.recommends, vec![dep("JSON::XS", "3.0")]);
    assert_eq!(deps.test.requires, vec![dep("Test::More", "0.88")]);
    assert_eq!(deps.configure.requires, vec![dep("ExtUtils::MakeMaker", "0")]);
    assert!(deps.build.requires.is_empty());
    assert!(deps.develop.requires.is_empty());
    assert!(deps.runtime.suggests.is_empty());
}

#[test]
fn execute_configure_populates_mymeta_and_returns_its_deps() {
    // Build.PL writes a MYMETA.json with prereqs that differ from META.json.
    let mut dir = dist_with(vec![("META.json", meta_json()), ("Build.PL", text())])
        .running(|_| (vec![("MYMETA.json", mymeta_json())], exited(0)));
    let mut dist = dir.open().unwrap();
    assert_eq!(dist.build_tool, BuildTool::ModuleBuild);

    let (result, deps) = dir.configure(&mut dist).unwrap();
    assert!(result.is_success);
    assert_eq!(dist.distribution_mymeta.as_ref().unwrap().name, "Foo-Bar");
    assert_eq!(deps.runtime.requires, vec![dep("Moo", "2.0")]);
}

#[test]
fn execute_configure_without_mymeta_falls_back_to_distribution_meta() {
    let mut dir = dist_with(vec![("META.json", meta_multi_phase()), ("Makefile.PL", text())]);
    let mut dist = dir.open().unwrap();

    let (result, deps) = dir.configure(&mut dist).unwrap();
    assert!(result.is_success);
    assert!(dist.distribution_mymeta.is_none());
    assert_eq!(deps.test.requires, vec![dep("Test::More", "0.88")]);
}

#[test]
fn execute_configure_reports_script_failure_in_result() {
    let mut dir = dist_with(vec![("META.json", meta_json()), ("Makefile.PL", text())])
        .running(|_| (vec![], exited(255)));
    let mut dist = dir.open().unwrap();

    // A failing script is not an error; it is reported in the result, and
    // dependencies fall back to distribution_meta.
    let (result, deps) = dir.configure(&mut dist).unwrap();
    assert!(!result.is_success);
    assert_eq!(result.code, Some(255));
    assert!(dist.distribution_mymeta.is_none());
    assert_eq!(deps.runtime.requires, vec![dep("perl", "5.010")]);
}

#[test]
fn with_pure_perl_toggles_the_flag_off_by_default() {
    let mut dir = dist_with(vec![("META.json", meta_json()), ("Build.PL", text())]);
    let dist = dir.open().unwrap();
    assert!(!dist.pure_perl);
    assert!(dist.clone().with_pure_perl(true).pure_perl);
    assert!(!dist.with_pure_perl(true).with_pure_perl(false).pure_perl);
}

#[test]
fn execute_configure_passes_pureperl_only_to_makefile_pl() {
    let mut dir = dist_with(vec![("META.json", meta_json()), ("Makefile.PL", text())]);
    let mut dist = dir.open().unwrap().with_pure_perl(true);
    assert_eq!(dist.build_tool, BuildTool::Eumm);

    assert!(dir.configure(&mut dist).unwrap().0.is_success);
    assert_eq!(dir.commands, vec!["perl Makefile.PL PUREPERL_ONLY=1"]);
}

#[test]
fn execute_configure_passes_pureperl_only_to_build_pl() {
    let mut dir = dist_with(vec![("META.json", meta_json()), ("Build.PL", text())]);
    let mut dist = dir.open().unwrap().with_pure_perl(true);
    assert_eq!(dist.build_tool, BuildTool::ModuleBuild);

    assert!(dir.configure(&mut dist).unwrap().0.is_success);
    assert_eq!(dir.commands, vec!["perl Build.PL --pureperl-only"]);
}

#[test]
fn execute_configure_passes_no_extra_args_by_default() {
    let mut dir = dist_with(vec![("META.json", meta_json()), ("Build.PL", text())]);
    let mut dist = dir.open().unwrap();

    assert!(dir.configure(&mut dist).unwrap().0.is_success);
    assert_eq!(dir.commands, vec!["perl Build.PL"]);
}

#[test]
fn execute_build_errors_before_configure() {
    let mut dir = dist_with(vec![("META.json", meta_json()), ("Build.PL", text())]);
    let dist = dir.open().unwrap();
    assert_eq!(dist.build_tool, BuildTool::ModuleBuild);
    let err = dir.run_step(&dist, dist.execute_build()).unwrap_err();
    assert!(err.message(false).contains("Build not found"));
    assert!(dir.commands.is_empty());

    let mut dir = dist_with(vec![("META.json", meta_json()), ("Makefile.PL", text())]);
    let dist = dir.open().unwrap();
    assert_eq!(dist.build_tool, BuildTool::Eumm);
    let err = dir.run_step(&dist, dist.execute_build()).unwrap_err();
    assert!(err.message(false).contains("Makefile not found"));
    assert!(dir.commands.is_empty());
}

/// A directory of a distribution that was configured with `Build.PL`.
fn with_build(script: Script) -> Directory {
    dist_with(vec![("META.json", meta_json()), ("Build.PL", text()), ("Build", text())])
        .running(script)
}

/// A directory of a distribution that was configured with `Makefile.PL`.
fn with_makefile(script: Script) -> Directory {
    dist_with(vec![("META.json", meta_json()), ("Makefile.PL", text()), ("Makefile", text())])
        .running(script)
}

#[test]
fn execute_build_runs_perl_build_for_module_build() {
    let mut dir = with_build(succeeds);
    let dist = dir.open().unwrap();
    assert_eq!(dist.build_tool, BuildTool::ModuleBuild);

    let result = dir.run_step(&dist, dist.execute_build()).unwrap();
    assert!(result.is_success);
    assert_eq!(result.code, Some(0));
    assert_eq!(dir.commands, vec!["perl Build"]);
}

#[test]
fn execute_build_runs_make_for_eumm() {
    let mut dir = with_makefile(succeeds);
    let dist = dir.open().unwrap();
    assert_eq!(dist.build_tool, BuildTool::Eumm);

    let result = dir.run_step(&dist, dist.execute_build()).unwrap();
    assert!(result.is_success);
    assert_eq!(dir.commands, vec!["make"]);
}

#[test]
fn execute_test_passes_the_test_target_for_module_build() {
    // `perl Build test` -> ok; `perl Build` -> fails.
    let mut dir = with_build(|command| (vec![], exited(i32::from(command != "perl Build test"))));
    let dist = dir.open().unwrap();
    assert_eq!(dist.build_tool, BuildTool::ModuleBuild);

    assert!(dir.run_step(&dist, dist.execute_test()).unwrap().is_success);
    assert!(!dir.run_step(&dist, dist.execute_build()).unwrap().is_success);
}

#[test]
fn execute_test_runs_make_test_for_eumm() {
    // `make` (default target) fails; `make test` succeeds.
    let mut dir = with_makefile(|command| (vec![], exited(i32::from(command != "make test"))));
    let dist = dir.open().unwrap();
    assert_eq!(dist.build_tool, BuildTool::Eumm);

    assert!(dir.run_step(&dist, dist.execute_test()).unwrap().is_success);
    assert!(!dir.run_step(&dist, dist.execute_build()).unwrap().is_success);
}

#[test]
fn execute_install_passes_the_install_target_for_module_build() {
    let mut dir =
        with_build(|command| (vec![], exited(i32::from(command != "perl Build install"))));
    let dist = dir.open().unwrap();
    assert_eq!(dist.build_tool, BuildTool::ModuleBuild);

    assert!(dir.run_step(&dist, dist.execute_install()).unwrap().is_success);
    assert!(!dir.run_step(&dist, dist.execute_build()).unwrap().is_success);
}

#[test]
fn execute_install_runs_make_install_for_eumm() {
    let mut dir = with_makefile(|command| (vec![], exited(i32::from(command != "make install"))));
    let dist = dir.open().unwrap();
    assert_eq!(dist.build_tool, BuildTool::Eumm);

    assert!(dir.run_step(&dist, dist.execute_install()).unwrap().is_success);
}

#[test]
fn execute_clean_passes_the_clean_target_for_module_build() {
    let mut dir = with_build(|command| (vec![], exited(i32::from(command != "perl Build clean"))));
    let dist = dir.open().unwrap();
    assert_eq!(dist.build_tool, BuildTool::ModuleBuild);

    assert!(dir.run_step(&dist, dist.execute_clean()).unwrap().is_success);
    assert!(!dir.run_step(&dist, dist.execute_build()).unwrap().is_success);
}

#[test]
fn execute_clean_runs_make_clean_for_eumm() {
    let mut dir = with_makefile(|command| (vec![], exited(i32::from(command != "make clean"))));
    let dist = dir.open().unwrap();
    assert_eq!(dist.build_tool, BuildTool::Eumm);

    assert!(dir.run_step(&dist, dist.execute_clean()).unwrap().is_success);
    assert!(!dir.run_step(&dist, dist.execute_build()).unwrap().is_success);
}

#[test]
fn execute_clean_errors_before_configure() {
    let mut dir = dist_with(vec![("META.json", meta_json()), ("Build.PL", text())]);
    let dist = dir.open().unwrap();
    let err = dir.run_step(&dist, dist.execute_clean()).unwrap_err();
    assert!(err.message(false).contains("Build not found"));
}

#[test]
fn execute_distclean_passes_the_distclean_target_for_module_build() {
    let mut dir =
        with_build(|command| (vec![], exited(i32::from(command != "perl Build distclean"))));
    let dist = dir.open().unwrap();
    assert_eq!(dist.build_tool, BuildTool::ModuleBuild);

    assert!(dir.run_step(&dist, dist.execute_distclean()).unwrap().is_success);
    assert!(!dir.run_step(&dist, dist.execute_build()).unwrap().is_success);
}

#[test]
fn execute_distclean_runs_make_distclean_for_eumm() {
    let mut dir = with_makefile(|command| (vec![], exited(i32::from(command != "make distclean"))));
    let dist = dir.open().unwrap();
    assert_eq!(dist.build_tool, BuildTool::Eumm);

    assert!(dir.run_step(&dist, dist.execute_distclean()).unwrap().is_success);
    assert!(!dir.run_step(&dist, dist.execute_build()).unwrap().is_success);
}

#[test]
fn execute_distclean_errors_before_configure() {
    let mut dir = dist_with(vec![("META.json", meta_json()), ("Build.PL", text())]);
    let dist = dir.open().unwrap();
    let err = dir.run_step(&dist, dist.execute_distclean()).unwrap_err();
    assert!(err.message(false).contains("Build not found"));
}

#[test]
fn read_mymeta_populates_field() {
    let mut dir = dist_with(vec![
        ("META.json", meta_json()),
        ("MYMETA.json", meta_json()),
        ("Build.PL", text()),
    ]);
    let mut dist = dir.open().unwrap();
    assert!(dist.distribution_mymeta.is_none());

    dir.read_mymeta(&mut dist).unwrap();
    assert_eq!(dist.distribution_mymeta.as_ref().unwrap().name, "Foo-Bar");
}

#[test]
fn read_mymeta_errors_when_absent() {
    let mut dir = dist_with(vec![("META.json", meta_json()), ("Build.PL", text())]);
    let mut dist = dir.open().unwrap();
    let err = dir.read_mymeta(&mut dist).unwrap_err();
    assert!(err.message(false).contains("no MYMETA.json or MYMETA.yml"));
}

#[test]
fn read_mymeta_returns_what_it_stores() {
    let mut dir = dist_with(vec![
        ("META.json", meta_json()),
        ("MYMETA.yml", meta_yml()),
        ("Build.PL", text()),
    ]);
    let mut dist = dir.open().unwrap();
    let stored = dir.read_mymeta(&mut dist).unwrap();
    assert_eq!(stored.spec_version, SpecVersion::V1_4);
    assert_eq!(dist.distribution_mymeta.as_ref(), Some(&stored));

    // With a MYMETA.json beside it, the MYMETA.yml no longer counts.
    dir.files.push(("MYMETA.json", mymeta_json()));
    let stored = dir.read_mymeta(&mut dist).unwrap();
    assert_eq!(stored.spec_version, SpecVersion::V2);
    assert_eq!(dist.distribution_mymeta.as_ref(), Some(&stored));
}

#[test]
fn malformed_meta_json_is_an_error_even_with_a_meta_yml() {
    let mut dir = dist_with(vec![
        ("META.json", Content::Malformed),
        ("META.yml", meta_yml()),
        ("Build.PL", text()),
    ]);
    let err = dir.open().unwrap_err();
    assert_eq!(err.message(false), "failed to parse /work/Foo-Bar-1.23/META.json");
    assert_eq!(
        err,
        BuildError::Unparsed(ParseFailure {
            root: root(),
            name: "META.json",
            cause: "malformed".to_string(),
        })
    );
}

#[test]
fn malformed_mymeta_is_an_error_and_changes_nothing() {
    let mut dir = dist_with(vec![("META.json", meta_json()), ("Build.PL", text())])
        .running(|_| (vec![("MYMETA.yml", Content::Malformed)], exited(0)));
    let mut dist = dir.open().unwrap();
    let before = dist.clone();

    let err = dir.configure(&mut dist).unwrap_err();
    assert_eq!(err.message(false), "failed to parse /work/Foo-Bar-1.23/MYMETA.yml");
    assert_eq!(dist, before);

    let err = dir.read_mymeta(&mut dist).unwrap_err();
    assert_eq!(err.message(false), "failed to parse /work/Foo-Bar-1.23/MYMETA.yml");
    assert_eq!(dist, before);
}

#[test]
fn configure_without_its_script_is_an_error_and_runs_nothing() {
    let mut dir = dist_with(vec![("META.json", meta_json()), ("Makefile.PL", text())]);
    let mut dist = dir.open().unwrap();
    dir.remove("Makefile.PL");
    let err = dir.configure(&mut dist).unwrap_err();
    assert_eq!(err, BuildError::ScriptNotFound { tool: BuildTool::Eumm, root: root() });
    assert_eq!(err.message(false), "Makefile.PL not found in /work/Foo-Bar-1.23");
    assert!(dir.commands.is_empty());
}

#[test]
fn a_perl_or_make_that_cannot_start_is_an_error() {
    let mut dir = dist_with(vec![("META.json", meta_json()), ("Build.PL", text())])
        .running(cannot_start);
    let mut dist = dir.open().unwrap();
    let err = dir.configure(&mut dist).unwrap_err();
    assert_eq!(err, BuildError::NotRun { cause: "cannot start perl Build.PL".to_string() });
    assert_eq!(err.message(false), "cannot start perl Build.PL");

    let mut dir = with_makefile(cannot_start);
    let dist = dir.open().unwrap();
    let err = dir.run_step(&dist, dist.execute_test()).unwrap_err();
    assert_eq!(err.message(false), "cannot start make test");
}

#[test]
fn dependencies_never_come_from_an_earlier_configure_step() {
    let mut dir = dist_with(vec![("META.json", meta_json()), ("Build.PL", text())])
        .running(|_| (vec![("MYMETA.json", mymeta_json())], exited(0)));
    let mut dist = dir.open().unwrap();
    let (_, deps) = dir.configure(&mut dist).unwrap();
    assert_eq!(deps.runtime.requires, vec![dep("Moo", "2.0")]);
    let earlier = dist.distribution_mymeta.clone();

    // This time the step leaves no MYMETA file behind.
    dir.remove("MYMETA.json");
    dir.script = fails;
    let (result, deps) = dir.configure(&mut dist).unwrap();
    assert!(!result.is_success);
    assert_eq!(deps.runtime.requires, vec![dep("perl", "5.010")]);
    assert_eq!(dist.distribution_mymeta, earlier);
}

#[test]
fn configure_changes_nothing_but_the_generated_metadata() {
    let mut dir = dist_with(vec![("META.json", meta_json()), ("Build.PL", text())])
        .running(|_| (vec![("MYMETA.json", mymeta_json())], exited(0)));
    let mut dist = dir.open().unwrap().with_pure_perl(true);
    let mut before = dist.clone();
    dir.configure(&mut dist).unwrap();
    assert!(dist != before);
    before.distribution_mymeta = dist.distribution_mymeta.clone();
    assert_eq!(dist, before);
}

#[test]
fn lifecycle_of_a_makefile_pl_distribution() {
    let mut dir = dist_with(vec![("META.json", meta_json()), ("Makefile.PL", text())])
        .running(|_| (vec![("Makefile", text())], exited(0)));
    let mut dist = dir.open().unwrap().with_pure_perl(true);
    dir.configure(&mut dist).unwrap();
    for step in [
        dist.execute_build(),
        dist.execute_test(),
        dist.execute_install(),
        dist.execute_clean(),
        dist.execute_distclean(),
    ] {
        assert!(dir.run_step(&dist, step).unwrap().is_success);
    }
    assert_eq!(
        dir.commands,
        vec![
            "perl Makefile.PL PUREPERL_ONLY=1",
            "make",
            "make test",
            "make install",
            "make clean",
            "make distclean",
        ]
    );
}

#[test]
fn lifecycle_of_a_build_pl_distribution() {
    let mut dir = dist_with(vec![("META.json", meta_json()), ("Build.PL", text())])
        .running(|_| (vec![("Build", text())], exited(0)));
    let mut dist = dir.open().unwrap().with_pure_perl(true);
    dir.configure(&mut dist).unwrap();
    for step in [
        dist.execute_build(),
        dist.execute_test(),
        dist.execute_install(),
        dist.execute_clean(),
        dist.execute_distclean(),
    ] {
        assert!(dir.run_step(&dist, step).unwrap().is_success);
    }
    assert_eq!(
        dir.commands,
        vec![
            "perl Build.PL --pureperl-only",
            "perl Build",
            "perl Build test",
            "perl Build install",
            "perl Build clean",
            "perl Build distclean",
        ]
    );
}

#[test]
fn an_unasked_reply_leaves_an_opening_where_it_stands() {
    let opening = Distribution::new(root(), test_perl());
    let Step::Pending(opening) = opening.advance(Reply::Ran(exited(0))) else {
        panic!("the opening is over");
    };
    assert_eq!(opening.request(), Request::IsFile { root: &root(), name: "META.json" });
    let Step::Pending(opening) = opening.advance(Reply::IsFile(false)) else {
        panic!("the opening is over");
    };
    assert_eq!(opening.request(), Request::IsFile { root: &root(), name: "META.yml" });
    let Step::Pending(opening) = opening.advance(Reply::IsFile(true)) else {
        panic!("the opening is over");
    };
    assert_eq!(opening.request(), Request::ParseMeta { root: &root(), name: "META.yml" });
    let Step::Pending(opening) = opening.advance(Reply::IsFile(false)) else {
        panic!("the opening is over");
    };
    assert_eq!(opening.request(), Request::ParseMeta { root: &root(), name: "META.yml" });
}

#[test]
fn an_unasked_reply_leaves_a_step_where_it_stands() {
    let mut dir = with_build(succeeds);
    let mut dist = dir.open().unwrap();
    let at = dist.execute_build();
    assert_eq!(dist.build_advance(at, Reply::Ran(exited(0))), Step::Pending(at));

    let before = dist.clone();
    let at = dist.execute_configure();
    assert_eq!(
        dist.configure_advance(at, Reply::Ran(exited(0))),
        Step::Pending(before.execute_configure())
    );
    assert_eq!(dist, before);

    let search = dist.read_mymeta();
    assert_eq!(
        dist.mymeta_advance(search, Reply::Ran(exited(0))),
        Step::Pending(before.read_mymeta())
    );
    assert_eq!(dist, before);
}

#[test]
fn errors_in_words() {
    let cases = [
        (
            BuildError::NoMeta { root: root() },
            "no META.json or META.yml in /work/Foo-Bar-1.23",
        ),
        (
            BuildError::NoConfigureScript { root: root() },
            "no Build.PL or Makefile.PL in /work/Foo-Bar-1.23",
        ),
        (
            BuildError::ScriptNotFound { tool: BuildTool::ModuleBuild, root: root() },
            "Build.PL not found in /work/Foo-Bar-1.23",
        ),
        (
            BuildError::NoMymeta { root: root() },
            "no MYMETA.json or MYMETA.yml in /work/Foo-Bar-1.23",
        ),
        (
            BuildError::NotConfigured { tool: BuildTool::Eumm, root: root() },
            "Makefile not found in /work/Foo-Bar-1.23; run execute_configure first",
        ),
        (
            BuildError::NotConfigured { tool: BuildTool::ModuleBuild, root: root() },
            "Build not found in /work/Foo-Bar-1.23; run execute_configure first",
        ),
    ];
    for (error, words) in cases {
        assert_eq!(error.message(false), words);
    }
}

#[test]
fn a_directory_that_is_not_utf_8_is_shown_with_replacements() {
    let root = OsText { bytes: vec![b'/', b'a', 0xff, b'b'] };
    let error = BuildError::NoMeta { root };
    assert_eq!(error.message(false), "no META.json or META.yml in /a\u{fffd}b");
    let failure = ParseFailure {
        root: OsText { bytes: vec![b'/', b'a', 0xe6, 0x97] },
        name: "META.yml",
        cause: "malformed".to_string(),
    };
    assert_eq!(
        BuildError::Unparsed(failure).message(false),
        "failed to parse /a\u{fffd}/META.yml"
    );
}

#[test]
fn a_lone_surrogate_of_windows_is_shown_as_one_replacement() {
    let root = OsText { bytes: vec![b'C', b':', b'/', 0xed, 0xa0, 0x80, b'b'] };
    let error = BuildError::NoConfigureScript { root };
    assert_eq!(error.message(true), "no Build.PL or Makefile.PL in C:/\u{fffd}b");
}

#[test]
fn a_file_that_cannot_be_parsed_is_spelled_as_the_platform_joins_it() {
    let spelled = |root: &str| {
        let failure =
            ParseFailure { root: OsText::new(root), name: "META.json", cause: String::new() };
        BuildError::Unparsed(failure).message(false)
    };
    for root in ["/work/dist", "/work/dist/", "/", "", "dist", "C:\\work", "C:\\", "C:"] {
        let path = std::path::Path::new(root).join("META.json");
        assert_eq!(spelled(root), format!("failed to parse {}", path.display()));
    }
    assert_eq!(
        BuildError::Unparsed(ParseFailure {
            root: OsText::new("C:"),
            name: "META.json",
            cause: String::new(),
        })
        .message_at(true, "C:META.json"),
        "failed to parse C:META.json"
    );
}

#[test]
fn opening_keeps_the_rest_of_the_perl_wrapper() {
    let mut dir = dist_with(vec![("META.json", meta_json()), ("Build.PL", text())]);
    let perl = test_perl()
        .with_install_base(OsText::new("/opt/perl5"))
        .with_lib(vec![OsText::new("/opt/perl5/lib/perl5")])
        .with_make(OsText::new("/usr/bin/gmake"));
    let dist = dir.finish_opening(Distribution::new(root(), perl.clone())).unwrap();
    assert_eq!(dist.root, root());
    assert_eq!(dist.perl, perl.with_current_dir(root()));
}
