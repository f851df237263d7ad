use cargo_compile::build_config::{parse_rustc_flags, scrape_build_config, scrape_target_config,
    FlagParseError};
use cargo_compile::cli::{run_failure_exit, ExitDisposition, Options};
use cargo_compile::config::{CfgEntry, CfgVal, Config, ConfigError};
use cargo_compile::manifest::{Dependency, FeatureDecl, Package, PackageId, Profile, Profiles,
    SourceId, Target, TargetKind};
use cargo_compile::pipeline::{compile_pkg, CompileError, CompileOptions};
use cargo_compile::registry::{plan_overrides, resolve_dependencies, resolve_pkg,
    resolve_with_previous, Method, PackageRegistry, QueryError, ResolveError, SourceModel};
use cargo_compile::selection::{generate_targets, CompileFilter, CompileMode, SelectError};
use cargo_compile::text::{parent_dir, path_join, split_spaces_exec};

fn target(kind: TargetKind, name: &str) -> Target {
    Target {
        kind,
        name: name.to_string(),
        tested: true,
        benched: true,
        documented: true,
        doctested: true,
    }
}

fn profile(opt_level: u32) -> Profile {
    Profile {
        opt_level,
        debuginfo: opt_level == 0,
        test: false,
        doc: false,
        rustc_args: None,
        rustdoc_args: None,
    }
}

fn profiles() -> Profiles {
    Profiles {
        dev: profile(0),
        release: profile(3),
        test: profile(1),
        bench: profile(4),
        doc: profile(2),
    }
}

fn package_id(name: &str, version: &str) -> PackageId {
    PackageId {
        name: name.to_string(),
        version: version.to_string(),
        source_id: SourceId::Registry { url: "https://example.invalid/index".to_string() },
    }
}

fn package(name: &str, targets: Vec<Target>) -> Package {
    Package {
        id: package_id(name, "1.0.0"),
        root: format!("/work/{}", name),
        targets,
        dependencies: vec![],
        features: vec![],
        default_features: vec![],
        profiles: profiles(),
    }
}

fn lib_bin_test_package() -> Package {
    package(
        "root",
        vec![
            target(TargetKind::Lib, "root"),
            target(TargetKind::Bin, "app"),
            target(TargetKind::Test, "it"),
        ],
    )
}

#[test]
fn build_everything_selects_lib_and_bin_with_dev_profile() {
    let pkg = lib_bin_test_package();
    let sel = generate_targets(&pkg, &pkg.profiles, CompileMode::Build, &CompileFilter::Everything, false)
        .unwrap();
    assert_eq!(sel.len(), 2);
    assert_eq!(sel[0].0.name, "root");
    assert!(sel[0].0.kind == TargetKind::Lib);
    assert_eq!(sel[0].1.opt_level, 0);
    assert_eq!(sel[1].0.name, "app");
    assert!(sel[1].0.kind == TargetKind::Bin);
    assert_eq!(sel[1].1.opt_level, 0);
}

#[test]
fn test_everything_appends_doctested_library_with_build_profile() {
    let pkg = lib_bin_test_package();
    let sel = generate_targets(&pkg, &pkg.profiles, CompileMode::Test, &CompileFilter::Everything, false)
        .unwrap();
    assert_eq!(sel.len(), 4);
    assert_eq!(sel[0].0.name, "root");
    assert_eq!(sel[0].1.opt_level, 1);
    assert_eq!(sel[1].0.name, "app");
    assert_eq!(sel[1].1.opt_level, 1);
    assert_eq!(sel[2].0.name, "it");
    assert_eq!(sel[2].1.opt_level, 1);
    // the duplicate is intended: the doctested library appears once more,
    // paired with the build profile
    assert_eq!(sel[3].0.name, "root");
    assert!(sel[3].0.kind == TargetKind::Lib);
    assert_eq!(sel[3].1.opt_level, 0);
}

#[test]
fn library_not_doctested_is_not_appended() {
    let mut pkg = lib_bin_test_package();
    pkg.targets[0].doctested = false;
    let sel = generate_targets(&pkg, &pkg.profiles, CompileMode::Test, &CompileFilter::Everything, false)
        .unwrap();
    assert_eq!(sel.len(), 3);
}

#[test]
fn unknown_target_name_fails_with_suggestion() {
    let pkg = lib_bin_test_package();
    let filter = CompileFilter::Only {
        lib: false,
        bins: vec!["apps".to_string()],
        examples: vec![],
        tests: vec![],
        benches: vec![],
    };
    let err = generate_targets(&pkg, &pkg.profiles, CompileMode::Build, &filter, false).unwrap_err();
    match err {
        SelectError::NoTargetNamed { kind, name, suggestion } => {
            assert!(kind == TargetKind::Bin);
            assert_eq!(name, "apps");
            assert_eq!(suggestion, Some("app".to_string()));
        },
        _ => panic!("expected a missing-target failure"),
    }
}

#[test]
fn unknown_target_name_without_near_match_has_no_suggestion() {
    let pkg = lib_bin_test_package();
    let filter = CompileFilter::Only {
        lib: false,
        bins: vec!["zzzzzzzzzz".to_string()],
        examples: vec![],
        tests: vec![],
        benches: vec![],
    };
    let err = generate_targets(&pkg, &pkg.profiles, CompileMode::Build, &filter, false).unwrap_err();
    match err {
        SelectError::NoTargetNamed { suggestion, .. } => assert_eq!(suggestion, None),
        _ => panic!("expected a missing-target failure"),
    }
}

#[test]
fn requesting_missing_library_fails() {
    let pkg = package("nolib", vec![target(TargetKind::Bin, "app")]);
    let filter = CompileFilter::Only {
        lib: true,
        bins: vec![],
        examples: vec![],
        tests: vec![],
        benches: vec![],
    };
    let err = generate_targets(&pkg, &pkg.profiles, CompileMode::Build, &filter, false).unwrap_err();
    assert!(matches!(err, SelectError::NoLibraryTarget));
}

#[test]
fn examples_pair_with_build_profile_in_every_mode() {
    let pkg = package("ex", vec![target(TargetKind::Example, "demo")]);
    let filter = CompileFilter::Only {
        lib: false,
        bins: vec![],
        examples: vec!["demo".to_string()],
        tests: vec![],
        benches: vec![],
    };
    for mode in [CompileMode::Build, CompileMode::Test, CompileMode::Bench] {
        let sel = generate_targets(&pkg, &pkg.profiles, mode, &filter, false).unwrap();
        assert_eq!(sel.len(), 1);
        assert_eq!(sel[0].1.opt_level, 0, "example must take the build profile");
    }
}

#[test]
fn filter_new_and_matches() {
    let everything = CompileFilter::new(false, vec![], vec![], vec![], vec![]);
    assert!(matches!(everything, CompileFilter::Everything));
    let only = CompileFilter::new(false, vec!["a".to_string()], vec![], vec![], vec![]);
    assert!(everything.matches(&target(TargetKind::Lib, "x")));
    assert!(everything.matches(&target(TargetKind::Bin, "x")));
    // a custom build script never matches any filter
    assert!(!everything.matches(&target(TargetKind::CustomBuild, "build")));
    assert!(only.matches(&target(TargetKind::Bin, "a")));
    assert!(!only.matches(&target(TargetKind::Bin, "b")));
    assert!(!only.matches(&target(TargetKind::Lib, "a")));
    assert!(!only.matches(&target(TargetKind::CustomBuild, "a")));
}

#[test]
fn rustc_flags_parse_paths_and_links() {
    let (paths, links) = parse_rustc_flags("-L /foo -l bar").unwrap();
    assert_eq!(paths, vec!["/foo".to_string()]);
    assert_eq!(links, vec!["bar".to_string()]);
}

#[test]
fn rustc_flags_parse_attached_forms() {
    let (paths, links) = parse_rustc_flags("-L/foo -lbar -l baz").unwrap();
    assert_eq!(paths, vec!["/foo".to_string()]);
    assert_eq!(links, vec!["bar".to_string(), "baz".to_string()]);
}

#[test]
fn rustc_flags_reject_unknown_token() {
    let err = parse_rustc_flags("-L /foo -zbad").unwrap_err();
    match err {
        FlagParseError::Unrecognized { token } => assert_eq!(token, "-zbad"),
        _ => panic!("expected an unrecognized token"),
    }
}

#[test]
fn rustc_flags_reject_missing_value() {
    let err = parse_rustc_flags("-l").unwrap_err();
    match err {
        FlagParseError::MissingValue { flag } => assert_eq!(flag, "-l"),
        _ => panic!("expected a missing value"),
    }
}

fn entry(key: &str, val: CfgVal) -> CfgEntry {
    CfgEntry { key: key.to_string(), definition: "/home/user/.cargo/config".to_string(), val }
}

fn config_with(entries: Vec<CfgEntry>) -> Config {
    Config { entries, rustc_host: "x86_64-host".to_string() }
}

#[test]
fn jobs_zero_in_config_fails_validation() {
    let cfg = config_with(vec![entry("build.jobs", CfgVal::Int(0))]);
    let err = scrape_build_config(&cfg, None, None).unwrap_err();
    match err {
        ConfigError::JobsNotPositive { found, definition } => {
            assert_eq!(found, 0);
            assert_eq!(definition, "/home/user/.cargo/config");
        },
        _ => panic!("expected the job count to be rejected"),
    }
}

#[test]
fn jobs_negative_in_config_fails_validation() {
    let cfg = config_with(vec![entry("build.jobs", CfgVal::Int(-1))]);
    let err = scrape_build_config(&cfg, None, None).unwrap_err();
    assert!(matches!(err, ConfigError::JobsNotPositive { found: -1, .. }));
}

#[test]
fn jobs_too_large_in_config_fails_validation() {
    let cfg = config_with(vec![entry("build.jobs", CfgVal::Int(u32::MAX as i64))]);
    let err = scrape_build_config(&cfg, None, None).unwrap_err();
    assert!(matches!(err, ConfigError::JobsTooLarge { .. }));
}

#[test]
fn jobs_fall_back_to_config_then_parallelism() {
    let cfg = config_with(vec![entry("build.jobs", CfgVal::Int(5))]);
    assert_eq!(scrape_build_config(&cfg, None, None).unwrap().jobs, 5);
    assert_eq!(scrape_build_config(&cfg, Some(7), None).unwrap().jobs, 7);
    let empty = config_with(vec![]);
    assert_eq!(scrape_build_config(&empty, None, None).unwrap().jobs, num_cpus::get() as u32);
}

#[test]
fn requested_target_follows_cli_then_config() {
    let cfg = config_with(vec![entry("build.target", CfgVal::Text("tri-from-config".to_string()))]);
    let bc = scrape_build_config(&cfg, None, None).unwrap();
    assert_eq!(bc.requested_target, Some("tri-from-config".to_string()));
    let bc = scrape_build_config(&cfg, None, Some("tri-from-cli".to_string())).unwrap();
    assert_eq!(bc.requested_target, Some("tri-from-cli".to_string()));
    let empty = config_with(vec![]);
    let bc = scrape_build_config(&empty, None, None).unwrap();
    assert_eq!(bc.requested_target, None);
}

#[test]
fn jobs_key_of_wrong_type_is_a_type_mismatch() {
    let cfg = config_with(vec![entry("build.jobs", CfgVal::Text("many".to_string()))]);
    let err = scrape_build_config(&cfg, None, None).unwrap_err();
    assert!(matches!(err, ConfigError::TypeMismatch { .. }));
}

#[test]
fn target_table_scrapes_overrides() {
    let cfg = config_with(vec![
        entry("target.tri.ar", CfgVal::Text("/usr/bin/ar".to_string())),
        entry("target.tri.linker", CfgVal::Text("/usr/bin/ld".to_string())),
        entry(
            "target.tri",
            CfgVal::Table(vec!["ar".to_string(), "linker".to_string(), "foo".to_string()]),
        ),
        entry(
            "target.tri.foo",
            CfgVal::Table(vec![
                "rustc-flags".to_string(),
                "rustc-link-lib".to_string(),
                "rustc-link-search".to_string(),
                "rustc-cfg".to_string(),
                "answer".to_string(),
            ]),
        ),
        entry("target.tri.foo.rustc-flags", CfgVal::Text("-L /a -l b".to_string())),
        entry(
            "target.tri.foo.rustc-link-lib",
            CfgVal::List(vec![("c".to_string(), "/cfg".to_string())]),
        ),
        entry(
            "target.tri.foo.rustc-link-search",
            CfgVal::List(vec![("/d".to_string(), "/cfg".to_string())]),
        ),
        entry(
            "target.tri.foo.rustc-cfg",
            CfgVal::List(vec![("feature=\"x\"".to_string(), "/cfg".to_string())]),
        ),
        entry("target.tri.foo.answer", CfgVal::Text("42".to_string())),
    ]);
    let tc = scrape_target_config(&cfg, &"tri".to_string()).unwrap();
    assert_eq!(tc.ar, Some("/usr/bin/ar".to_string()));
    assert_eq!(tc.linker, Some("/usr/bin/ld".to_string()));
    assert_eq!(tc.overrides.len(), 1);
    let (lib, out) = &tc.overrides[0];
    assert_eq!(lib, "foo");
    assert_eq!(out.library_paths, vec!["/a".to_string(), "/d".to_string()]);
    assert_eq!(out.library_links, vec!["b".to_string(), "c".to_string()]);
    assert_eq!(out.cfgs, vec!["feature=\"x\"".to_string()]);
    assert_eq!(out.metadata, vec![("answer".to_string(), "42".to_string())]);
    assert!(out.rerun_if_changed.is_empty());
}

#[test]
fn bad_rustc_flags_in_override_table_name_the_token() {
    let cfg = config_with(vec![
        entry("target.tri", CfgVal::Table(vec!["foo".to_string()])),
        entry("target.tri.foo", CfgVal::Table(vec!["rustc-flags".to_string()])),
        entry("target.tri.foo.rustc-flags", CfgVal::Text("bogus".to_string())),
    ]);
    let err = scrape_target_config(&cfg, &"tri".to_string()).unwrap_err();
    match err {
        ConfigError::BadFlag { token, key, .. } => {
            assert_eq!(token, "bogus");
            assert_eq!(key, "target.tri.foo.rustc-flags");
        },
        _ => panic!("expected a flag parse failure"),
    }
}

#[test]
fn override_plan_excludes_root_directory() {
    let cfg = config_with(vec![entry(
        "paths",
        CfgVal::List(vec![
            ("dep".to_string(), "/work/root/.cargo/config".to_string()),
            ("other".to_string(), "/work/root/.cargo/config".to_string()),
        ]),
    )]);
    let plans = plan_overrides(&cfg, &"/work/root/dep".to_string()).unwrap();
    assert_eq!(plans.len(), 1);
    assert_eq!(plans[0].path, "/work/root/other");
    assert_eq!(plans[0].definition, "/work/root/.cargo/config");
}

#[test]
fn override_plan_without_paths_key_is_empty() {
    let cfg = config_with(vec![]);
    assert!(plan_overrides(&cfg, &"/work/root".to_string()).unwrap().is_empty());
}

fn dep_package(name: &str, version: &str) -> Package {
    Package {
        id: package_id(name, version),
        root: format!("/work/{}", name),
        targets: vec![target(TargetKind::Lib, name)],
        dependencies: vec![],
        features: vec![],
        default_features: vec![],
        profiles: profiles(),
    }
}

fn preloaded_root(root: &Package) -> Option<SourceModel> {
    Some(SourceModel {
        id: SourceId::LocalPath { path: root.root.clone() },
        packages: vec![root.clone()],
    })
}

fn root_with_deps() -> Package {
    Package {
        id: package_id("root", "1.0.0"),
        root: "/work/root".to_string(),
        targets: vec![target(TargetKind::Lib, "root"), target(TargetKind::Bin, "app")],
        dependencies: vec![
            Dependency { name: "base".to_string(), optional: false },
            Dependency { name: "extra-dep".to_string(), optional: true },
        ],
        features: vec![FeatureDecl {
            name: "extras".to_string(),
            enables: vec!["extra-dep".to_string()],
        }],
        default_features: vec!["extras".to_string()],
        profiles: profiles(),
    }
}

fn source_with(packages: Vec<Package>) -> SourceModel {
    SourceModel {
        id: SourceId::Registry { url: "https://example.invalid/index".to_string() },
        packages,
    }
}

#[test]
fn default_features_round_trip_produces_same_graph() {
    let root = root_with_deps();
    let sources = vec![source_with(vec![dep_package("base", "1.0.0"), dep_package("extra-dep", "1.0.0")])];
    let registry = PackageRegistry::new(sources);
    let with_defaults = resolve_with_previous(
        &registry,
        &root,
        &Method::Required { features: vec![], uses_default_features: true },
        None,
    )
    .unwrap();
    let explicit = resolve_with_previous(
        &registry,
        &root,
        &Method::Required { features: vec!["extras".to_string()], uses_default_features: false },
        None,
    )
    .unwrap();
    assert_eq!(with_defaults.nodes.len(), explicit.nodes.len());
    for (a, b) in with_defaults.nodes.iter().zip(explicit.nodes.iter()) {
        assert!(a.same_as(b));
    }
}

#[test]
fn default_features_off_drops_optional_dependency() {
    let root = root_with_deps();
    let sources = vec![source_with(vec![dep_package("base", "1.0.0"), dep_package("extra-dep", "1.0.0")])];
    let registry = PackageRegistry::new(sources);
    let resolve = resolve_with_previous(
        &registry,
        &root,
        &Method::Required { features: vec![], uses_default_features: false },
        None,
    )
    .unwrap();
    // the root node plus the mandatory dependency only
    assert_eq!(resolve.nodes.len(), 2);
    assert_eq!(resolve.nodes[1].name, "base");
}

#[test]
fn unknown_feature_is_rejected() {
    let root = root_with_deps();
    let registry = PackageRegistry::new(vec![source_with(vec![dep_package("base", "1.0.0")])]);
    let err = resolve_with_previous(
        &registry,
        &root,
        &Method::Required { features: vec!["nope".to_string()], uses_default_features: false },
        None,
    )
    .unwrap_err();
    match err {
        ResolveError::UnknownFeature { name } => assert_eq!(name, "nope"),
        _ => panic!("expected an unknown feature"),
    }
}

#[test]
fn missing_dependency_is_reported() {
    let root = root_with_deps();
    let registry = PackageRegistry::new(vec![]);
    let err = resolve_pkg(&registry, &root).unwrap_err();
    match err {
        ResolveError::MissingDependency { name } => assert_eq!(name, "base"),
        _ => panic!("expected a missing dependency"),
    }
}

#[test]
fn override_source_takes_precedence() {
    let root = root_with_deps();
    let mut registry = PackageRegistry::new(vec![source_with(vec![
        dep_package("base", "1.0.0"),
        dep_package("extra-dep", "1.0.0"),
    ])]);
    let mut over = dep_package("base", "2.0.0");
    over.id.source_id = SourceId::LocalPath { path: "/work/base".to_string() };
    let (packages, resolve) = resolve_dependencies(
        &root,
        &mut registry,
        preloaded_root(&root),
        vec![SourceModel {
            id: SourceId::LocalPath { path: "/work/base".to_string() },
            packages: vec![over],
        }],
        vec![],
        false,
    )
    .unwrap();
    let base = resolve.nodes.iter().find(|n| n.name == "base").unwrap();
    assert_eq!(base.version, "2.0.0");
    assert!(packages.get(base).is_ok());
}

#[test]
fn second_phase_keeps_baseline_choice() {
    let root = root_with_deps();
    // two sources offer the mandatory dependency; the baseline fixes the
    // first, and the second phase keeps that choice
    let mut registry = PackageRegistry::new(vec![
        source_with(vec![dep_package("base", "1.0.0"), dep_package("extra-dep", "1.0.0")]),
        source_with(vec![dep_package("base", "3.0.0")]),
    ]);
    let (_, resolve) = resolve_dependencies(&root, &mut registry, preloaded_root(&root), vec![], vec![], false)
        .unwrap();
    let base = resolve.nodes.iter().find(|n| n.name == "base").unwrap();
    assert_eq!(base.version, "1.0.0");
}

#[test]
fn query_unknown_and_ambiguous_specs_fail() {
    let root = root_with_deps();
    let registry = PackageRegistry::new(vec![source_with(vec![
        dep_package("base", "1.0.0"),
        dep_package("extra-dep", "1.0.0"),
    ])]);
    let resolve = resolve_pkg(&registry, &root).unwrap();
    assert!(resolve.query(&"base".to_string()).is_ok());
    let err = resolve.query(&"ghost".to_string()).unwrap_err();
    assert!(matches!(err, QueryError::UnknownPackage { .. }));
}

fn plain_options(filter: CompileFilter, mode: CompileMode) -> CompileOptions {
    CompileOptions {
        jobs: Some(2),
        target: None,
        features: vec![],
        no_default_features: false,
        specs: vec![],
        filter,
        release: false,
        mode,
        target_rustdoc_args: None,
        target_rustc_args: None,
    }
}

#[test]
fn compile_pkg_assembles_a_plan() {
    let root = root_with_deps();
    let mut registry = PackageRegistry::new(vec![source_with(vec![
        dep_package("base", "1.0.0"),
        dep_package("extra-dep", "1.0.0"),
    ])]);
    let cfg = config_with(vec![]);
    let opts = plain_options(CompileFilter::Everything, CompileMode::Build);
    let plan = compile_pkg(&root, &mut registry, preloaded_root(&root), vec![], &cfg, &opts).unwrap();
    assert_eq!(plan.package_targets.len(), 1);
    assert_eq!(plan.package_targets[0].0.name, "root");
    let targets = &plan.package_targets[0].1;
    assert_eq!(targets.len(), 2);
    assert_eq!(targets[0].0.name, "root");
    assert_eq!(targets[1].0.name, "app");
    assert_eq!(plan.build_config.jobs, 2);
    assert!(!plan.build_config.release);
    assert!(!plan.build_config.test);
    assert_eq!(plan.to_doc_test.len(), 1);
    assert_eq!(plan.to_doc_test[0].id.name, "root");
}

#[test]
fn compile_pkg_rejects_zero_jobs() {
    let root = root_with_deps();
    let mut registry = PackageRegistry::new(vec![]);
    let cfg = config_with(vec![]);
    let mut opts = plain_options(CompileFilter::Everything, CompileMode::Build);
    opts.jobs = Some(0);
    let err = compile_pkg(&root, &mut registry, preloaded_root(&root), vec![], &cfg, &opts).unwrap_err();
    assert!(matches!(err, CompileError::JobsZero));
}

#[test]
fn compile_pkg_fails_fast_on_bad_filter() {
    let root = root_with_deps();
    // the registry is empty, so resolution would fail; the bad target name
    // must be reported before resolution is attempted
    let mut registry = PackageRegistry::new(vec![]);
    let cfg = config_with(vec![]);
    let filter = CompileFilter::Only {
        lib: false,
        bins: vec!["apps".to_string()],
        examples: vec![],
        tests: vec![],
        benches: vec![],
    };
    let opts = plain_options(filter, CompileMode::Build);
    let err = compile_pkg(&root, &mut registry, preloaded_root(&root), vec![], &cfg, &opts).unwrap_err();
    assert!(matches!(err, CompileError::Select(SelectError::NoTargetNamed { .. })));
}

#[test]
fn extra_rustc_args_need_a_single_target() {
    let root = root_with_deps();
    let sources = vec![source_with(vec![
        dep_package("base", "1.0.0"),
        dep_package("extra-dep", "1.0.0"),
    ])];
    let cfg = config_with(vec![]);
    let mut opts = plain_options(CompileFilter::Everything, CompileMode::Build);
    opts.target_rustc_args = Some(vec!["--cfg".to_string(), "x".to_string()]);
    let mut registry = PackageRegistry::new(sources.clone());
    let err = compile_pkg(&root, &mut registry, preloaded_root(&root), vec![], &cfg, &opts).unwrap_err();
    assert!(matches!(err, CompileError::ExtraArgsMultipleTargets { rustdoc: false }));

    let lib_only = CompileFilter::Only {
        lib: true,
        bins: vec![],
        examples: vec![],
        tests: vec![],
        benches: vec![],
    };
    opts.filter = lib_only;
    let mut registry = PackageRegistry::new(sources);
    let plan = compile_pkg(&root, &mut registry, preloaded_root(&root), vec![], &cfg, &opts).unwrap();
    assert_eq!(plan.package_targets[0].1.len(), 1);
    let p = &plan.package_targets[0].1[0].1;
    assert_eq!(p.rustc_args, Some(vec!["--cfg".to_string(), "x".to_string()]));
}

#[test]
fn space_separated_features_are_split() {
    let mut root = root_with_deps();
    root.features.push(FeatureDecl { name: "more".to_string(), enables: vec![] });
    let mut registry = PackageRegistry::new(vec![source_with(vec![
        dep_package("base", "1.0.0"),
        dep_package("extra-dep", "1.0.0"),
    ])]);
    let cfg = config_with(vec![]);
    let mut opts = plain_options(CompileFilter::Everything, CompileMode::Build);
    opts.features = vec!["extras more".to_string()];
    assert!(compile_pkg(&root, &mut registry, preloaded_root(&root), vec![], &cfg, &opts).is_ok());
}

#[test]
fn doc_mode_stamps_doc_all() {
    let root = root_with_deps();
    let mut registry = PackageRegistry::new(vec![source_with(vec![
        dep_package("base", "1.0.0"),
        dep_package("extra-dep", "1.0.0"),
    ])]);
    let cfg = config_with(vec![]);
    let opts = plain_options(CompileFilter::Everything, CompileMode::Doc { deps: true });
    let plan = compile_pkg(&root, &mut registry, preloaded_root(&root), vec![], &cfg, &opts).unwrap();
    assert!(plan.build_config.doc_all);
    assert!(!plan.build_config.test);
}

#[test]
fn run_options_build_the_expected_filter() {
    let opts = Options {
        flag_bin: None,
        flag_example: None,
        flag_jobs: None,
        flag_features: vec![],
        flag_no_default_features: false,
        flag_target: None,
        flag_manifest_path: None,
        flag_verbose: None,
        flag_quiet: None,
        flag_color: None,
        flag_release: false,
        arg_args: vec![],
    };
    assert!(matches!(opts.compile_filter(), CompileFilter::Everything));
    let with_bin = Options { flag_bin: Some("tool".to_string()), ..opts };
    match with_bin.compile_filter() {
        CompileFilter::Only { lib, bins, examples, tests, benches } => {
            assert!(!lib);
            assert_eq!(bins, vec!["tool".to_string()]);
            assert!(examples.is_empty() && tests.is_empty() && benches.is_empty());
        },
        _ => panic!("expected an explicit filter"),
    }
}

#[test]
fn run_exit_disposition() {
    assert_eq!(
        run_failure_exit(None, None),
        ExitDisposition { code: 101, print_error: true },
    );
    assert_eq!(
        run_failure_exit(Some(Some(3)), None),
        ExitDisposition { code: 3, print_error: true },
    );
    assert_eq!(
        run_failure_exit(Some(Some(3)), Some(true)),
        ExitDisposition { code: 3, print_error: false },
    );
    assert_eq!(
        run_failure_exit(Some(None), Some(false)),
        ExitDisposition { code: 101, print_error: true },
    );
}

#[test]
fn text_helpers() {
    assert_eq!(split_spaces_exec("a  b c"), vec!["a".to_string(), "b".to_string(), "c".to_string()]);
    assert!(split_spaces_exec("   ").is_empty());
    assert_eq!(parent_dir("/a/b/c"), "/a/b");
    assert_eq!(parent_dir("x"), "");
    assert_eq!(path_join("", "x"), "x");
    assert_eq!(path_join("/a", "b"), "/a/b");
}
