//! The compile pipeline: validates the request, selects targets (failing
//! fast on a bad filter before resolution runs), resolves dependencies,
//! narrows to the requested packages, applies the single-target extra-args
//! override, scrapes the build configuration, and hands the finished plan
//! to the compilation engine.

use vstd::prelude::*;

use crate::build_config::{BuildConfig, BuildConfigView, scrape_build_config,
    spec_scrape_build_config};
use crate::config::{Config, ConfigError, ConfigErrorView, ConfigView};
use crate::manifest::{clone_string_vec, Package, PackageId, PackageIdView,
    PackageView, Profile, ProfileView, Target, TargetView};
use crate::registry::{get_resolved_packages, MethodView, PackageRegistry, PackageSet, QueryError,
    QueryErrorView, RegistryView, Resolve, resolve_dependencies, ResolveError, ResolveErrorView,
    ResolveView, set_lookup, SourceModel, SourceModelView, spec_query, spec_resolve,
    spec_resolve_dependencies, with_overrides, with_preloaded};
use crate::selection::{CompileFilter, CompileFilterView, CompileMode, generate_targets,
    SelectError, SelectErrorView, spec_generate_targets};
use crate::text::{split_spaces, split_spaces_exec};

verus! {

/// Mathematical image of [`CompileOptions`].
pub ghost struct CompileOptionsView {
    pub jobs: Option<u32>,
    pub target: Option<Seq<char>>,
    pub features: Seq<Seq<char>>,
    pub no_default_features: bool,
    pub specs: Seq<Seq<char>>,
    pub filter: CompileFilterView,
    pub release: bool,
    pub mode: CompileMode,
    pub target_rustdoc_args: Option<Seq<Seq<char>>>,
    pub target_rustc_args: Option<Seq<Seq<char>>>,
}

/// How a package should be compiled: the request the command line hands
/// the pipeline.
#[derive(Debug)]
pub struct CompileOptions {
    /// Number of concurrent jobs to use.
    pub jobs: Option<u32>,
    /// The target platform to compile for.
    pub target: Option<String>,
    /// Extra features to build for the root package; each entry may hold
    /// several space-separated feature names.
    pub features: Vec<String>,
    /// Whether the default features of the root package stay off.
    pub no_default_features: bool,
    /// Package specs narrowing the build; empty means the root package.
    pub specs: Vec<String>,
    /// Which targets of the selected packages to build.
    pub filter: CompileFilter,
    /// Whether this is a release build.
    pub release: bool,
    /// The purpose of this compile.
    pub mode: CompileMode,
    /// Extra arguments for the documentation generator, restricted to a
    /// single target.
    pub target_rustdoc_args: Option<Vec<String>>,
    /// Extra arguments for the final compiler invocation, restricted to a
    /// single target.
    pub target_rustc_args: Option<Vec<String>>,
}

impl DeepView for CompileOptions {
    type V = CompileOptionsView;

    open spec fn deep_view(&self) -> CompileOptionsView {
        CompileOptionsView {
            jobs: self.jobs,
            target: self.target.deep_view(),
            features: self.features.deep_view(),
            no_default_features: self.no_default_features,
            specs: self.specs.deep_view(),
            filter: self.filter.deep_view(),
            release: self.release,
            mode: self.mode,
            target_rustdoc_args: self.target_rustdoc_args.deep_view(),
            target_rustc_args: self.target_rustc_args.deep_view(),
        }
    }
}

/// Mathematical image of a [`CompileError`].
pub ghost enum CompileErrorView {
    JobsZero,
    Select(SelectErrorView),
    Config(ConfigErrorView),
    Resolution(ResolveErrorView),
    Query(QueryErrorView),
    ExtraArgsMultipleTargets { rustdoc: bool },
}

/// Any failure of the compile pipeline.
#[derive(Debug)]
pub enum CompileError {
    /// The command line asked for zero jobs.
    JobsZero,
    /// Target selection failed.
    Select(SelectError),
    /// Build configuration was malformed.
    Config(ConfigError),
    /// Dependency resolution failed.
    Resolution(ResolveError),
    /// A package spec was unknown or ambiguous.
    Query(QueryError),
    /// Extra compiler or doc-generator arguments were requested against a
    /// selection that yields more than one target.
    ExtraArgsMultipleTargets { rustdoc: bool },
}

impl DeepView for CompileError {
    type V = CompileErrorView;

    open spec fn deep_view(&self) -> CompileErrorView {
        match self {
            CompileError::JobsZero => CompileErrorView::JobsZero,
            CompileError::Select(e) => CompileErrorView::Select(e.deep_view()),
            CompileError::Config(e) => CompileErrorView::Config(e.deep_view()),
            CompileError::Resolution(e) => CompileErrorView::Resolution(e.deep_view()),
            CompileError::Query(e) => CompileErrorView::Query(e.deep_view()),
            CompileError::ExtraArgsMultipleTargets { rustdoc } => CompileErrorView::ExtraArgsMultipleTargets {
                rustdoc: *rustdoc,
            },
        }
    }
}

/// Mathematical image of a [`CompilePlan`].
pub ghost struct CompilePlanView {
    pub package_targets: Seq<(PackageIdView, Seq<(TargetView, ProfileView)>)>,
    pub packages: Seq<PackageView>,
    pub resolve: ResolveView,
    pub build_config: BuildConfigView,
    pub to_doc_test: Seq<PackageView>,
}

/// The fully-specified build plan the pipeline hands to the compilation
/// engine: the targets of every selected package, the materialized package
/// set, the final dependency graph, the merged build configuration, and
/// the packages whose doctests run afterwards.
#[derive(Debug)]
pub struct CompilePlan {
    pub package_targets: Vec<(PackageId, Vec<(Target, Profile)>)>,
    pub packages: PackageSet,
    pub resolve: Resolve,
    pub build_config: BuildConfig,
    pub to_doc_test: Vec<Package>,
}

impl DeepView for CompilePlan {
    type V = CompilePlanView;

    open spec fn deep_view(&self) -> CompilePlanView {
        CompilePlanView {
            package_targets: self.package_targets.deep_view(),
            packages: self.packages.deep_view(),
            resolve: self.resolve.deep_view(),
            build_config: self.build_config.deep_view(),
            to_doc_test: self.to_doc_test.deep_view(),
        }
    }
}

/// The flat feature list of the request: each entry of the command line's
/// feature arguments split on spaces, in order.
pub open spec fn split_features(fs: Seq<Seq<char>>, i: int) -> Seq<Seq<char>>
    decreases i,
{
    if i <= 0 {
        Seq::empty()
    } else {
        split_features(fs, i - 1) + split_spaces(fs[i - 1])
    }
}

/// The package ids the first `i` package specs resolve to.
pub open spec fn query_specs(resolve: ResolveView, specs: Seq<Seq<char>>, i: int) -> Result<
    Seq<PackageIdView>,
    QueryErrorView,
>
    decreases i,
{
    if i <= 0 {
        Ok(Seq::empty())
    } else {
        match query_specs(resolve, specs, i - 1) {
            Err(e) => Err(e),
            Ok(ids) => match spec_query(resolve, specs[i - 1]) {
                Ok(id) => Ok(ids.push(id)),
                Err(e) => Err(e),
            },
        }
    }
}

/// The packages of the set that the first `i` resolved ids denote.
pub open spec fn lookup_builds(pkgs: Seq<PackageView>, ids: Seq<PackageIdView>, i: int) -> Result<
    Seq<PackageView>,
    QueryErrorView,
>
    decreases i,
{
    if i <= 0 {
        Ok(Seq::empty())
    } else {
        match lookup_builds(pkgs, ids, i - 1) {
            Err(e) => Err(e),
            Ok(builds) => match set_lookup(pkgs, ids[i - 1], pkgs.len() as int) {
                Some(p) => Ok(builds.push(p)),
                None => Err(QueryErrorView::UnknownPackage { query: ids[i - 1].name }),
            },
        }
    }
}

/// The selected targets of each of the first `i` packages to build, every
/// package selected under the root package's profiles.
pub open spec fn targets_per_build(
    builds: Seq<PackageView>,
    profiles: crate::manifest::ProfilesView,
    mode: CompileMode,
    filter: CompileFilterView,
    release: bool,
    i: int,
) -> Result<Seq<(PackageIdView, Seq<(TargetView, ProfileView)>)>, SelectErrorView>
    decreases i,
{
    if i <= 0 {
        Ok(Seq::empty())
    } else {
        match targets_per_build(builds, profiles, mode, filter, release, i - 1) {
            Err(e) => Err(e),
            Ok(pt) => match spec_generate_targets(builds[i - 1], profiles, mode, filter, release) {
                Err(e) => Err(e),
                Ok(sel) => Ok(pt.push((builds[i - 1].id, sel))),
            },
        }
    }
}

/// A profile with the extra compiler or doc-generator arguments set.
pub open spec fn with_extra_args(p: ProfileView, args: Seq<Seq<char>>, rustdoc: bool) -> ProfileView {
    if rustdoc {
        ProfileView {
            opt_level: p.opt_level,
            debuginfo: p.debuginfo,
            test: p.test,
            doc: p.doc,
            rustc_args: p.rustc_args,
            rustdoc_args: Some(args),
        }
    } else {
        ProfileView {
            opt_level: p.opt_level,
            debuginfo: p.debuginfo,
            test: p.test,
            doc: p.doc,
            rustc_args: Some(args),
            rustdoc_args: p.rustdoc_args,
        }
    }
}

/// The one (target, profile) pair of the extra-args override, repeated for
/// each of the first `i` packages to build.
pub open spec fn override_targets(
    builds: Seq<PackageView>,
    pair: (TargetView, ProfileView),
    i: int,
) -> Seq<(PackageIdView, Seq<(TargetView, ProfileView)>)>
    decreases i,
{
    if i <= 0 {
        Seq::empty()
    } else {
        override_targets(builds, pair, i - 1).push((builds[i - 1].id, seq![pair]))
    }
}

/// A build configuration stamped with the flags the mode implies.
pub open spec fn stamp_build_config(bc: BuildConfigView, release: bool, mode: CompileMode) -> BuildConfigView {
    BuildConfigView {
        jobs: bc.jobs,
        requested_target: bc.requested_target,
        host: bc.host,
        target: bc.target,
        release,
        test: mode == CompileMode::Test,
        doc_all: match mode {
            CompileMode::Doc { deps } => deps,
            _ => false,
        },
    }
}

/// The package-targets part of the plan: the extra-args override when one
/// is requested (a user-facing error unless the selection yields exactly
/// one target), else each package's own selection.
pub open spec fn spec_plan_targets(
    builds: Seq<PackageView>,
    profiles: crate::manifest::ProfilesView,
    opts: CompileOptionsView,
) -> Result<Seq<(PackageIdView, Seq<(TargetView, ProfileView)>)>, CompileErrorView> {
    match opts.target_rustc_args {
        Some(args) => match spec_generate_targets(builds[0], profiles, opts.mode, opts.filter, opts.release) {
            Err(e) => Err(CompileErrorView::Select(e)),
            Ok(sel) => if sel.len() == 1 {
                Ok(override_targets(builds, (sel[0].0, with_extra_args(sel[0].1, args, false)), builds.len() as int))
            } else {
                Err(CompileErrorView::ExtraArgsMultipleTargets { rustdoc: false })
            },
        },
        None => match opts.target_rustdoc_args {
            Some(args) => match spec_generate_targets(builds[0], profiles, opts.mode, opts.filter, opts.release) {
                Err(e) => Err(CompileErrorView::Select(e)),
                Ok(sel) => if sel.len() == 1 {
                    Ok(override_targets(builds, (sel[0].0, with_extra_args(sel[0].1, args, true)), builds.len() as int))
                } else {
                    Err(CompileErrorView::ExtraArgsMultipleTargets { rustdoc: true })
                },
            },
            None => match targets_per_build(builds, profiles, opts.mode, opts.filter, opts.release, builds.len() as int) {
                Err(e) => Err(CompileErrorView::Select(e)),
                Ok(pt) => Ok(pt),
            },
        },
    }
}

/// The registry's state when the pipeline returns: untouched while the
/// request is rejected before resolution runs; with the preloaded source
/// registered once resolution starts; and with the override sources
/// registered as well once the baseline pass has succeeded.
pub open spec fn spec_final_registry(
    pkg: PackageView,
    reg: RegistryView,
    pre: Option<SourceModelView>,
    ovr: Seq<SourceModelView>,
    opts: CompileOptionsView,
) -> RegistryView {
    if opts.jobs == Some(0u32) {
        reg
    } else if opts.specs.len() == 0 && spec_generate_targets(
        pkg,
        pkg.profiles,
        opts.mode,
        opts.filter,
        opts.release,
    ) is Err {
        reg
    } else {
        let reg1 = with_preloaded(reg, pre);
        if spec_resolve(pkg, reg1, MethodView::Everything, None) is Err {
            reg1
        } else {
            with_overrides(reg1, ovr)
        }
    }
}

/// The full contract of [`compile_pkg`], given the job-count `fallback`
/// that stands in for the platform's available parallelism: validate the
/// job count, fail fast on a bad filter when no package spec narrows the
/// build, run the two-phase resolution, resolve the requested specs,
/// select each package's targets (or apply the single-target extra-args
/// override), and assemble the plan around the stamped build
/// configuration.
pub open spec fn spec_compile_pkg(
    pkg: PackageView,
    reg: RegistryView,
    pre: Option<SourceModelView>,
    ovr: Seq<SourceModelView>,
    cfg: ConfigView,
    opts: CompileOptionsView,
    fallback: u32,
) -> Result<CompilePlanView, CompileErrorView> {
    if opts.jobs == Some(0u32) {
        Err(CompileErrorView::JobsZero)
    } else {
        let profiles = pkg.profiles;
        let early: Result<(), SelectErrorView> = if opts.specs.len() == 0 {
            match spec_generate_targets(pkg, profiles, opts.mode, opts.filter, opts.release) {
                Err(e) => Err(e),
                Ok(_) => Ok(()),
            }
        } else {
            Ok(())
        };
        match early {
            Err(e) => Err(CompileErrorView::Select(e)),
            Ok(()) => {
                let flat = split_features(opts.features, opts.features.len() as int);
                match spec_resolve_dependencies(reg, pkg, pre, ovr, flat, opts.no_default_features) {
                    Err(e) => Err(CompileErrorView::Resolution(e)),
                    Ok((pkgs, resolve)) => {
                        let idsr: Result<Seq<PackageIdView>, QueryErrorView> = if opts.specs.len()
                            > 0 {
                            query_specs(resolve, opts.specs, opts.specs.len() as int)
                        } else {
                            Ok(seq![pkg.id])
                        };
                        match idsr {
                            Err(e) => Err(CompileErrorView::Query(e)),
                            Ok(ids) => match lookup_builds(pkgs, ids, ids.len() as int) {
                                Err(e) => Err(CompileErrorView::Query(e)),
                                Ok(builds) => match spec_plan_targets(builds, profiles, opts) {
                                    Err(e) => Err(e),
                                    Ok(package_targets) => match spec_scrape_build_config(
                                        cfg,
                                        opts.jobs,
                                        opts.target,
                                        fallback,
                                    ) {
                                        Err(e) => Err(CompileErrorView::Config(e)),
                                        Ok(bc) => Ok(CompilePlanView {
                                            package_targets,
                                            packages: pkgs,
                                            resolve,
                                            build_config: stamp_build_config(
                                                bc,
                                                opts.release,
                                                opts.mode,
                                            ),
                                            to_doc_test: builds,
                                        }),
                                    },
                                },
                            },
                        }
                    },
                }
            },
        }
    }
}

/// Once a spec query errs, the remaining specs cannot clear that.
proof fn lemma_query_specs_err_extend(resolve: ResolveView, specs: Seq<Seq<char>>, i: int, n: int)
    requires
        0 <= i <= n,
        query_specs(resolve, specs, i) is Err,
    ensures
        query_specs(resolve, specs, n) == query_specs(resolve, specs, i),
    decreases n,
{
    if n > i {
        lemma_query_specs_err_extend(resolve, specs, i, n - 1);
    }
}

/// Once a build lookup errs, the remaining ids cannot clear that.
proof fn lemma_lookup_builds_err_extend(pkgs: Seq<PackageView>, ids: Seq<PackageIdView>, i: int, n: int)
    requires
        0 <= i <= n,
        lookup_builds(pkgs, ids, i) is Err,
    ensures
        lookup_builds(pkgs, ids, n) == lookup_builds(pkgs, ids, i),
    decreases n,
{
    if n > i {
        lemma_lookup_builds_err_extend(pkgs, ids, i, n - 1);
    }
}

/// Once target selection errs for one package, the rest cannot clear that.
proof fn lemma_targets_per_build_err_extend(
    builds: Seq<PackageView>,
    profiles: crate::manifest::ProfilesView,
    mode: CompileMode,
    filter: CompileFilterView,
    release: bool,
    i: int,
    n: int,
)
    requires
        0 <= i <= n,
        targets_per_build(builds, profiles, mode, filter, release, i) is Err,
    ensures
        targets_per_build(builds, profiles, mode, filter, release, n) == targets_per_build(
            builds,
            profiles,
            mode,
            filter,
            release,
            i,
        ),
    decreases n,
{
    if n > i {
        lemma_targets_per_build_err_extend(builds, profiles, mode, filter, release, i, n - 1);
    }
}

/// Flattens the command line's feature arguments, splitting each on spaces.
fn split_features_exec(features: &Vec<String>) -> (r: Vec<String>)
    ensures
        r.deep_view() == split_features(features.deep_view(), features@.len() as int),
{
    let ghost fd = features.deep_view();
    let mut out: Vec<String> = Vec::new();
    proof {
        assert(out.deep_view() =~= Seq::<Seq<char>>::empty());
    }
    let mut i: usize = 0;
    while i < features.len()
        invariant
            i <= features.len(),
            fd == features.deep_view(),
            fd.len() == features@.len(),
            out.deep_view() == split_features(fd, i as int),
        decreases features.len() - i,
    {
        let parts = split_spaces_exec(features[i].as_str());
        crate::build_config::extend_strings(&mut out, &parts);
        proof {
            assert(fd[i as int] == features@[i as int]@);
        }
        i = i + 1;
    }
    out
}

/// Resolves every requested package spec to a package id of the graph.
fn query_requested(resolve: &Resolve, specs: &Vec<String>) -> (r: Result<Vec<PackageId>, QueryError>)
    ensures
        match r {
            Ok(ids) => query_specs(resolve.deep_view(), specs.deep_view(), specs@.len() as int)
                == Ok::<_, QueryErrorView>(ids.deep_view()),
            Err(e) => query_specs(resolve.deep_view(), specs.deep_view(), specs@.len() as int)
                == Err::<Seq<PackageIdView>, _>(e.deep_view()),
        },
{
    let ghost sd = specs.deep_view();
    let mut ids: Vec<PackageId> = Vec::new();
    proof {
        assert(ids.deep_view() =~= Seq::<PackageIdView>::empty());
    }
    let mut i: usize = 0;
    while i < specs.len()
        invariant
            i <= specs.len(),
            sd == specs.deep_view(),
            sd.len() == specs@.len(),
            query_specs(resolve.deep_view(), sd, i as int) == Ok::<_, QueryErrorView>(
                ids.deep_view(),
            ),
        decreases specs.len() - i,
    {
        proof {
            assert(sd[i as int] == specs@[i as int]@);
        }
        match resolve.query(&specs[i]) {
            Ok(id) => {
                let ghost pre = ids.deep_view();
                let ghost x = id.deep_view();
                ids.push(id);
                proof {
                    assert(ids.deep_view() =~= pre.push(x));
                }
            },
            Err(e) => {
                proof {
                    lemma_query_specs_err_extend(resolve.deep_view(), sd, i + 1, specs@.len() as int);
                }
                return Err(e);
            },
        }
        i = i + 1;
    }
    Ok(ids)
}

/// Fetches from the set the package of every resolved id, in order.
fn collect_builds(packages: &PackageSet, ids: &Vec<PackageId>) -> (r: Result<Vec<Package>, QueryError>)
    ensures
        match r {
            Ok(b) => lookup_builds(packages.deep_view(), ids.deep_view(), ids@.len() as int)
                == Ok::<_, QueryErrorView>(b.deep_view()),
            Err(e) => lookup_builds(packages.deep_view(), ids.deep_view(), ids@.len() as int)
                == Err::<Seq<PackageView>, _>(e.deep_view()),
        },
{
    let ghost idsv = ids.deep_view();
    let mut builds: Vec<Package> = Vec::new();
    proof {
        assert(builds.deep_view() =~= Seq::<PackageView>::empty());
    }
    let mut i: usize = 0;
    while i < ids.len()
        invariant
            i <= ids.len(),
            idsv == ids.deep_view(),
            idsv.len() == ids@.len(),
            lookup_builds(packages.deep_view(), idsv, i as int) == Ok::<_, QueryErrorView>(
                builds.deep_view(),
            ),
        decreases ids.len() - i,
    {
        proof {
            assert(idsv[i as int] == ids@[i as int].deep_view());
        }
        match packages.get(&ids[i]) {
            Ok(p) => {
                let cloned = p.clone();
                let ghost pre = builds.deep_view();
                let ghost x = cloned.deep_view();
                builds.push(cloned);
                proof {
                    assert(builds.deep_view() =~= pre.push(x));
                }
            },
            Err(e) => {
                proof {
                    lemma_lookup_builds_err_extend(packages.deep_view(), idsv, i + 1, ids@.len() as int);
                }
                return Err(e);
            },
        }
        i = i + 1;
    }
    Ok(builds)
}

/// Selects the targets of every package to build, each under the root
/// package's profiles.
fn plan_each_build(
    builds: &Vec<Package>,
    profiles: &crate::manifest::Profiles,
    mode: CompileMode,
    filter: &CompileFilter,
    release: bool,
) -> (r: Result<Vec<(PackageId, Vec<(Target, Profile)>)>, SelectError>)
    ensures
        match r {
            Ok(pt) => targets_per_build(
                builds.deep_view(),
                profiles.deep_view(),
                mode,
                filter.deep_view(),
                release,
                builds@.len() as int,
            ) == Ok::<_, SelectErrorView>(pt.deep_view()),
            Err(e) => targets_per_build(
                builds.deep_view(),
                profiles.deep_view(),
                mode,
                filter.deep_view(),
                release,
                builds@.len() as int,
            ) == Err::<Seq<(PackageIdView, Seq<(TargetView, ProfileView)>)>, _>(e.deep_view()),
        },
{
    let ghost bd = builds.deep_view();
    let ghost pv = profiles.deep_view();
    let ghost fv = filter.deep_view();
    let mut out: Vec<(PackageId, Vec<(Target, Profile)>)> = Vec::new();
    proof {
        assert(out.deep_view() =~= Seq::<(PackageIdView, Seq<(TargetView, ProfileView)>)>::empty());
    }
    let mut k: usize = 0;
    while k < builds.len()
        invariant
            k <= builds.len(),
            bd == builds.deep_view(),
            bd.len() == builds@.len(),
            pv == profiles.deep_view(),
            fv == filter.deep_view(),
            targets_per_build(bd, pv, mode, fv, release, k as int) == Ok::<_, SelectErrorView>(
                out.deep_view(),
            ),
        decreases builds.len() - k,
    {
        proof {
            assert(bd[k as int] == builds@[k as int].deep_view());
        }
        match generate_targets(&builds[k], profiles, mode, filter, release) {
            Ok(targets) => {
                let entry = (builds[k].id.clone(), targets);
                let ghost pre = out.deep_view();
                let ghost x = entry.deep_view();
                out.push(entry);
                proof {
                    assert(out.deep_view() =~= pre.push(x));
                }
            },
            Err(e) => {
                proof {
                    lemma_targets_per_build_err_extend(bd, pv, mode, fv, release, k + 1, builds@.len() as int);
                }
                return Err(e);
            },
        }
        k = k + 1;
    }
    Ok(out)
}

/// Ties the pipeline together: validates the job count, fails fast on a
/// bad filter before the potentially expensive resolution when no package
/// spec narrows the build, resolves dependencies in two phases with the
/// given preloaded and override sources, resolves each requested spec to a
/// concrete package, selects every package's targets (or applies the
/// single-target extra-args override), scrapes and stamps the build
/// configuration, and returns the finished plan for the compilation
/// engine, with the packages eligible for doctests.
#[verifier::rlimit(100)]
pub fn compile_pkg(
    root_package: &Package,
    registry: &mut PackageRegistry,
    preloaded: Option<SourceModel>,
    override_sources: Vec<SourceModel>,
    config: &Config,
    options: &CompileOptions,
) -> (r: Result<CompilePlan, CompileError>)
    requires
        (options.target_rustc_args is Some || options.target_rustdoc_args is Some)
            ==> options.specs@.len() <= 1,
    ensures
        match r {
            Ok(plan) => exists|fb: u32|
                fb >= 1 && spec_compile_pkg(
                    root_package.deep_view(),
                    old(registry).deep_view(),
                    preloaded.deep_view(),
                    override_sources.deep_view(),
                    config.deep_view(),
                    options.deep_view(),
                    fb,
                ) == Ok::<_, CompileErrorView>(plan.deep_view()),
            Err(e) => spec_compile_pkg(
                root_package.deep_view(),
                old(registry).deep_view(),
                preloaded.deep_view(),
                override_sources.deep_view(),
                config.deep_view(),
                options.deep_view(),
                1,
            ) == Err::<CompilePlanView, _>(e.deep_view()),
        },
        final(registry).deep_view() == spec_final_registry(
            root_package.deep_view(),
            old(registry).deep_view(),
            preloaded.deep_view(),
            override_sources.deep_view(),
            options.deep_view(),
        ),
{
    let ghost pkgv = root_package.deep_view();
    let ghost regv = registry.deep_view();
    let ghost prev = preloaded.deep_view();
    let ghost ovrv = override_sources.deep_view();
    let ghost cfgv = config.deep_view();
    let ghost optv = options.deep_view();
    match options.jobs {
        Some(j) => {
            if j == 0 {
                return Err(CompileError::JobsZero);
            }
        },
        None => {},
    }
    let profiles = &root_package.profiles;
    if options.specs.len() == 0 {
        match generate_targets(root_package, profiles, options.mode, &options.filter, options.release) {
            Ok(_) => {},
            Err(e) => {
                return Err(CompileError::Select(e));
            },
        }
    }
    let flat_features = split_features_exec(&options.features);
    let ghost flatv = flat_features.deep_view();
    let (packages, resolve) = match resolve_dependencies(
        root_package,
        registry,
        preloaded,
        override_sources,
        flat_features,
        options.no_default_features,
    ) {
        Ok(pr) => pr,
        Err(e) => {
            return Err(CompileError::Resolution(e));
        },
    };
    let pkgids: Vec<PackageId>;
    if options.specs.len() > 0 {
        match query_requested(&resolve, &options.specs) {
            Ok(ids) => {
                pkgids = ids;
            },
            Err(e) => {
                return Err(CompileError::Query(e));
            },
        }
    } else {
        let mut ids: Vec<PackageId> = Vec::new();
        ids.push(root_package.id.clone());
        proof {
            assert(ids.deep_view() =~= seq![pkgv.id]);
        }
        pkgids = ids;
    }
    let ghost idsv = pkgids.deep_view();
    let to_builds: Vec<Package> = match collect_builds(&packages, &pkgids) {
        Ok(b) => b,
        Err(e) => {
            return Err(CompileError::Query(e));
        },
    };
    let ghost buildsv = to_builds.deep_view();
    let rustc_override: bool = options.target_rustc_args.is_some();
    let rustdoc_override: bool = !rustc_override && options.target_rustdoc_args.is_some();
    let mut package_targets: Vec<(PackageId, Vec<(Target, Profile)>)> = Vec::new();
    proof {
        assert(package_targets.deep_view() =~= Seq::<
            (PackageIdView, Seq<(TargetView, ProfileView)>),
        >::empty());
    }
    if rustc_override || rustdoc_override {
        let targets = match generate_targets(
            &to_builds[0],
            profiles,
            options.mode,
            &options.filter,
            options.release,
        ) {
            Ok(t) => t,
            Err(e) => {
                return Err(CompileError::Select(e));
            },
        };
        if targets.len() != 1 {
            return Err(CompileError::ExtraArgsMultipleTargets { rustdoc: rustdoc_override });
        }
        let (t0, p0) = (&targets[0].0, &targets[0].1);
        let mut p = p0.clone();
        if rustc_override {
            match &options.target_rustc_args {
                Some(args) => {
                    p.rustc_args = Some(clone_string_vec(args));
                },
                None => {},
            }
        } else {
            match &options.target_rustdoc_args {
                Some(args) => {
                    p.rustdoc_args = Some(clone_string_vec(args));
                },
                None => {},
            }
        }
        let ghost pairv: (TargetView, ProfileView) = (t0.deep_view(), p.deep_view());
        proof {
            let sel = spec_generate_targets(buildsv[0], pkgv.profiles, optv.mode, optv.filter, optv.release)->Ok_0;
            assert(targets.deep_view() =~= sel);
            assert(sel[0] == (t0.deep_view(), p0.deep_view()));
            if rustc_override {
                assert(p.deep_view() == with_extra_args(
                    p0.deep_view(),
                    optv.target_rustc_args->Some_0,
                    false,
                ));
            } else {
                assert(p.deep_view() == with_extra_args(
                    p0.deep_view(),
                    optv.target_rustdoc_args->Some_0,
                    true,
                ));
            }
        }
        let mut k: usize = 0;
        while k < to_builds.len()
            invariant
                k <= to_builds.len(),
                buildsv == to_builds.deep_view(),
                buildsv.len() == to_builds@.len(),
                pairv == (t0.deep_view(), p.deep_view()),
                package_targets.deep_view() == override_targets(buildsv, pairv, k as int),
            decreases to_builds.len() - k,
        {
            let entry = (to_builds[k].id.clone(), vec![(t0.clone(), p.clone())]);
            let ghost pre = package_targets.deep_view();
            let ghost x = entry.deep_view();
            proof {
                assert(entry.1.deep_view() =~= seq![pairv]);
                assert(x == (buildsv[k as int].id, seq![pairv]));
            }
            package_targets.push(entry);
            proof {
                assert(package_targets.deep_view() =~= pre.push(x));
            }
            k = k + 1;
        }
    } else {
        match plan_each_build(&to_builds, profiles, options.mode, &options.filter, options.release) {
            Ok(pt) => {
                package_targets = pt;
            },
            Err(e) => {
                return Err(CompileError::Select(e));
            },
        }
    }
    let mut build_config = match scrape_build_config(config, options.jobs, clone_opt_string(&options.target)) {
        Ok(bc) => bc,
        Err(e) => {
            return Err(CompileError::Config(e));
        },
    };
    let ghost bco = build_config.deep_view();
    build_config.release = options.release;
    build_config.test = options.mode == CompileMode::Test;
    build_config.doc_all = match options.mode {
        CompileMode::Doc { deps } => deps,
        _ => false,
    };
    proof {
        assert(build_config.deep_view() == stamp_build_config(bco, optv.release, optv.mode));
    }
    let plan = CompilePlan {
        package_targets,
        packages,
        resolve,
        build_config,
        to_doc_test: to_builds,
    };
    proof {
        let fb = choose|fb: u32|
            fb >= 1 && spec_scrape_build_config(cfgv, optv.jobs, optv.target, fb) == Ok::<
                BuildConfigView,
                ConfigErrorView,
            >(bco);
        assert(spec_compile_pkg(pkgv, regv, prev, ovrv, cfgv, optv, fb) == Ok::<
            _,
            CompileErrorView,
        >(plan.deep_view()));
    }
    Ok(plan)
}

/// Clones an optional string.
fn clone_opt_string(s: &Option<String>) -> (r: Option<String>)
    ensures
        r.deep_view() == s.deep_view(),
{
    match s {
        None => None,
        Some(inner) => Some(inner.clone()),
    }
}

} // verus!
