//! The source registry and the resolver driver: sources (already updated
//! and scanned, so their package lists are plain data here), override
//! precedence, override-path discovery from configuration, the two-phase
//! resolution workflow, and the materialized package set.

use vstd::prelude::*;

use crate::config::{Config, ConfigError, ConfigErrorView, ConfigView, spec_get_list};
use crate::manifest::{Package, PackageId, PackageIdView, PackageView, SourceId, clone_string_vec};
use crate::text::{parent_dir, path_join, spec_parent_dir, spec_path_join};

verus! {

/// Mathematical image of a [`SourceModel`].
pub ghost struct SourceModelView {
    pub id: crate::manifest::SourceIdView,
    pub packages: Seq<PackageView>,
}

/// One provider of packages, after its update/scan has run: its identity
/// and the packages it offers, in its own order.
#[derive(Debug)]
pub struct SourceModel {
    pub id: SourceId,
    pub packages: Vec<Package>,
}

impl DeepView for SourceModel {
    type V = SourceModelView;

    open spec fn deep_view(&self) -> SourceModelView {
        SourceModelView { id: self.id.deep_view(), packages: self.packages.deep_view() }
    }
}

impl Clone for SourceModel {
    fn clone(&self) -> (r: Self)
        ensures
            r.deep_view() == self.deep_view(),
    {
        let mut packages: Vec<Package> = Vec::new();
        let mut i: usize = 0;
        while i < self.packages.len()
            invariant
                i <= self.packages.len(),
                packages.deep_view() =~= self.packages.deep_view().take(i as int),
            decreases self.packages.len() - i,
        {
            let p = self.packages[i].clone();
            let ghost predv = packages.deep_view();
            let ghost x = p.deep_view();
            packages.push(p);
            proof {
                assert(packages.deep_view() =~= predv.push(x));
                assert(predv.push(x) =~= self.packages.deep_view().take(i + 1));
            }
            i = i + 1;
        }
        proof {
            assert(packages.deep_view() =~= self.packages.deep_view());
        }
        SourceModel { id: self.id.clone(), packages }
    }
}

/// Mathematical image of a [`PackageRegistry`].
pub ghost struct RegistryView {
    pub sources: Seq<SourceModelView>,
    pub preloaded: Seq<SourceModelView>,
    pub overrides: Seq<SourceModelView>,
}

/// The registry of sources one resolution works against: ordinary sources,
/// preloaded sources that must not be fetched again (the root package's
/// own source), and override sources, which take precedence over every
/// other source during dependency lookup.
#[derive(Debug)]
pub struct PackageRegistry {
    pub sources: Vec<SourceModel>,
    pub preloaded: Vec<SourceModel>,
    pub overrides: Vec<SourceModel>,
}

impl DeepView for PackageRegistry {
    type V = RegistryView;

    open spec fn deep_view(&self) -> RegistryView {
        RegistryView {
            sources: self.sources.deep_view(),
            preloaded: self.preloaded.deep_view(),
            overrides: self.overrides.deep_view(),
        }
    }
}

impl PackageRegistry {
    /// A registry with the given ordinary sources and nothing else.
    pub fn new(sources: Vec<SourceModel>) -> (r: PackageRegistry)
        ensures
            r.deep_view().sources == sources.deep_view(),
            r.deep_view().preloaded == Seq::<SourceModelView>::empty(),
            r.deep_view().overrides == Seq::<SourceModelView>::empty(),
    {
        let preloaded: Vec<SourceModel> = Vec::new();
        let overrides: Vec<SourceModel> = Vec::new();
        proof {
            assert(preloaded.deep_view() =~= Seq::<SourceModelView>::empty());
            assert(overrides.deep_view() =~= Seq::<SourceModelView>::empty());
        }
        PackageRegistry { sources, preloaded, overrides }
    }

    /// Registers a source the registry should not fetch again.
    pub fn add_preloaded(&mut self, source: SourceModel)
        ensures
            final(self).preloaded@ == old(self).preloaded@.push(source),
            final(self).sources == old(self).sources,
            final(self).overrides == old(self).overrides,
            final(self).deep_view().preloaded == old(self).deep_view().preloaded.push(
                source.deep_view(),
            ),
    {
        let ghost pre = self.preloaded.deep_view();
        let ghost x = source.deep_view();
        self.preloaded.push(source);
        proof {
            assert(self.preloaded.deep_view() =~= pre.push(x));
        }
    }

    /// Registers a source that takes precedence over any other source
    /// sharing its identity during dependency queries.
    pub fn add_override(&mut self, source: SourceModel)
        ensures
            final(self).overrides@ == old(self).overrides@.push(source),
            final(self).sources == old(self).sources,
            final(self).preloaded == old(self).preloaded,
            final(self).deep_view().overrides == old(self).deep_view().overrides.push(
                source.deep_view(),
            ),
    {
        let ghost pre = self.overrides.deep_view();
        let ghost x = source.deep_view();
        self.overrides.push(source);
        proof {
            assert(self.overrides.deep_view() =~= pre.push(x));
        }
    }
}

/// Mathematical image of an [`OverridePlan`].
pub ghost struct OverridePlanView {
    pub path: Seq<char>,
    pub definition: Seq<char>,
}

/// One override source to construct: the path to scan (already resolved
/// against the directory of the config file that declared it) and that
/// config file, kept for diagnostics.
#[derive(Debug)]
pub struct OverridePlan {
    pub path: String,
    pub definition: String,
}

impl DeepView for OverridePlan {
    type V = OverridePlanView;

    open spec fn deep_view(&self) -> OverridePlanView {
        OverridePlanView { path: self.path@, definition: self.definition@ }
    }
}

/// The override path a `paths` entry denotes: the entry's value resolved
/// against the directory that holds the directory of its defining config
/// file (the file sits one directory down, so two components come off).
pub open spec fn override_candidate(entry: (Seq<char>, Seq<char>)) -> Seq<char> {
    spec_path_join(spec_parent_dir(spec_parent_dir(entry.1)), entry.0)
}

/// The override plans of the first `i` entries of the `paths` list, in
/// order; an entry whose resolved path is exactly the root package's own
/// directory is silently excluded, so a package never overrides itself.
pub open spec fn plans_from(entries: Seq<(Seq<char>, Seq<char>)>, cur_path: Seq<char>, i: int) -> Seq<
    OverridePlanView,
>
    decreases i,
{
    if i <= 0 {
        Seq::empty()
    } else {
        let rest = plans_from(entries, cur_path, i - 1);
        let candidate = override_candidate(entries[i - 1]);
        if candidate == cur_path {
            rest
        } else {
            rest.push(OverridePlanView { path: candidate, definition: entries[i - 1].1 })
        }
    }
}

/// The full contract of [`plan_overrides`]: the `paths` configuration list
/// turned into override plans, the root package's own directory excluded.
pub open spec fn spec_plan_overrides(cfg: ConfigView, cur_path: Seq<char>) -> Result<
    Seq<OverridePlanView>,
    ConfigErrorView,
> {
    match spec_get_list(cfg, "paths"@) {
        Err(e) => Err(e),
        Ok(None) => Ok(Seq::empty()),
        Ok(Some(l)) => Ok(plans_from(l.val, cur_path, l.val.len() as int)),
    }
}

/// Reads the `paths` configuration list and plans the override sources to
/// construct: each entry resolves relative to the directory containing the
/// config file that declared it, and an entry equal to the root package's
/// own directory is skipped without error.
pub fn plan_overrides(config: &Config, cur_path: &String) -> (r: Result<
    Vec<OverridePlan>,
    ConfigError,
>)
    ensures
        match r {
            Ok(v) => spec_plan_overrides(config.deep_view(), cur_path@) == Ok::<
                _,
                ConfigErrorView,
            >(v.deep_view()),
            Err(e) => spec_plan_overrides(config.deep_view(), cur_path@) == Err::<
                Seq<OverridePlanView>,
                _,
            >(e.deep_view()),
        },
{
    let entries: Vec<(String, String)> = match config.get_list(&"paths".to_owned()) {
        Err(e) => {
            return Err(e);
        },
        Ok(None) => {
            let empty_plans: Vec<OverridePlan> = Vec::new();
            proof {
                assert(empty_plans.deep_view() =~= Seq::<OverridePlanView>::empty());
            }
            return Ok(empty_plans);
        },
        Ok(Some(l)) => l.val,
    };
    let ghost ed = entries.deep_view();
    let mut plans: Vec<OverridePlan> = Vec::new();
    proof {
        assert(plans.deep_view() =~= Seq::<OverridePlanView>::empty());
    }
    let mut i: usize = 0;
    while i < entries.len()
        invariant
            i <= entries.len(),
            ed == entries.deep_view(),
            ed.len() == entries@.len(),
            plans.deep_view() == plans_from(ed, cur_path@, i as int),
        decreases entries.len() - i,
    {
        let dir = parent_dir(parent_dir(entries[i].1.as_str()).as_str());
        let candidate = path_join(dir.as_str(), entries[i].0.as_str());
        proof {
            assert(ed[i as int] == (entries@[i as int].0@, entries@[i as int].1@));
            assert(candidate@ == override_candidate(ed[i as int]));
        }
        if candidate == *cur_path {
        } else {
            let ghost pre = plans.deep_view();
            let plan = OverridePlan { path: candidate, definition: entries[i].1.clone() };
            let ghost x = plan.deep_view();
            plans.push(plan);
            proof {
                assert(plans.deep_view() =~= pre.push(x));
            }
        }
        i = i + 1;
    }
    Ok(plans)
}

/// No planned override points at the root package's own directory.
pub proof fn lemma_no_self_override(entries: Seq<(Seq<char>, Seq<char>)>, cur_path: Seq<char>, i: int)
    ensures
        forall|j: int|
            0 <= j < plans_from(entries, cur_path, i).len() ==> (#[trigger] plans_from(
                entries,
                cur_path,
                i,
            )[j]).path != cur_path,
    decreases i,
{
    if i > 0 {
        lemma_no_self_override(entries, cur_path, i - 1);
        let rest = plans_from(entries, cur_path, i - 1);
        let cur = plans_from(entries, cur_path, i);
        assert forall|j: int| 0 <= j < cur.len() implies (#[trigger] cur[j]).path != cur_path by {
            if j < rest.len() {
                assert(cur[j] == rest[j]);
            }
        }
    }
}

/// Mathematical image of a [`ResolveError`].
pub ghost enum ResolveErrorView {
    UnknownFeature { name: Seq<char> },
    MissingDependency { name: Seq<char> },
    NotLoaded { name: Seq<char> },
}

/// A failure of dependency resolution or of package materialization.
#[derive(Debug)]
pub enum ResolveError {
    /// A requested feature is not declared by the root package.
    UnknownFeature { name: String },
    /// An enabled dependency is offered by no registered source.
    MissingDependency { name: String },
    /// A resolved package id could not be materialized from any source.
    NotLoaded { name: String },
}

impl DeepView for ResolveError {
    type V = ResolveErrorView;

    open spec fn deep_view(&self) -> ResolveErrorView {
        match self {
            ResolveError::UnknownFeature { name } => ResolveErrorView::UnknownFeature { name: name@ },
            ResolveError::MissingDependency { name } => ResolveErrorView::MissingDependency {
                name: name@,
            },
            ResolveError::NotLoaded { name } => ResolveErrorView::NotLoaded { name: name@ },
        }
    }
}

/// Mathematical image of a [`Resolve`].
pub ghost struct ResolveView {
    pub root: PackageIdView,
    pub nodes: Seq<PackageIdView>,
}

/// The immutable graph a resolution produced: the root package id followed
/// by the chosen package of every enabled dependency, in declaration
/// order. A second resolution never mutates it; it produces a new one.
#[derive(Debug)]
pub struct Resolve {
    pub root: PackageId,
    pub nodes: Vec<PackageId>,
}

impl DeepView for Resolve {
    type V = ResolveView;

    open spec fn deep_view(&self) -> ResolveView {
        ResolveView { root: self.root.deep_view(), nodes: self.nodes.deep_view() }
    }
}

/// Mathematical image of a [`Method`].
pub ghost enum MethodView {
    Everything,
    Required { features: Seq<Seq<char>>, uses_default_features: bool },
}

/// How a resolution treats features: `Everything` enables every
/// dependency, optional ones included; `Required` enables the mandatory
/// dependencies plus those the active features turn on.
#[derive(Debug)]
pub enum Method {
    Everything,
    Required { features: Vec<String>, uses_default_features: bool },
}

impl DeepView for Method {
    type V = MethodView;

    open spec fn deep_view(&self) -> MethodView {
        match self {
            Method::Everything => MethodView::Everything,
            Method::Required { features, uses_default_features } => MethodView::Required {
                features: features.deep_view(),
                uses_default_features: *uses_default_features,
            },
        }
    }
}

/// Whether the package declares a feature with the given name.
pub open spec fn feature_declared(pkg: PackageView, f: Seq<char>) -> bool {
    exists|j: int| 0 <= j < pkg.features.len() && pkg.features[j].name == f
}

/// The first requested feature the package does not declare, among the
/// first `i` requested.
pub open spec fn first_undeclared(pkg: PackageView, fs: Seq<Seq<char>>, i: int) -> Option<Seq<char>>
    decreases i,
{
    if i <= 0 {
        None
    } else {
        match first_undeclared(pkg, fs, i - 1) {
            Some(f) => Some(f),
            None => if !feature_declared(pkg, fs[i - 1]) {
                Some(fs[i - 1])
            } else {
                None
            },
        }
    }
}

/// Whether a dependency takes part in resolution: mandatory dependencies
/// always do, optional ones only when an active feature enables them.
pub open spec fn dep_enabled(pkg: PackageView, dep: crate::manifest::DependencyView, active: Seq<Seq<char>>) -> bool {
    !dep.optional || exists|i: int, j: int|
        0 <= i < active.len() && 0 <= j < pkg.features.len() && pkg.features[j].name == active[i]
            && pkg.features[j].enables.contains(dep.name)
}

/// The first package with the given name among the first `i` packages.
pub open spec fn find_pkg_named(pkgs: Seq<PackageView>, name: Seq<char>, i: int) -> Option<PackageIdView>
    decreases i,
{
    if i <= 0 {
        None
    } else {
        match find_pkg_named(pkgs, name, i - 1) {
            Some(p) => Some(p),
            None => if pkgs[i - 1].id.name == name {
                Some(pkgs[i - 1].id)
            } else {
                None
            },
        }
    }
}

/// The first source among the first `i` that offers a package with the
/// given name, and that package's id.
pub open spec fn find_in_sources(srcs: Seq<SourceModelView>, name: Seq<char>, i: int) -> Option<
    PackageIdView,
>
    decreases i,
{
    if i <= 0 {
        None
    } else {
        match find_in_sources(srcs, name, i - 1) {
            Some(p) => Some(p),
            None => find_pkg_named(srcs[i - 1].packages, name, srcs[i - 1].packages.len() as int),
        }
    }
}

/// Whether some source among the given ones offers a package with this id.
pub open spec fn id_offered(srcs: Seq<SourceModelView>, id: PackageIdView) -> bool {
    exists|i: int, j: int|
        0 <= i < srcs.len() && 0 <= j < srcs[i].packages.len() && srcs[i].packages[j].id == id
}

/// The node of a previous resolution that a dependency name can reuse: the
/// first previously chosen package with that name that some ordinary or
/// preloaded source still offers, among the first `i` nodes.
pub open spec fn previous_pick(reg: RegistryView, nodes: Seq<PackageIdView>, name: Seq<char>, i: int) -> Option<
    PackageIdView,
>
    decreases i,
{
    if i <= 0 {
        None
    } else {
        match previous_pick(reg, nodes, name, i - 1) {
            Some(p) => Some(p),
            None => if nodes[i - 1].name == name && (id_offered(reg.preloaded, nodes[i - 1])
                || id_offered(reg.sources, nodes[i - 1])) {
                Some(nodes[i - 1])
            } else {
                None
            },
        }
    }
}

/// The package chosen for one dependency name: an override source wins
/// outright; otherwise the previous resolution's choice is kept when it is
/// still offered (the stability anchor); otherwise the first offer among
/// preloaded, then ordinary sources.
pub open spec fn choose_dep_pkg(reg: RegistryView, name: Seq<char>, previous: Option<ResolveView>) -> Option<
    PackageIdView,
> {
    match find_in_sources(reg.overrides, name, reg.overrides.len() as int) {
        Some(p) => Some(p),
        None => {
            let prev_pick = match previous {
                Some(r) => previous_pick(reg, r.nodes, name, r.nodes.len() as int),
                None => None,
            };
            match prev_pick {
                Some(p) => Some(p),
                None => match find_in_sources(reg.preloaded, name, reg.preloaded.len() as int) {
                    Some(p) => Some(p),
                    None => find_in_sources(reg.sources, name, reg.sources.len() as int),
                },
            }
        },
    }
}

/// The chosen packages of the first `i` declared dependencies that the
/// active features enable (or of all of them, under `Everything`), in
/// declaration order.
pub open spec fn resolve_deps(
    pkg: PackageView,
    reg: RegistryView,
    everything: bool,
    active: Seq<Seq<char>>,
    previous: Option<ResolveView>,
    i: int,
) -> Result<Seq<PackageIdView>, ResolveErrorView>
    decreases i,
{
    if i <= 0 {
        Ok(Seq::empty())
    } else {
        match resolve_deps(pkg, reg, everything, active, previous, i - 1) {
            Err(e) => Err(e),
            Ok(nodes) => {
                let dep = pkg.dependencies[i - 1];
                if everything || dep_enabled(pkg, dep, active) {
                    match choose_dep_pkg(reg, dep.name, previous) {
                        Some(id) => Ok(nodes.push(id)),
                        None => Err(ResolveErrorView::MissingDependency { name: dep.name }),
                    }
                } else {
                    Ok(nodes)
                }
            },
        }
    }
}

/// The features a `Required` method activates: the requested ones, plus
/// the declared defaults when default features are in use.
pub open spec fn active_features(pkg: PackageView, features: Seq<Seq<char>>, uses_default: bool) -> Seq<
    Seq<char>,
> {
    features + if uses_default {
        pkg.default_features
    } else {
        Seq::<Seq<char>>::empty()
    }
}

/// The full contract of [`resolve_with_previous`]: the new graph one
/// resolution of the root package produces against the registry, under the
/// method, reusing the previous graph as a stability anchor when given.
pub open spec fn spec_resolve(
    pkg: PackageView,
    reg: RegistryView,
    method: MethodView,
    previous: Option<ResolveView>,
) -> Result<ResolveView, ResolveErrorView> {
    match method {
        MethodView::Everything => match resolve_deps(
            pkg,
            reg,
            true,
            Seq::empty(),
            previous,
            pkg.dependencies.len() as int,
        ) {
            Err(e) => Err(e),
            Ok(nodes) => Ok(ResolveView { root: pkg.id, nodes: seq![pkg.id] + nodes }),
        },
        MethodView::Required { features, uses_default_features } => match first_undeclared(
            pkg,
            features,
            features.len() as int,
        ) {
            Some(f) => Err(ResolveErrorView::UnknownFeature { name: f }),
            None => match resolve_deps(
                pkg,
                reg,
                false,
                active_features(pkg, features, uses_default_features),
                previous,
                pkg.dependencies.len() as int,
            ) {
                Err(e) => Err(e),
                Ok(nodes) => Ok(ResolveView { root: pkg.id, nodes: seq![pkg.id] + nodes }),
            },
        },
    }
}

/// A previous resolution passed by reference, as its graph.
pub open spec fn prev_view(p: Option<&Resolve>) -> Option<ResolveView> {
    match p {
        Some(r) => Some(r.deep_view()),
        None => None,
    }
}

/// Whether `name` occurs among `names`, by linear search.
fn string_vec_has(names: &Vec<String>, name: &String) -> (r: bool)
    ensures
        r == names.deep_view().contains(name@),
{
    let mut i: usize = 0;
    while i < names.len()
        invariant
            i <= names.len(),
            forall|j: int| 0 <= j < i ==> names.deep_view()[j] != name@,
        decreases names.len() - i,
    {
        if names[i] == *name {
            assert(names.deep_view()[i as int] == name@);
            return true;
        }
        i = i + 1;
    }
    false
}

/// Whether the package declares the feature.
fn is_feature_declared(pkg: &Package, f: &String) -> (r: bool)
    ensures
        r == feature_declared(pkg.deep_view(), f@),
{
    let mut i: usize = 0;
    while i < pkg.features.len()
        invariant
            i <= pkg.features.len(),
            forall|j: int| 0 <= j < i ==> pkg.deep_view().features[j].name != f@,
        decreases pkg.features.len() - i,
    {
        if pkg.features[i].name == *f {
            assert(pkg.deep_view().features[i as int].name == f@);
            return true;
        }
        i = i + 1;
    }
    false
}

/// Whether the active features enable the dependency.
fn dep_enabled_exec(pkg: &Package, dep: &crate::manifest::Dependency, active: &Vec<String>) -> (r: bool)
    ensures
        r == dep_enabled(pkg.deep_view(), dep.deep_view(), active.deep_view()),
{
    if !dep.optional {
        return true;
    }
    let ghost pv = pkg.deep_view();
    let ghost av = active.deep_view();
    let mut i: usize = 0;
    while i < active.len()
        invariant
            i <= active.len(),
            pv == pkg.deep_view(),
            av == active.deep_view(),
            av.len() == active@.len(),
            forall|a: int, b: int|
                0 <= a < i && 0 <= b < pv.features.len() ==> !(pv.features[b].name == av[a]
                    && pv.features[b].enables.contains(dep.deep_view().name)),
        decreases active.len() - i,
    {
        let mut j: usize = 0;
        while j < pkg.features.len()
            invariant
                i < active.len(),
                j <= pkg.features.len(),
                pv == pkg.deep_view(),
                av == active.deep_view(),
                av.len() == active@.len(),
                pv.features.len() == pkg.features@.len(),
                forall|b: int|
                    0 <= b < j ==> !(pv.features[b].name == av[i as int] && pv.features[b].enables.contains(
                        dep.deep_view().name,
                    )),
            decreases pkg.features.len() - j,
        {
            if pkg.features[j].name == active[i] && string_vec_has(&pkg.features[j].enables, &dep.name) {
                proof {
                    assert(pv.features[j as int].name == av[i as int]);
                    assert(pv.features[j as int].enables.contains(dep.deep_view().name));
                }
                return true;
            }
            j = j + 1;
        }
        i = i + 1;
    }
    false
}

/// Once a name lookup among packages succeeds, looking further does not
/// change it.
proof fn lemma_find_pkg_named_extend(pkgs: Seq<PackageView>, name: Seq<char>, i: int, n: int)
    requires
        0 <= i <= n,
        find_pkg_named(pkgs, name, i) is Some,
    ensures
        find_pkg_named(pkgs, name, n) == find_pkg_named(pkgs, name, i),
    decreases n,
{
    if n > i {
        lemma_find_pkg_named_extend(pkgs, name, i, n - 1);
    }
}

/// Once a source offers the name, scanning more sources does not change it.
proof fn lemma_find_in_sources_extend(srcs: Seq<SourceModelView>, name: Seq<char>, i: int, n: int)
    requires
        0 <= i <= n,
        find_in_sources(srcs, name, i) is Some,
    ensures
        find_in_sources(srcs, name, n) == find_in_sources(srcs, name, i),
    decreases n,
{
    if n > i {
        lemma_find_in_sources_extend(srcs, name, i, n - 1);
    }
}

/// Once a previous node is picked, scanning more nodes does not change it.
proof fn lemma_previous_pick_extend(
    reg: RegistryView,
    nodes: Seq<PackageIdView>,
    name: Seq<char>,
    i: int,
    n: int,
)
    requires
        0 <= i <= n,
        previous_pick(reg, nodes, name, i) is Some,
    ensures
        previous_pick(reg, nodes, name, n) == previous_pick(reg, nodes, name, i),
    decreases n,
{
    if n > i {
        lemma_previous_pick_extend(reg, nodes, name, i, n - 1);
    }
}

/// Finds the first package with the given name among the packages of one
/// source list.
fn find_pkg_named_exec(pkgs: &Vec<Package>, name: &String) -> (r: Option<PackageId>)
    ensures
        r.deep_view() == find_pkg_named(pkgs.deep_view(), name@, pkgs@.len() as int),
{
    let ghost pd = pkgs.deep_view();
    let mut i: usize = 0;
    while i < pkgs.len()
        invariant
            i <= pkgs.len(),
            pd == pkgs.deep_view(),
            find_pkg_named(pd, name@, i as int) is None,
        decreases pkgs.len() - i,
    {
        if pkgs[i].id.name == *name {
            proof {
                assert(find_pkg_named(pd, name@, i + 1) == Some(pd[i as int].id));
                lemma_find_pkg_named_extend(pd, name@, i + 1, pkgs@.len() as int);
            }
            return Some(pkgs[i].id.clone());
        }
        i = i + 1;
    }
    None
}

/// Finds the first source offering a package with the given name.
fn find_in_sources_exec(srcs: &Vec<SourceModel>, name: &String) -> (r: Option<PackageId>)
    ensures
        r.deep_view() == find_in_sources(srcs.deep_view(), name@, srcs@.len() as int),
{
    let ghost sd = srcs.deep_view();
    let mut i: usize = 0;
    while i < srcs.len()
        invariant
            i <= srcs.len(),
            sd == srcs.deep_view(),
            find_in_sources(sd, name@, i as int) is None,
        decreases srcs.len() - i,
    {
        match find_pkg_named_exec(&srcs[i].packages, name) {
            Some(id) => {
                proof {
                    assert(sd[i as int].packages == srcs@[i as int].packages.deep_view());
                    assert(find_in_sources(sd, name@, i + 1) == Some(id.deep_view()));
                    lemma_find_in_sources_extend(sd, name@, i + 1, srcs@.len() as int);
                }
                return Some(id);
            },
            None => {},
        }
        i = i + 1;
    }
    None
}

/// Whether some source of the list offers a package with this identity.
fn id_offered_exec(srcs: &Vec<SourceModel>, id: &PackageId) -> (r: bool)
    ensures
        r == id_offered(srcs.deep_view(), id.deep_view()),
{
    let ghost sd = srcs.deep_view();
    let mut i: usize = 0;
    while i < srcs.len()
        invariant
            i <= srcs.len(),
            sd == srcs.deep_view(),
            forall|a: int, b: int|
                0 <= a < i && 0 <= b < sd[a].packages.len() ==> sd[a].packages[b].id
                    != id.deep_view(),
        decreases srcs.len() - i,
    {
        let mut j: usize = 0;
        while j < srcs[i].packages.len()
            invariant
                i < srcs.len(),
                j <= srcs@[i as int].packages@.len(),
                sd == srcs.deep_view(),
                sd[i as int].packages.len() == srcs@[i as int].packages@.len(),
                forall|b: int| 0 <= b < j ==> sd[i as int].packages[b].id != id.deep_view(),
            decreases srcs@[i as int].packages@.len() - j,
        {
            if srcs[i].packages[j].id.same_as(id) {
                proof {
                    assert(sd[i as int].packages[j as int].id == id.deep_view());
                }
                return true;
            }
            j = j + 1;
        }
        i = i + 1;
    }
    false
}

/// Finds the previously chosen package for `name` that is still offered.
fn previous_pick_exec(reg: &PackageRegistry, nodes: &Vec<PackageId>, name: &String) -> (r: Option<
    PackageId,
>)
    ensures
        r.deep_view() == previous_pick(reg.deep_view(), nodes.deep_view(), name@, nodes@.len() as int),
{
    let ghost nd = nodes.deep_view();
    let mut i: usize = 0;
    while i < nodes.len()
        invariant
            i <= nodes.len(),
            nd == nodes.deep_view(),
            previous_pick(reg.deep_view(), nd, name@, i as int) is None,
        decreases nodes.len() - i,
    {
        if nodes[i].name == *name {
            let still_offered = id_offered_exec(&reg.preloaded, &nodes[i]) || id_offered_exec(
                &reg.sources,
                &nodes[i],
            );
            if still_offered {
                proof {
                    assert(previous_pick(reg.deep_view(), nd, name@, i + 1) == Some(nd[i as int]));
                    lemma_previous_pick_extend(reg.deep_view(), nd, name@, i + 1, nodes@.len() as int);
                }
                return Some(nodes[i].clone());
            }
        }
        i = i + 1;
    }
    None
}

/// Chooses the package for one dependency name: overrides first, then the
/// previous resolution's still-offered choice, then preloaded and ordinary
/// sources.
fn choose_dep_pkg_exec(reg: &PackageRegistry, name: &String, previous: Option<&Resolve>) -> (r:
    Option<PackageId>)
    ensures
        r.deep_view() == choose_dep_pkg(reg.deep_view(), name@, prev_view(previous)),
{
    match find_in_sources_exec(&reg.overrides, name) {
        Some(id) => Some(id),
        None => {
            let prev_pick = match previous {
                Some(res) => previous_pick_exec(reg, &res.nodes, name),
                None => None,
            };
            match prev_pick {
                Some(id) => Some(id),
                None => match find_in_sources_exec(&reg.preloaded, name) {
                    Some(id) => Some(id),
                    None => find_in_sources_exec(&reg.sources, name),
                },
            }
        },
    }
}

/// Once a requested feature is undeclared, the rest cannot clear that.
proof fn lemma_first_undeclared_extend(pkg: PackageView, fs: Seq<Seq<char>>, i: int, n: int)
    requires
        0 <= i <= n,
        first_undeclared(pkg, fs, i) is Some,
    ensures
        first_undeclared(pkg, fs, n) == first_undeclared(pkg, fs, i),
    decreases n,
{
    if n > i {
        lemma_first_undeclared_extend(pkg, fs, i, n - 1);
    }
}

/// Once dependency resolution errs, the rest cannot clear that.
proof fn lemma_resolve_deps_err_extend(
    pkg: PackageView,
    reg: RegistryView,
    everything: bool,
    active: Seq<Seq<char>>,
    previous: Option<ResolveView>,
    i: int,
    n: int,
)
    requires
        0 <= i <= n,
        resolve_deps(pkg, reg, everything, active, previous, i) is Err,
    ensures
        resolve_deps(pkg, reg, everything, active, previous, n) == resolve_deps(
            pkg,
            reg,
            everything,
            active,
            previous,
            i,
        ),
    decreases n,
{
    if n > i {
        lemma_resolve_deps_err_extend(pkg, reg, everything, active, previous, i, n - 1);
    }
}

/// Resolves the root package's dependencies against the registry under the
/// given method, reusing a previous resolution as a stability anchor when
/// one is given. Produces a new graph; it never mutates the previous one.
pub fn resolve_with_previous(
    registry: &PackageRegistry,
    pkg: &Package,
    method: &Method,
    previous: Option<&Resolve>,
) -> (r: Result<Resolve, ResolveError>)
    ensures
        match r {
            Ok(res) => spec_resolve(
                pkg.deep_view(),
                registry.deep_view(),
                method.deep_view(),
                prev_view(previous),
            ) == Ok::<_, ResolveErrorView>(res.deep_view()),
            Err(e) => spec_resolve(
                pkg.deep_view(),
                registry.deep_view(),
                method.deep_view(),
                prev_view(previous),
            ) == Err::<ResolveView, _>(e.deep_view()),
        },
{
    let ghost pv = pkg.deep_view();
    let ghost rv = registry.deep_view();
    let ghost mv = method.deep_view();
    let ghost prv = prev_view(previous);
    let everything: bool;
    let mut active: Vec<String> = Vec::new();
    match method {
        Method::Everything => {
            everything = true;
            proof {
                assert(active.deep_view() =~= Seq::<Seq<char>>::empty());
            }
        },
        Method::Required { features, uses_default_features } => {
            everything = false;
            let mut i: usize = 0;
            while i < features.len()
                invariant
                    i <= features.len(),
                    pv == pkg.deep_view(),
                    rv == registry.deep_view(),
                    prv == prev_view(previous),
                    mv == method.deep_view(),
                    mv == (MethodView::Required {
                        features: features.deep_view(),
                        uses_default_features: *uses_default_features,
                    }),
                    features.deep_view().len() == features@.len(),
                    first_undeclared(pv, features.deep_view(), i as int) is None,
                decreases features.len() - i,
            {
                if !is_feature_declared(pkg, &features[i]) {
                    proof {
                        assert(features.deep_view()[i as int] == features@[i as int]@);
                        assert(first_undeclared(pv, features.deep_view(), i + 1) == Some(
                            features.deep_view()[i as int],
                        ));
                        lemma_first_undeclared_extend(
                            pv,
                            features.deep_view(),
                            i + 1,
                            features@.len() as int,
                        );
                    }
                    return Err(ResolveError::UnknownFeature { name: features[i].clone() });
                }
                i = i + 1;
            }
            active = clone_string_vec(features);
            if *uses_default_features {
                crate::build_config::extend_strings(&mut active, &pkg.default_features);
                proof {
                    assert(active.deep_view() =~= active_features(
                        pv,
                        features.deep_view(),
                        true,
                    ));
                }
            } else {
                proof {
                    assert(active.deep_view() =~= active_features(
                        pv,
                        features.deep_view(),
                        false,
                    ));
                }
            }
        },
    }
    let ghost av = active.deep_view();
    let mut nodes: Vec<PackageId> = Vec::new();
    nodes.push(pkg.id.clone());
    proof {
        assert(nodes.deep_view() =~= seq![pv.id] + Seq::<PackageIdView>::empty());
    }
    let mut i: usize = 0;
    while i < pkg.dependencies.len()
        invariant
            i <= pkg.dependencies.len(),
            pv == pkg.deep_view(),
            rv == registry.deep_view(),
            av == active.deep_view(),
            prv == prev_view(previous),
            mv == method.deep_view(),
            match mv {
                MethodView::Everything => everything && av == Seq::<Seq<char>>::empty(),
                MethodView::Required { features: f, uses_default_features: u } => !everything
                    && first_undeclared(pv, f, f.len() as int) is None && av == active_features(
                    pv,
                    f,
                    u,
                ),
            },
            pv.dependencies.len() == pkg.dependencies@.len(),
            resolve_deps(pv, rv, everything, av, prv, i as int) matches Ok(sel) && nodes.deep_view()
                == seq![pv.id] + sel,
        decreases pkg.dependencies.len() - i,
    {
        let dep = &pkg.dependencies[i];
        proof {
            assert(pv.dependencies[i as int] == dep.deep_view());
        }
        let enabled = everything || dep_enabled_exec(pkg, dep, &active);
        if enabled {
            match choose_dep_pkg_exec(registry, &dep.name, previous) {
                Some(id) => {
                    let ghost pre = nodes.deep_view();
                    let ghost x = id.deep_view();
                    nodes.push(id);
                    proof {
                        assert(nodes.deep_view() =~= pre.push(x));
                        let sel = resolve_deps(pv, rv, everything, av, prv, i as int)->Ok_0;
                        assert(resolve_deps(pv, rv, everything, av, prv, i + 1) == Ok::<
                            _,
                            ResolveErrorView,
                        >(sel.push(x)));
                        assert(seq![pv.id] + sel.push(x) =~= (seq![pv.id] + sel).push(x));
                    }
                },
                None => {
                    let e = ResolveError::MissingDependency { name: dep.name.clone() };
                    proof {
                        assert(resolve_deps(pv, rv, everything, av, prv, i + 1) == Err::<
                            Seq<PackageIdView>,
                            _,
                        >(e.deep_view()));
                        lemma_resolve_deps_err_extend(
                            pv,
                            rv,
                            everything,
                            av,
                            prv,
                            i + 1,
                            pkg.dependencies@.len() as int,
                        );
                    }
                    return Err(e);
                },
            }
        }
        i = i + 1;
    }
    Ok(Resolve { root: pkg.id.clone(), nodes })
}

/// Resolves the root package's listed dependencies with every feature and
/// optional dependency enabled: the baseline pass, whose graph anchors the
/// override-aware pass that follows.
pub fn resolve_pkg(registry: &PackageRegistry, pkg: &Package) -> (r: Result<Resolve, ResolveError>)
    ensures
        match r {
            Ok(res) => spec_resolve(
                pkg.deep_view(),
                registry.deep_view(),
                MethodView::Everything,
                None,
            ) == Ok::<_, ResolveErrorView>(res.deep_view()),
            Err(e) => spec_resolve(
                pkg.deep_view(),
                registry.deep_view(),
                MethodView::Everything,
                None,
            ) == Err::<ResolveView, _>(e.deep_view()),
        },
{
    resolve_with_previous(registry, pkg, &Method::Everything, None)
}

/// Resolving with no extra features and default features on activates the
/// same features as naming the declared defaults explicitly, so the two
/// requests produce the same graph (provided every declared default is a
/// declared feature).
pub proof fn lemma_default_features_round_trip(
    pkg: PackageView,
    reg: RegistryView,
    previous: Option<ResolveView>,
)
    requires
        forall|j: int|
            0 <= j < pkg.default_features.len() ==> feature_declared(
                pkg,
                #[trigger] pkg.default_features[j],
            ),
    ensures
        spec_resolve(
            pkg,
            reg,
            MethodView::Required { features: Seq::empty(), uses_default_features: true },
            previous,
        ) == spec_resolve(
            pkg,
            reg,
            MethodView::Required { features: pkg.default_features, uses_default_features: false },
            previous,
        ),
{
    lemma_all_declared(pkg, pkg.default_features, pkg.default_features.len() as int);
    assert(active_features(pkg, Seq::empty(), true) =~= pkg.default_features);
    assert(active_features(pkg, pkg.default_features, false) =~= pkg.default_features);
}

/// A list of declared features has no undeclared member.
proof fn lemma_all_declared(pkg: PackageView, fs: Seq<Seq<char>>, i: int)
    requires
        i <= fs.len(),
        forall|j: int| 0 <= j < fs.len() ==> feature_declared(pkg, #[trigger] fs[j]),
    ensures
        first_undeclared(pkg, fs, i) is None,
    decreases i,
{
    if i > 0 {
        lemma_all_declared(pkg, fs, i - 1);
    }
}

/// Mathematical image of a [`QueryError`].
pub ghost enum QueryErrorView {
    UnknownPackage { query: Seq<char> },
    AmbiguousPackage { query: Seq<char> },
}

/// A failed package query.
#[derive(Debug)]
pub enum QueryError {
    /// No package matches the query string.
    UnknownPackage { query: String },
    /// More than one package matches the query string.
    AmbiguousPackage { query: String },
}

impl DeepView for QueryError {
    type V = QueryErrorView;

    open spec fn deep_view(&self) -> QueryErrorView {
        match self {
            QueryError::UnknownPackage { query } => QueryErrorView::UnknownPackage { query: query@ },
            QueryError::AmbiguousPackage { query } => QueryErrorView::AmbiguousPackage {
                query: query@,
            },
        }
    }
}

/// How many of the first `i` nodes carry the queried name.
pub open spec fn count_matches(nodes: Seq<PackageIdView>, q: Seq<char>, i: int) -> int
    decreases i,
{
    if i <= 0 {
        0
    } else {
        count_matches(nodes, q, i - 1) + if nodes[i - 1].name == q {
            1int
        } else {
            0int
        }
    }
}

/// The first node carrying the queried name, among the first `i`.
pub open spec fn first_name_match(nodes: Seq<PackageIdView>, q: Seq<char>, i: int) -> Option<
    PackageIdView,
>
    decreases i,
{
    if i <= 0 {
        None
    } else {
        match first_name_match(nodes, q, i - 1) {
            Some(p) => Some(p),
            None => if nodes[i - 1].name == q {
                Some(nodes[i - 1])
            } else {
                None
            },
        }
    }
}

/// The full contract of [`Resolve::query`]: the one package of the graph
/// the name-or-spec string denotes; no match or more than one match fails.
pub open spec fn spec_query(res: ResolveView, q: Seq<char>) -> Result<PackageIdView, QueryErrorView> {
    let c = count_matches(res.nodes, q, res.nodes.len() as int);
    if c == 0 {
        Err(QueryErrorView::UnknownPackage { query: q })
    } else if c > 1 {
        Err(QueryErrorView::AmbiguousPackage { query: q })
    } else {
        match first_name_match(res.nodes, q, res.nodes.len() as int) {
            Some(p) => Ok(p),
            None => Err(QueryErrorView::UnknownPackage { query: q }),
        }
    }
}

impl Resolve {
    /// Resolves a package-spec string to the one package id of this graph
    /// carrying that name; unknown and ambiguous specs each fail, naming
    /// the query.
    pub fn query(&self, q: &String) -> (r: Result<PackageId, QueryError>)
        ensures
            match r {
                Ok(id) => spec_query(self.deep_view(), q@) == Ok::<_, QueryErrorView>(
                    id.deep_view(),
                ),
                Err(e) => spec_query(self.deep_view(), q@) == Err::<PackageIdView, _>(e.deep_view()),
            },
    {
        let ghost nd = self.nodes.deep_view();
        let mut count: usize = 0;
        let mut found: Option<PackageId> = None;
        let mut i: usize = 0;
        while i < self.nodes.len()
            invariant
                i <= self.nodes.len(),
                nd == self.nodes.deep_view(),
                nd.len() == self.nodes@.len(),
                count <= i,
                count as int == count_matches(nd, q@, i as int),
                match found {
                    None => count == 0 && first_name_match(nd, q@, i as int) is None,
                    Some(p) => count >= 1 && first_name_match(nd, q@, i as int) == Some(
                        p.deep_view(),
                    ),
                },
            decreases self.nodes.len() - i,
        {
            if self.nodes[i].name == *q {
                proof {
                    assert(nd[i as int].name == q@);
                }
                count = count + 1;
                if count == 1 {
                    found = Some(self.nodes[i].clone());
                }
            }
            i = i + 1;
        }
        if count == 0 {
            Err(QueryError::UnknownPackage { query: q.clone() })
        } else if count > 1 {
            Err(QueryError::AmbiguousPackage { query: q.clone() })
        } else {
            match found {
                Some(id) => Ok(id),
                None => Err(QueryError::UnknownPackage { query: q.clone() }),
            }
        }
    }
}

/// The first of the first `i` packages carrying this identity.
pub open spec fn find_pkg_by_id(pkgs: Seq<PackageView>, id: PackageIdView, i: int) -> Option<
    PackageView,
>
    decreases i,
{
    if i <= 0 {
        None
    } else {
        match find_pkg_by_id(pkgs, id, i - 1) {
            Some(p) => Some(p),
            None => if pkgs[i - 1].id == id {
                Some(pkgs[i - 1])
            } else {
                None
            },
        }
    }
}

/// The first source among the first `i` offering this identity, and the
/// package it offers.
pub open spec fn source_pkg_by_id(srcs: Seq<SourceModelView>, id: PackageIdView, i: int) -> Option<
    PackageView,
>
    decreases i,
{
    if i <= 0 {
        None
    } else {
        match source_pkg_by_id(srcs, id, i - 1) {
            Some(p) => Some(p),
            None => find_pkg_by_id(srcs[i - 1].packages, id, srcs[i - 1].packages.len() as int),
        }
    }
}

/// The package a resolved id materializes to: override sources win, then
/// preloaded, then ordinary sources.
pub open spec fn lookup_pkg(reg: RegistryView, id: PackageIdView) -> Option<PackageView> {
    match source_pkg_by_id(reg.overrides, id, reg.overrides.len() as int) {
        Some(p) => Some(p),
        None => match source_pkg_by_id(reg.preloaded, id, reg.preloaded.len() as int) {
            Some(p) => Some(p),
            None => source_pkg_by_id(reg.sources, id, reg.sources.len() as int),
        },
    }
}

/// The packages of the first `i` nodes of a graph, materialized from the
/// registry, in graph order.
pub open spec fn materialize(reg: RegistryView, nodes: Seq<PackageIdView>, i: int) -> Result<
    Seq<PackageView>,
    ResolveErrorView,
>
    decreases i,
{
    if i <= 0 {
        Ok(Seq::empty())
    } else {
        match materialize(reg, nodes, i - 1) {
            Err(e) => Err(e),
            Ok(pkgs) => match lookup_pkg(reg, nodes[i - 1]) {
                Some(p) => Ok(pkgs.push(p)),
                None => Err(ResolveErrorView::NotLoaded { name: nodes[i - 1].name }),
            },
        }
    }
}

/// Once a package id is found, scanning more packages does not change it.
proof fn lemma_find_pkg_by_id_extend(pkgs: Seq<PackageView>, id: PackageIdView, i: int, n: int)
    requires
        0 <= i <= n,
        find_pkg_by_id(pkgs, id, i) is Some,
    ensures
        find_pkg_by_id(pkgs, id, n) == find_pkg_by_id(pkgs, id, i),
    decreases n,
{
    if n > i {
        lemma_find_pkg_by_id_extend(pkgs, id, i, n - 1);
    }
}

/// Once a source offers the id, scanning more sources does not change it.
proof fn lemma_source_pkg_by_id_extend(srcs: Seq<SourceModelView>, id: PackageIdView, i: int, n: int)
    requires
        0 <= i <= n,
        source_pkg_by_id(srcs, id, i) is Some,
    ensures
        source_pkg_by_id(srcs, id, n) == source_pkg_by_id(srcs, id, i),
    decreases n,
{
    if n > i {
        lemma_source_pkg_by_id_extend(srcs, id, i, n - 1);
    }
}

/// Once materialization errs, the remaining nodes cannot clear that.
proof fn lemma_materialize_err_extend(reg: RegistryView, nodes: Seq<PackageIdView>, i: int, n: int)
    requires
        0 <= i <= n,
        materialize(reg, nodes, i) is Err,
    ensures
        materialize(reg, nodes, n) == materialize(reg, nodes, i),
    decreases n,
{
    if n > i {
        lemma_materialize_err_extend(reg, nodes, i, n - 1);
    }
}

/// Finds and clones the first package with this identity in one list.
fn find_pkg_by_id_exec(pkgs: &Vec<Package>, id: &PackageId) -> (r: Option<Package>)
    ensures
        r.deep_view() == find_pkg_by_id(pkgs.deep_view(), id.deep_view(), pkgs@.len() as int),
{
    let ghost pd = pkgs.deep_view();
    let mut i: usize = 0;
    while i < pkgs.len()
        invariant
            i <= pkgs.len(),
            pd == pkgs.deep_view(),
            find_pkg_by_id(pd, id.deep_view(), i as int) is None,
        decreases pkgs.len() - i,
    {
        if pkgs[i].id.same_as(id) {
            proof {
                assert(find_pkg_by_id(pd, id.deep_view(), i + 1) == Some(pd[i as int]));
                lemma_find_pkg_by_id_extend(pd, id.deep_view(), i + 1, pkgs@.len() as int);
            }
            return Some(pkgs[i].clone());
        }
        i = i + 1;
    }
    None
}

/// Finds and clones the package the first offering source holds for an id.
fn source_pkg_by_id_exec(srcs: &Vec<SourceModel>, id: &PackageId) -> (r: Option<Package>)
    ensures
        r.deep_view() == source_pkg_by_id(srcs.deep_view(), id.deep_view(), srcs@.len() as int),
{
    let ghost sd = srcs.deep_view();
    let mut i: usize = 0;
    while i < srcs.len()
        invariant
            i <= srcs.len(),
            sd == srcs.deep_view(),
            source_pkg_by_id(sd, id.deep_view(), i as int) is None,
        decreases srcs.len() - i,
    {
        match find_pkg_by_id_exec(&srcs[i].packages, id) {
            Some(p) => {
                proof {
                    assert(source_pkg_by_id(sd, id.deep_view(), i + 1) == Some(p.deep_view()));
                    lemma_source_pkg_by_id_extend(sd, id.deep_view(), i + 1, srcs@.len() as int);
                }
                return Some(p);
            },
            None => {},
        }
        i = i + 1;
    }
    None
}

/// The realized collection of packages for every node of a graph.
#[derive(Debug)]
pub struct PackageSet {
    pub packages: Vec<Package>,
}

impl DeepView for PackageSet {
    type V = Seq<PackageView>;

    open spec fn deep_view(&self) -> Seq<PackageView> {
        self.packages.deep_view()
    }
}

/// The first of the first `i` packages of the set carrying this identity.
pub open spec fn set_lookup(pkgs: Seq<PackageView>, id: PackageIdView, i: int) -> Option<PackageView>
    decreases i,
{
    find_pkg_by_id(pkgs, id, i)
}

impl PackageSet {
    /// Fetches the package with the given identity; failing names the
    /// package sought.
    pub fn get(&self, id: &PackageId) -> (r: Result<&Package, QueryError>)
        ensures
            match r {
                Ok(p) => set_lookup(self.deep_view(), id.deep_view(), self.packages@.len() as int)
                    == Some(p.deep_view()),
                Err(e) => set_lookup(self.deep_view(), id.deep_view(), self.packages@.len() as int)
                    is None && e.deep_view() == (QueryErrorView::UnknownPackage {
                    query: id.deep_view().name,
                }),
            },
    {
        let ghost pd = self.packages.deep_view();
        let mut i: usize = 0;
        while i < self.packages.len()
            invariant
                i <= self.packages.len(),
                pd == self.packages.deep_view(),
                find_pkg_by_id(pd, id.deep_view(), i as int) is None,
            decreases self.packages.len() - i,
        {
            if self.packages[i].id.same_as(id) {
                proof {
                    assert(find_pkg_by_id(pd, id.deep_view(), i + 1) == Some(pd[i as int]));
                    lemma_find_pkg_by_id_extend(pd, id.deep_view(), i + 1, self.packages@.len() as int);
                }
                return Ok(&self.packages[i]);
            }
            i = i + 1;
        }
        Err(QueryError::UnknownPackage { query: id.name.clone() })
    }
}

/// Materializes every node of the final graph into a concrete package via
/// the registry, override sources taking precedence.
pub fn get_resolved_packages(resolve: &Resolve, registry: &PackageRegistry) -> (r: Result<
    PackageSet,
    ResolveError,
>)
    ensures
        match r {
            Ok(ps) => materialize(
                registry.deep_view(),
                resolve.deep_view().nodes,
                resolve.nodes@.len() as int,
            ) == Ok::<_, ResolveErrorView>(ps.deep_view()),
            Err(e) => materialize(
                registry.deep_view(),
                resolve.deep_view().nodes,
                resolve.nodes@.len() as int,
            ) == Err::<Seq<PackageView>, _>(e.deep_view()),
        },
{
    let ghost rv = registry.deep_view();
    let ghost nd = resolve.nodes.deep_view();
    let mut packages: Vec<Package> = Vec::new();
    proof {
        assert(packages.deep_view() =~= Seq::<PackageView>::empty());
    }
    let mut i: usize = 0;
    while i < resolve.nodes.len()
        invariant
            i <= resolve.nodes.len(),
            rv == registry.deep_view(),
            nd == resolve.nodes.deep_view(),
            nd.len() == resolve.nodes@.len(),
            materialize(rv, nd, i as int) == Ok::<_, ResolveErrorView>(packages.deep_view()),
        decreases resolve.nodes.len() - i,
    {
        let id = &resolve.nodes[i];
        proof {
            assert(nd[i as int] == id.deep_view());
        }
        let found = match source_pkg_by_id_exec(&registry.overrides, id) {
            Some(p) => Some(p),
            None => match source_pkg_by_id_exec(&registry.preloaded, id) {
                Some(p) => Some(p),
                None => source_pkg_by_id_exec(&registry.sources, id),
            },
        };
        match found {
            Some(p) => {
                let ghost pre = packages.deep_view();
                let ghost x = p.deep_view();
                packages.push(p);
                proof {
                    assert(packages.deep_view() =~= pre.push(x));
                }
            },
            None => {
                let e = ResolveError::NotLoaded { name: id.name.clone() };
                proof {
                    assert(materialize(rv, nd, i + 1) == Err::<Seq<PackageView>, _>(e.deep_view()));
                    lemma_materialize_err_extend(rv, nd, i + 1, resolve.nodes@.len() as int);
                }
                return Err(e);
            },
        }
        i = i + 1;
    }
    Ok(PackageSet { packages })
}

/// A registry after a preloaded source is registered.
pub open spec fn with_preloaded(reg: RegistryView, pre: Option<SourceModelView>) -> RegistryView {
    RegistryView {
        sources: reg.sources,
        preloaded: reg.preloaded + match pre {
            Some(s) => seq![s],
            None => Seq::<SourceModelView>::empty(),
        },
        overrides: reg.overrides,
    }
}

/// A registry after override sources are registered.
pub open spec fn with_overrides(reg: RegistryView, ovr: Seq<SourceModelView>) -> RegistryView {
    RegistryView { sources: reg.sources, preloaded: reg.preloaded, overrides: reg.overrides + ovr }
}

/// The full contract of [`resolve_dependencies`]: the baseline resolution
/// of the listed dependencies (no features, no overrides), then the
/// override-aware resolution of the actual request anchored to the
/// baseline, then the materialized package set of the final graph.
pub open spec fn spec_resolve_dependencies(
    reg: RegistryView,
    pkg: PackageView,
    pre: Option<SourceModelView>,
    ovr: Seq<SourceModelView>,
    features: Seq<Seq<char>>,
    no_default_features: bool,
) -> Result<(Seq<PackageView>, ResolveView), ResolveErrorView> {
    let reg1 = with_preloaded(reg, pre);
    match spec_resolve(pkg, reg1, MethodView::Everything, None) {
        Err(e) => Err(e),
        Ok(baseline) => {
            let reg2 = with_overrides(reg1, ovr);
            match spec_resolve(
                pkg,
                reg2,
                MethodView::Required { features, uses_default_features: !no_default_features },
                Some(baseline),
            ) {
                Err(e) => Err(e),
                Ok(final_resolve) => match materialize(
                    reg2,
                    final_resolve.nodes,
                    final_resolve.nodes.len() as int,
                ) {
                    Err(e) => Err(e),
                    Ok(pkgs) => Ok((pkgs, final_resolve)),
                },
            }
        },
    }
}

/// Performs the two-phase resolution workflow: first a baseline resolve of
/// the root package's listed dependencies alone (retained purely as a
/// stability anchor), then a resolve of the actual request — the given
/// extra features, default features unless refused, dev dependencies
/// included — with the override sources registered and the baseline passed
/// as the previous resolution. Finally every node of the resulting graph
/// is materialized into a package.
pub fn resolve_dependencies(
    root_package: &Package,
    registry: &mut PackageRegistry,
    preloaded: Option<SourceModel>,
    override_sources: Vec<SourceModel>,
    features: Vec<String>,
    no_default_features: bool,
) -> (r: Result<(PackageSet, Resolve), ResolveError>)
    ensures
        match r {
            Ok(pr) => spec_resolve_dependencies(
                old(registry).deep_view(),
                root_package.deep_view(),
                preloaded.deep_view(),
                override_sources.deep_view(),
                features.deep_view(),
                no_default_features,
            ) == Ok::<_, ResolveErrorView>((pr.0.deep_view(), pr.1.deep_view())),
            Err(e) => spec_resolve_dependencies(
                old(registry).deep_view(),
                root_package.deep_view(),
                preloaded.deep_view(),
                override_sources.deep_view(),
                features.deep_view(),
                no_default_features,
            ) == Err::<(Seq<PackageView>, ResolveView), _>(e.deep_view()),
        },
        final(registry).deep_view() == (if spec_resolve(
            root_package.deep_view(),
            with_preloaded(old(registry).deep_view(), preloaded.deep_view()),
            MethodView::Everything,
            None,
        ) is Err {
            with_preloaded(old(registry).deep_view(), preloaded.deep_view())
        } else {
            with_overrides(
                with_preloaded(old(registry).deep_view(), preloaded.deep_view()),
                override_sources.deep_view(),
            )
        }),
{
    let ghost reg0 = registry.deep_view();
    let ghost prev = preloaded.deep_view();
    match preloaded {
        Some(s) => {
            registry.add_preloaded(s);
        },
        None => {},
    }
    proof {
        assert(registry.deep_view().preloaded =~= with_preloaded(reg0, prev).preloaded);
        assert(registry.deep_view() == with_preloaded(reg0, prev));
    }
    let ghost reg1 = registry.deep_view();
    let baseline = match resolve_pkg(registry, root_package) {
        Ok(res) => res,
        Err(e) => {
            return Err(e);
        },
    };
    let ghost ovr_dv = override_sources.deep_view();
    let ghost base_ovr = registry.deep_view().overrides;
    proof {
        assert(base_ovr + ovr_dv.take(0) =~= base_ovr);
    }
    let mut consumed: usize = 0;
    while consumed < override_sources.len()
        invariant
            consumed <= override_sources.len(),
            ovr_dv == override_sources.deep_view(),
            ovr_dv.len() == override_sources@.len(),
            registry.deep_view().sources == reg1.sources,
            registry.deep_view().preloaded == reg1.preloaded,
            reg1.overrides == base_ovr,
            registry.deep_view().overrides =~= base_ovr + ovr_dv.take(consumed as int),
        decreases override_sources.len() - consumed,
    {
        let s = override_sources[consumed].clone();
        proof {
            assert(s.deep_view() == ovr_dv[consumed as int]);
        }
        registry.add_override(s);
        proof {
            assert(registry.deep_view().overrides =~= base_ovr + ovr_dv.take(consumed + 1));
        }
        consumed = consumed + 1;
    }
    proof {
        assert(ovr_dv.take(override_sources@.len() as int) =~= ovr_dv);
        assert(registry.deep_view().overrides =~= with_overrides(reg1, ovr_dv).overrides);
        assert(registry.deep_view() == with_overrides(reg1, ovr_dv));
    }
    let method = Method::Required { features, uses_default_features: !no_default_features };
    let final_resolve = match resolve_with_previous(registry, root_package, &method, Some(&baseline)) {
        Ok(res) => res,
        Err(e) => {
            return Err(e);
        },
    };
    let packages = match get_resolved_packages(&final_resolve, registry) {
        Ok(ps) => ps,
        Err(e) => {
            return Err(e);
        },
    };
    Ok((packages, final_resolve))
}

} // verus!
