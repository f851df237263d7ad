//! The data model loaded from a package manifest: packages, buildable
//! targets, and compilation profiles. All values are immutable once loaded.

use vstd::prelude::*;

verus! {

/// The kind of a buildable unit within a package.
#[derive(Clone, Copy, PartialEq, Eq, Structural, Debug)]
pub enum TargetKind {
    Lib,
    Bin,
    Test,
    Bench,
    Example,
    CustomBuild,
}

impl DeepView for TargetKind {
    type V = TargetKind;

    open spec fn deep_view(&self) -> TargetKind {
        *self
    }
}

/// Mathematical image of a [`Target`].
pub ghost struct TargetView {
    pub kind: TargetKind,
    pub name: Seq<char>,
    pub tested: bool,
    pub benched: bool,
    pub documented: bool,
    pub doctested: bool,
}

impl TargetView {
    pub open spec fn is_lib(self) -> bool {
        self.kind == TargetKind::Lib
    }

    pub open spec fn is_bin(self) -> bool {
        self.kind == TargetKind::Bin
    }

    pub open spec fn is_example(self) -> bool {
        self.kind == TargetKind::Example
    }
}

/// One buildable unit of a package, together with the predicates that say
/// which compile modes include it by default.
#[derive(Debug)]
pub struct Target {
    pub kind: TargetKind,
    pub name: String,
    pub tested: bool,
    pub benched: bool,
    pub documented: bool,
    pub doctested: bool,
}

impl DeepView for Target {
    type V = TargetView;

    open spec fn deep_view(&self) -> TargetView {
        TargetView {
            kind: self.kind,
            name: self.name@,
            tested: self.tested,
            benched: self.benched,
            documented: self.documented,
            doctested: self.doctested,
        }
    }
}

impl Clone for Target {
    fn clone(&self) -> (r: Self)
        ensures
            r.deep_view() == self.deep_view(),
    {
        Target {
            kind: self.kind,
            name: self.name.clone(),
            tested: self.tested,
            benched: self.benched,
            documented: self.documented,
            doctested: self.doctested,
        }
    }
}

impl Target {
    pub fn is_lib(&self) -> (r: bool)
        ensures
            r == self.deep_view().is_lib(),
    {
        self.kind == TargetKind::Lib
    }

    pub fn is_bin(&self) -> (r: bool)
        ensures
            r == self.deep_view().is_bin(),
    {
        self.kind == TargetKind::Bin
    }

    pub fn is_example(&self) -> (r: bool)
        ensures
            r == self.deep_view().is_example(),
    {
        self.kind == TargetKind::Example
    }
}

/// Clones a vector of strings element by element, keeping the contents.
pub fn clone_string_vec(v: &Vec<String>) -> (r: Vec<String>)
    ensures
        r@ == v@,
        r.deep_view() == v.deep_view(),
{
    let mut r: Vec<String> = Vec::new();
    let mut i: usize = 0;
    while i < v.len()
        invariant
            i <= v.len(),
            r@ =~= v@.take(i as int),
        decreases v.len() - i,
    {
        r.push(v[i].clone());
        i = i + 1;
    }
    assert(r@ =~= v@);
    assert(r.deep_view() =~= v.deep_view());
    r
}

/// Clones a vector of string pairs element by element, keeping the contents.
pub fn clone_string_pair_vec(v: &Vec<(String, String)>) -> (r: Vec<(String, String)>)
    ensures
        r.deep_view() == v.deep_view(),
{
    let mut r: Vec<(String, String)> = Vec::new();
    let mut i: usize = 0;
    while i < v.len()
        invariant
            i <= v.len(),
            r.deep_view() =~= v.deep_view().take(i as int),
        decreases v.len() - i,
    {
        let pair = (v[i].0.clone(), v[i].1.clone());
        let ghost predv = r.deep_view();
        let ghost x = pair.deep_view();
        proof {
            assert(x == v@[i as int].deep_view());
            assert(v.deep_view()[i as int] == v@[i as int].deep_view());
        }
        r.push(pair);
        proof {
            assert(r.deep_view() =~= predv.push(x));
            assert(predv.push(x) =~= v.deep_view().take(i + 1));
        }
        i = i + 1;
    }
    assert(r.deep_view() =~= v.deep_view());
    r
}

/// Mathematical image of a [`Profile`].
pub ghost struct ProfileView {
    pub opt_level: u32,
    pub debuginfo: bool,
    pub test: bool,
    pub doc: bool,
    pub rustc_args: Option<Seq<Seq<char>>>,
    pub rustdoc_args: Option<Seq<Seq<char>>>,
}

/// A named compilation configuration, looked up by purpose (dev, release,
/// test, bench, doc). The extra-argument fields are only ever set when a
/// single-target override of one profile is requested.
#[derive(Debug)]
pub struct Profile {
    pub opt_level: u32,
    pub debuginfo: bool,
    pub test: bool,
    pub doc: bool,
    pub rustc_args: Option<Vec<String>>,
    pub rustdoc_args: Option<Vec<String>>,
}

impl DeepView for Profile {
    type V = ProfileView;

    open spec fn deep_view(&self) -> ProfileView {
        ProfileView {
            opt_level: self.opt_level,
            debuginfo: self.debuginfo,
            test: self.test,
            doc: self.doc,
            rustc_args: self.rustc_args.deep_view(),
            rustdoc_args: self.rustdoc_args.deep_view(),
        }
    }
}

impl Clone for Profile {
    fn clone(&self) -> (r: Self)
        ensures
            r.deep_view() == self.deep_view(),
    {
        Profile {
            opt_level: self.opt_level,
            debuginfo: self.debuginfo,
            test: self.test,
            doc: self.doc,
            rustc_args: clone_string_vec_opt(&self.rustc_args),
            rustdoc_args: clone_string_vec_opt(&self.rustdoc_args),
        }
    }
}

/// Clones an optional vector of strings, keeping the contents.
pub fn clone_string_vec_opt(v: &Option<Vec<String>>) -> (r: Option<Vec<String>>)
    ensures
        r.deep_view() == v.deep_view(),
{
    match v {
        None => None,
        Some(inner) => Some(clone_string_vec(inner)),
    }
}

/// Mathematical image of a [`Profiles`] set.
pub ghost struct ProfilesView {
    pub dev: ProfileView,
    pub release: ProfileView,
    pub test: ProfileView,
    pub bench: ProfileView,
    pub doc: ProfileView,
}

/// The profile set a package declares, one profile per purpose.
#[derive(Debug)]
pub struct Profiles {
    pub dev: Profile,
    pub release: Profile,
    pub test: Profile,
    pub bench: Profile,
    pub doc: Profile,
}

impl DeepView for Profiles {
    type V = ProfilesView;

    open spec fn deep_view(&self) -> ProfilesView {
        ProfilesView {
            dev: self.dev.deep_view(),
            release: self.release.deep_view(),
            test: self.test.deep_view(),
            bench: self.bench.deep_view(),
            doc: self.doc.deep_view(),
        }
    }
}

/// Mathematical image of a [`SourceId`].
pub ghost struct SourceIdView {
    pub is_path: bool,
    pub location: Seq<char>,
}

/// Canonical identity of a provider of package metadata and content:
/// either a remote registry (addressed by URL) or a filesystem path.
#[derive(Debug)]
pub enum SourceId {
    Registry { url: String },
    LocalPath { path: String },
}

impl DeepView for SourceId {
    type V = SourceIdView;

    open spec fn deep_view(&self) -> SourceIdView {
        match self {
            SourceId::Registry { url } => SourceIdView { is_path: false, location: url@ },
            SourceId::LocalPath { path } => SourceIdView { is_path: true, location: path@ },
        }
    }
}

impl Clone for SourceId {
    fn clone(&self) -> (r: Self)
        ensures
            r.deep_view() == self.deep_view(),
    {
        match self {
            SourceId::Registry { url } => SourceId::Registry { url: url.clone() },
            SourceId::LocalPath { path } => SourceId::LocalPath { path: path.clone() },
        }
    }
}

impl SourceId {
    /// Whether two source identities are the same provider.
    pub fn same_as(&self, other: &SourceId) -> (r: bool)
        ensures
            r == (self.deep_view() == other.deep_view()),
    {
        match (self, other) {
            (SourceId::Registry { url: a }, SourceId::Registry { url: b }) => *a == *b,
            (SourceId::LocalPath { path: a }, SourceId::LocalPath { path: b }) => *a == *b,
            _ => false,
        }
    }

    /// The canonical source identity for a filesystem path.
    pub fn for_path(path: &String) -> (r: SourceId)
        ensures
            r.deep_view() == (SourceIdView { is_path: true, location: path@ }),
    {
        SourceId::LocalPath { path: path.clone() }
    }
}

/// Mathematical image of a [`PackageId`].
pub ghost struct PackageIdView {
    pub name: Seq<char>,
    pub version: Seq<char>,
    pub source_id: SourceIdView,
}

/// Identity of a package: name, version and the source it came from.
#[derive(Debug)]
pub struct PackageId {
    pub name: String,
    pub version: String,
    pub source_id: SourceId,
}

impl DeepView for PackageId {
    type V = PackageIdView;

    open spec fn deep_view(&self) -> PackageIdView {
        PackageIdView { name: self.name@, version: self.version@, source_id: self.source_id.deep_view() }
    }
}

impl Clone for PackageId {
    fn clone(&self) -> (r: Self)
        ensures
            r.deep_view() == self.deep_view(),
    {
        PackageId { name: self.name.clone(), version: self.version.clone(), source_id: self.source_id.clone() }
    }
}

impl PackageId {
    /// Whether two package identities are the same package.
    pub fn same_as(&self, other: &PackageId) -> (r: bool)
        ensures
            r == (self.deep_view() == other.deep_view()),
    {
        self.name == other.name && self.version == other.version
            && self.source_id.same_as(&other.source_id)
    }
}

/// Mathematical image of a [`Dependency`].
pub ghost struct DependencyView {
    pub name: Seq<char>,
    pub optional: bool,
}

/// One declared dependency of a package. An optional dependency takes part
/// in resolution only when some active feature enables it.
#[derive(Debug)]
pub struct Dependency {
    pub name: String,
    pub optional: bool,
}

impl DeepView for Dependency {
    type V = DependencyView;

    open spec fn deep_view(&self) -> DependencyView {
        DependencyView { name: self.name@, optional: self.optional }
    }
}

/// Mathematical image of a [`FeatureDecl`].
pub ghost struct FeatureDeclView {
    pub name: Seq<char>,
    pub enables: Seq<Seq<char>>,
}

/// One declared feature: a name and the optional dependencies it enables.
#[derive(Debug)]
pub struct FeatureDecl {
    pub name: String,
    pub enables: Vec<String>,
}

impl DeepView for FeatureDecl {
    type V = FeatureDeclView;

    open spec fn deep_view(&self) -> FeatureDeclView {
        FeatureDeclView { name: self.name@, enables: self.enables.deep_view() }
    }
}

/// Mathematical image of a [`Package`].
pub ghost struct PackageView {
    pub id: PackageIdView,
    pub root: Seq<char>,
    pub targets: Seq<TargetView>,
    pub dependencies: Seq<DependencyView>,
    pub features: Seq<FeatureDeclView>,
    pub default_features: Seq<Seq<char>>,
    pub profiles: ProfilesView,
}

/// A package as loaded from its manifest: identity, the directory holding
/// the manifest, its buildable targets, declared dependencies and features,
/// and its profile set. Immutable once loaded.
#[derive(Debug)]
pub struct Package {
    pub id: PackageId,
    pub root: String,
    pub targets: Vec<Target>,
    pub dependencies: Vec<Dependency>,
    pub features: Vec<FeatureDecl>,
    pub default_features: Vec<String>,
    pub profiles: Profiles,
}

impl DeepView for Package {
    type V = PackageView;

    open spec fn deep_view(&self) -> PackageView {
        PackageView {
            id: self.id.deep_view(),
            root: self.root@,
            targets: self.targets.deep_view(),
            dependencies: self.dependencies.deep_view(),
            features: self.features.deep_view(),
            default_features: self.default_features.deep_view(),
            profiles: self.profiles.deep_view(),
        }
    }
}

impl Clone for Dependency {
    fn clone(&self) -> (r: Self)
        ensures
            r.deep_view() == self.deep_view(),
    {
        Dependency { name: self.name.clone(), optional: self.optional }
    }
}

impl Clone for FeatureDecl {
    fn clone(&self) -> (r: Self)
        ensures
            r.deep_view() == self.deep_view(),
    {
        FeatureDecl { name: self.name.clone(), enables: clone_string_vec(&self.enables) }
    }
}

impl Clone for Profiles {
    fn clone(&self) -> (r: Self)
        ensures
            r.deep_view() == self.deep_view(),
    {
        Profiles {
            dev: self.dev.clone(),
            release: self.release.clone(),
            test: self.test.clone(),
            bench: self.bench.clone(),
            doc: self.doc.clone(),
        }
    }
}

impl Clone for Package {
    fn clone(&self) -> (r: Self)
        ensures
            r.deep_view() == self.deep_view(),
    {
        let mut targets: Vec<Target> = Vec::new();
        let mut i: usize = 0;
        while i < self.targets.len()
            invariant
                i <= self.targets.len(),
                targets.deep_view() =~= self.targets.deep_view().take(i as int),
            decreases self.targets.len() - i,
        {
            let t = self.targets[i].clone();
            let ghost predv = targets.deep_view();
            let ghost x = t.deep_view();
            targets.push(t);
            proof {
                assert(targets.deep_view() =~= predv.push(x));
                assert(predv.push(x) =~= self.targets.deep_view().take(i + 1));
            }
            i = i + 1;
        }
        let mut dependencies: Vec<Dependency> = Vec::new();
        let mut j: usize = 0;
        while j < self.dependencies.len()
            invariant
                j <= self.dependencies.len(),
                dependencies.deep_view() =~= self.dependencies.deep_view().take(j as int),
            decreases self.dependencies.len() - j,
        {
            let d = self.dependencies[j].clone();
            let ghost predv = dependencies.deep_view();
            let ghost x = d.deep_view();
            dependencies.push(d);
            proof {
                assert(dependencies.deep_view() =~= predv.push(x));
                assert(predv.push(x) =~= self.dependencies.deep_view().take(j + 1));
            }
            j = j + 1;
        }
        let mut features: Vec<FeatureDecl> = Vec::new();
        let mut k: usize = 0;
        while k < self.features.len()
            invariant
                k <= self.features.len(),
                features.deep_view() =~= self.features.deep_view().take(k as int),
            decreases self.features.len() - k,
        {
            let f = self.features[k].clone();
            let ghost predv = features.deep_view();
            let ghost x = f.deep_view();
            features.push(f);
            proof {
                assert(features.deep_view() =~= predv.push(x));
                assert(predv.push(x) =~= self.features.deep_view().take(k + 1));
            }
            k = k + 1;
        }
        proof {
            assert(targets.deep_view() =~= self.targets.deep_view());
            assert(dependencies.deep_view() =~= self.dependencies.deep_view());
            assert(features.deep_view() =~= self.features.deep_view());
        }
        Package {
            id: self.id.clone(),
            root: self.root.clone(),
            targets,
            dependencies,
            features,
            default_features: clone_string_vec(&self.default_features),
            profiles: self.profiles.clone(),
        }
    }
}

impl Package {
    /// The identity of this package.
    pub fn package_id(&self) -> (r: &PackageId)
        ensures
            r.deep_view() == self.deep_view().id,
    {
        &self.id
    }
}

} // verus!
