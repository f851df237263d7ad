//! Target selection: given a compile mode and an inclusion filter, computes
//! the ordered sequence of (target, profile) pairs to build for one package.

use vstd::prelude::*;

use crate::manifest::{Package, PackageView, Profile, Profiles, ProfilesView, ProfileView, Target,
    TargetKind, TargetView};

verus! {

/// The purpose of a compilation: selects which profile and which target
/// predicate apply.
#[derive(Clone, Copy, PartialEq, Eq, Structural, Debug)]
pub enum CompileMode {
    Test,
    Build,
    Bench,
    Doc { deps: bool },
}

impl DeepView for CompileMode {
    type V = CompileMode;

    open spec fn deep_view(&self) -> CompileMode {
        *self
    }
}

/// Mathematical image of a [`CompileFilter`].
pub ghost enum CompileFilterView {
    Everything,
    Only {
        lib: bool,
        bins: Seq<Seq<char>>,
        examples: Seq<Seq<char>>,
        tests: Seq<Seq<char>>,
        benches: Seq<Seq<char>>,
    },
}

/// Which targets of the root package to build: either the mode-driven
/// default selection, or explicit name lists per target kind. Never both.
#[derive(Debug)]
pub enum CompileFilter {
    Everything,
    Only {
        lib: bool,
        bins: Vec<String>,
        examples: Vec<String>,
        tests: Vec<String>,
        benches: Vec<String>,
    },
}

impl DeepView for CompileFilter {
    type V = CompileFilterView;

    open spec fn deep_view(&self) -> CompileFilterView {
        match self {
            CompileFilter::Everything => CompileFilterView::Everything,
            CompileFilter::Only { lib, bins, examples, tests, benches } => CompileFilterView::Only {
                lib: *lib,
                bins: bins.deep_view(),
                examples: examples.deep_view(),
                tests: tests.deep_view(),
                benches: benches.deep_view(),
            },
        }
    }
}

/// What [`CompileFilter::new`] returns: the explicit `Only` form as soon as
/// any kind is requested by name (or the library by flag), else `Everything`.
pub open spec fn spec_new_filter(
    lib_only: bool,
    bins: Seq<Seq<char>>,
    tests: Seq<Seq<char>>,
    examples: Seq<Seq<char>>,
    benches: Seq<Seq<char>>,
) -> CompileFilterView {
    if lib_only || bins.len() > 0 || tests.len() > 0 || examples.len() > 0 || benches.len() > 0 {
        CompileFilterView::Only { lib: lib_only, bins, examples, benches, tests }
    } else {
        CompileFilterView::Everything
    }
}

/// Whether `name` occurs among `names`.
pub open spec fn name_listed(names: Seq<Seq<char>>, name: Seq<char>) -> bool {
    exists|i: int| 0 <= i < names.len() && names[i] == name
}

impl CompileFilterView {
    /// Whether the filter selects the given target: `Everything` selects
    /// everything but a custom build script; `Only` matches the name list
    /// of the target's kind and the `lib` flag for a library. A custom
    /// build script never matches any filter.
    pub open spec fn matches(self, t: TargetView) -> bool {
        match self {
            CompileFilterView::Everything => t.kind != TargetKind::CustomBuild,
            CompileFilterView::Only { lib, bins, examples, tests, benches } => match t.kind {
                TargetKind::Bin => name_listed(bins, t.name),
                TargetKind::Test => name_listed(tests, t.name),
                TargetKind::Bench => name_listed(benches, t.name),
                TargetKind::Example => name_listed(examples, t.name),
                TargetKind::Lib => lib,
                TargetKind::CustomBuild => false,
            },
        }
    }
}

/// Whether `name` occurs in `names`, by linear search.
fn names_contain(names: &Vec<String>, name: &String) -> (r: bool)
    ensures
        r == name_listed(names.deep_view(), name@),
{
    let mut i: usize = 0;
    while i < names.len()
        invariant
            i <= names.len(),
            forall|j: int| 0 <= j < i ==> names.deep_view()[j] != name@,
        decreases names.len() - i,
    {
        if names[i] == *name {
            assert(names.deep_view()[i as int] == name@);
            return true;
        }
        i = i + 1;
    }
    false
}

impl CompileFilter {
    /// Builds a filter from the command line's selection flags: `Only` if
    /// any explicit selection was made, else `Everything`.
    pub fn new(
        lib_only: bool,
        bins: Vec<String>,
        tests: Vec<String>,
        examples: Vec<String>,
        benches: Vec<String>,
    ) -> (r: CompileFilter)
        ensures
            r.deep_view() == spec_new_filter(
                lib_only,
                bins.deep_view(),
                tests.deep_view(),
                examples.deep_view(),
                benches.deep_view(),
            ),
    {
        if lib_only || !bins.is_empty() || !tests.is_empty() || !examples.is_empty()
            || !benches.is_empty() {
            CompileFilter::Only { lib: lib_only, bins, examples, benches, tests }
        } else {
            CompileFilter::Everything
        }
    }

    /// Whether this filter selects the given target.
    pub fn matches(&self, target: &Target) -> (r: bool)
        ensures
            r == self.deep_view().matches(target.deep_view()),
    {
        match self {
            CompileFilter::Everything => target.kind != TargetKind::CustomBuild,
            CompileFilter::Only { lib, bins, examples, tests, benches } => match target.kind {
                TargetKind::Bin => names_contain(bins, &target.name),
                TargetKind::Test => names_contain(tests, &target.name),
                TargetKind::Bench => names_contain(benches, &target.name),
                TargetKind::Example => names_contain(examples, &target.name),
                TargetKind::Lib => *lib,
                TargetKind::CustomBuild => false,
            },
        }
    }
}

/// Mathematical image of a [`SelectError`].
pub ghost enum SelectErrorView {
    NoLibraryTarget,
    NoTargetNamed { kind: TargetKind, name: Seq<char>, suggestion: Option<Seq<char>> },
}

/// A user-facing failure of target selection.
#[derive(Debug)]
pub enum SelectError {
    /// The library target was requested by flag but the package has none.
    NoLibraryTarget,
    /// No target of the given kind carries the requested name; if a
    /// same-kind target sits within a small edit distance, its name is
    /// offered as a suggestion.
    NoTargetNamed { kind: TargetKind, name: String, suggestion: Option<String> },
}

impl DeepView for SelectError {
    type V = SelectErrorView;

    open spec fn deep_view(&self) -> SelectErrorView {
        match self {
            SelectError::NoLibraryTarget => SelectErrorView::NoLibraryTarget,
            SelectError::NoTargetNamed { kind, name, suggestion } => SelectErrorView::NoTargetNamed {
                kind: *kind,
                name: name@,
                suggestion: suggestion.deep_view(),
            },
        }
    }
}

/// Minimum of three naturals.
pub open spec fn min3(x: nat, y: nat, z: nat) -> nat {
    if x <= y && x <= z {
        x
    } else if y <= z {
        y
    } else {
        z
    }
}

/// Levenshtein edit distance between two character sequences.
pub open spec fn spec_lev(a: Seq<char>, b: Seq<char>) -> nat
    decreases a.len() + b.len(),
{
    if a.len() == 0 {
        b.len()
    } else if b.len() == 0 {
        a.len()
    } else if a.last() == b.last() {
        spec_lev(a.drop_last(), b.drop_last())
    } else {
        1 + min3(
            spec_lev(a.drop_last(), b),
            spec_lev(a, b.drop_last()),
            spec_lev(a.drop_last(), b.drop_last()),
        )
    }
}

/// The edit distance never exceeds the longer length.
pub proof fn lemma_lev_le_max(a: Seq<char>, b: Seq<char>)
    ensures
        spec_lev(a, b) <= a.len() || spec_lev(a, b) <= b.len(),
    decreases a.len() + b.len(),
{
    if a.len() == 0 || b.len() == 0 {
    } else if a.last() == b.last() {
        lemma_lev_le_max(a.drop_last(), b.drop_last());
    } else {
        lemma_lev_le_max(a.drop_last(), b);
        lemma_lev_le_max(a, b.drop_last());
        lemma_lev_le_max(a.drop_last(), b.drop_last());
    }
}

/// Computes the Levenshtein distance between `a` and `b` by dynamic
/// programming over prefixes.
fn lev_distance(a: &str, b: &str) -> (r: u128)
    ensures
        r as nat == spec_lev(a@, b@),
{
    let m = a.unicode_len();
    let n = b.unicode_len();
    let mut prev: Vec<u128> = Vec::new();
    prev.push(0u128);
    let mut j: usize = 0;
    while j < n
        invariant
            j <= n,
            n == b@.len(),
            prev@.len() == j + 1,
            forall|k: int| 0 <= k <= j ==> prev@[k] as nat == spec_lev(a@.take(0), b@.take(k)),
        decreases n - j,
    {
        proof {
            assert(a@.take(0).len() == 0);
            assert(b@.take(j + 1).len() == j + 1);
        }
        prev.push((j + 1) as u128);
        j = j + 1;
    }
    let mut i: usize = 0;
    while i < m
        invariant
            i <= m,
            m == a@.len(),
            n == b@.len(),
            prev@.len() == n + 1,
            forall|k: int| 0 <= k <= n ==> prev@[k] as nat == spec_lev(a@.take(i as int), b@.take(k)),
        decreases m - i,
    {
        let row = i + 1;
        let mut cur: Vec<u128> = Vec::new();
        proof {
            assert(a@.take(row as int).len() == row);
            assert(b@.take(0).len() == 0);
        }
        cur.push(row as u128);
        let ai = a.get_char(i);
        let mut j2: usize = 0;
        while j2 < n
            invariant
                row == i + 1,
                i < m,
                j2 <= n,
                m == a@.len(),
                n == b@.len(),
                ai == a@[i as int],
                prev@.len() == n + 1,
                forall|k: int| 0 <= k <= n ==> prev@[k] as nat == spec_lev(a@.take(i as int), b@.take(k)),
                cur@.len() == j2 + 1,
                forall|k: int| 0 <= k <= j2 ==> cur@[k] as nat == spec_lev(a@.take(row as int), b@.take(k)),
            decreases n - j2,
        {
            let bj = b.get_char(j2);
            let col = j2 + 1;
            proof {
                assert(a@.take(row as int).len() == row);
                assert(b@.take(col as int).len() == col);
                assert(a@.take(row as int).drop_last() =~= a@.take(i as int));
                assert(b@.take(col as int).drop_last() =~= b@.take(j2 as int));
                assert(a@.take(row as int).last() == a@[i as int]);
                assert(b@.take(col as int).last() == b@[j2 as int]);
                lemma_lev_le_max(a@.take(i as int), b@.take(col as int));
                lemma_lev_le_max(a@.take(row as int), b@.take(j2 as int));
                lemma_lev_le_max(a@.take(i as int), b@.take(j2 as int));
            }
            let val: u128 = if ai == bj {
                prev[j2]
            } else {
                let x = prev[col];
                let y = cur[j2];
                let z = prev[j2];
                let smallest = if x <= y && x <= z {
                    x
                } else if y <= z {
                    y
                } else {
                    z
                };
                1 + smallest
            };
            assert(val as nat == spec_lev(a@.take(row as int), b@.take(col as int)));
            cur.push(val);
            j2 = col;
        }
        prev = cur;
        i = row;
    }
    proof {
        assert(a@.take(m as int) =~= a@);
        assert(b@.take(n as int) =~= b@);
    }
    prev[n]
}

/// Suggestions are offered only within this edit distance.
pub open spec fn suggestion_distance() -> nat {
    3
}

/// The same-kind target name with the smallest edit distance to `name`
/// among the first `i` targets, with its distance; on ties the later
/// target wins.
pub open spec fn best_match(ts: Seq<TargetView>, name: Seq<char>, kind: TargetKind, i: int) -> Option<
    (Seq<char>, nat),
>
    decreases i,
{
    if i <= 0 {
        None
    } else {
        let rest = best_match(ts, name, kind, i - 1);
        let t = ts[i - 1];
        if t.kind == kind {
            let d = spec_lev(name, t.name);
            match rest {
                None => Some((t.name, d)),
                Some(p) => if d <= p.1 {
                    Some((t.name, d))
                } else {
                    Some(p)
                },
            }
        } else {
            rest
        }
    }
}

/// The typo suggestion for a name that matched no target: the closest
/// same-kind target name, if it sits within [`suggestion_distance`].
pub open spec fn spec_suggestion(ts: Seq<TargetView>, name: Seq<char>, kind: TargetKind) -> Option<
    Seq<char>,
> {
    match best_match(ts, name, kind, ts.len() as int) {
        None => None,
        Some(p) => if p.1 <= suggestion_distance() {
            Some(p.0)
        } else {
            None
        },
    }
}

/// Finds the same-kind target whose name is nearest to `name` in edit
/// distance, as a best-effort typo suggestion.
fn find_closest_target(targets: &Vec<Target>, name: &String, kind: TargetKind) -> (r: Option<String>)
    ensures
        r.deep_view() == spec_suggestion(targets.deep_view(), name@, kind),
{
    let ghost ts = targets.deep_view();
    let mut best: Option<(String, u128)> = None;
    let mut i: usize = 0;
    while i < targets.len()
        invariant
            i <= targets.len(),
            ts == targets.deep_view(),
            ts.len() == targets@.len(),
            match best {
                None => best_match(ts, name@, kind, i as int) is None,
                Some(p) => best_match(ts, name@, kind, i as int) == Some((p.0@, p.1 as nat)),
            },
        decreases targets.len() - i,
    {
        let t = &targets[i];
        if t.kind == kind {
            let d = lev_distance(name.as_str(), t.name.as_str());
            let replace = match &best {
                None => true,
                Some(p) => d <= p.1,
            };
            if replace {
                best = Some((t.name.clone(), d));
            }
        }
        i = i + 1;
    }
    match best {
        None => None,
        Some(p) => if p.1 <= 3 {
            Some(p.0)
        } else {
            None
        },
    }
}

/// The build profile: release when requested, else dev.
pub open spec fn base_profile(profiles: ProfilesView, release: bool) -> ProfileView {
    if release {
        profiles.release
    } else {
        profiles.dev
    }
}

/// The testing profile: bench when a release build is requested, else test.
pub open spec fn testing_profile(profiles: ProfilesView, release: bool) -> ProfileView {
    if release {
        profiles.bench
    } else {
        profiles.test
    }
}

/// The single profile the compile mode applies to selected targets.
pub open spec fn mode_profile(profiles: ProfilesView, mode: CompileMode, release: bool) -> ProfileView {
    match mode {
        CompileMode::Test => testing_profile(profiles, release),
        CompileMode::Bench => profiles.bench,
        CompileMode::Build => base_profile(profiles, release),
        CompileMode::Doc { .. } => profiles.doc,
    }
}

/// Whether the mode-driven default selection includes the target.
pub open spec fn default_included(t: TargetView, mode: CompileMode) -> bool {
    match mode {
        CompileMode::Bench => t.benched,
        CompileMode::Test => t.tested,
        CompileMode::Build => t.is_bin() || t.is_lib(),
        CompileMode::Doc { .. } => t.documented,
    }
}

/// The profile paired with a target under the default selection: in test
/// mode an example is built with the build profile, every other selected
/// target takes the mode's own profile.
pub open spec fn default_profile_for(
    t: TargetView,
    mode: CompileMode,
    profiles: ProfilesView,
    release: bool,
) -> ProfileView {
    if mode == CompileMode::Test && t.is_example() {
        base_profile(profiles, release)
    } else {
        mode_profile(profiles, mode, release)
    }
}

/// The default selection over the first `i` targets, in declaration order.
pub open spec fn default_selection(
    ts: Seq<TargetView>,
    mode: CompileMode,
    profiles: ProfilesView,
    release: bool,
    i: int,
) -> Seq<(TargetView, ProfileView)>
    decreases i,
{
    if i <= 0 {
        Seq::empty()
    } else {
        let rest = default_selection(ts, mode, profiles, release, i - 1);
        let t = ts[i - 1];
        if default_included(t, mode) {
            rest.push((t, default_profile_for(t, mode, profiles, release)))
        } else {
            rest
        }
    }
}

/// The first library target among the first `i` targets, if any.
pub open spec fn first_lib(ts: Seq<TargetView>, i: int) -> Option<TargetView>
    decreases i,
{
    if i <= 0 {
        None
    } else {
        match first_lib(ts, i - 1) {
            Some(t) => Some(t),
            None => if ts[i - 1].is_lib() {
                Some(ts[i - 1])
            } else {
                None
            },
        }
    }
}

/// What `Everything` selects: the mode's default targets in declaration
/// order; in test mode a doctested library is appended once more with the
/// build profile (doctests need the library in its dev form), so the list
/// may repeat a target under two profiles by design.
pub open spec fn spec_everything_targets(
    ts: Seq<TargetView>,
    mode: CompileMode,
    profiles: ProfilesView,
    release: bool,
) -> Seq<(TargetView, ProfileView)> {
    let sel = default_selection(ts, mode, profiles, release, ts.len() as int);
    if mode == CompileMode::Test {
        match first_lib(ts, ts.len() as int) {
            Some(t) => if t.doctested {
                sel.push((t, base_profile(profiles, release)))
            } else {
                sel
            },
            None => sel,
        }
    } else {
        sel
    }
}

/// The first target with the given kind and name among the first `i`.
pub open spec fn find_named(ts: Seq<TargetView>, name: Seq<char>, kind: TargetKind, i: int) -> Option<
    TargetView,
>
    decreases i,
{
    if i <= 0 {
        None
    } else {
        match find_named(ts, name, kind, i - 1) {
            Some(t) => Some(t),
            None => if ts[i - 1].kind == kind && ts[i - 1].name == name {
                Some(ts[i - 1])
            } else {
                None
            },
        }
    }
}

/// Looks up the first `i` requested names of one kind, in request order,
/// pairing each with `profile`; an unknown name fails with a typo
/// suggestion when a near match exists.
pub open spec fn named_selection(
    ts: Seq<TargetView>,
    names: Seq<Seq<char>>,
    kind: TargetKind,
    profile: ProfileView,
    i: int,
) -> Result<Seq<(TargetView, ProfileView)>, SelectErrorView>
    decreases i,
{
    if i <= 0 {
        Ok(Seq::empty())
    } else {
        match named_selection(ts, names, kind, profile, i - 1) {
            Err(e) => Err(e),
            Ok(sel) => {
                let name = names[i - 1];
                match find_named(ts, name, kind, ts.len() as int) {
                    Some(t) => Ok(sel.push((t, profile))),
                    None => Err(SelectErrorView::NoTargetNamed {
                        kind,
                        name,
                        suggestion: spec_suggestion(ts, name, kind),
                    }),
                }
            },
        }
    }
}

/// What `Only` selects: the library first when requested (an error when
/// absent), then the named bins, examples, tests and benches in request
/// order. Examples always pair with the build profile whatever the mode;
/// tests with the testing profile; benches with the bench profile; bins
/// with the mode's profile.
pub open spec fn spec_only_targets(
    ts: Seq<TargetView>,
    lib: bool,
    bins: Seq<Seq<char>>,
    examples: Seq<Seq<char>>,
    tests: Seq<Seq<char>>,
    benches: Seq<Seq<char>>,
    mode: CompileMode,
    profiles: ProfilesView,
    release: bool,
) -> Result<Seq<(TargetView, ProfileView)>, SelectErrorView> {
    let lib_sel: Result<Seq<(TargetView, ProfileView)>, SelectErrorView> = if lib {
        match first_lib(ts, ts.len() as int) {
            Some(t) => Ok(seq![(t, mode_profile(profiles, mode, release))]),
            None => Err(SelectErrorView::NoLibraryTarget),
        }
    } else {
        Ok(Seq::empty())
    };
    match lib_sel {
        Err(e) => Err(e),
        Ok(sel0) => match named_selection(ts, bins, TargetKind::Bin, mode_profile(profiles, mode, release), bins.len() as int) {
            Err(e) => Err(e),
            Ok(sel1) => match named_selection(ts, examples, TargetKind::Example, base_profile(profiles, release), examples.len() as int) {
                Err(e) => Err(e),
                Ok(sel2) => match named_selection(ts, tests, TargetKind::Test, testing_profile(profiles, release), tests.len() as int) {
                    Err(e) => Err(e),
                    Ok(sel3) => match named_selection(ts, benches, TargetKind::Bench, profiles.bench, benches.len() as int) {
                        Err(e) => Err(e),
                        Ok(sel4) => Ok(sel0 + sel1 + sel2 + sel3 + sel4),
                    },
                },
            },
        },
    }
}

/// The full contract of [`generate_targets`]: the ordered (target, profile)
/// pairs a mode and filter select from a package, or the selection error.
pub open spec fn spec_generate_targets(
    pkg: PackageView,
    profiles: ProfilesView,
    mode: CompileMode,
    filter: CompileFilterView,
    release: bool,
) -> Result<Seq<(TargetView, ProfileView)>, SelectErrorView> {
    match filter {
        CompileFilterView::Everything => Ok(
            spec_everything_targets(pkg.targets, mode, profiles, release),
        ),
        CompileFilterView::Only { lib, bins, examples, tests, benches } => spec_only_targets(
            pkg.targets,
            lib,
            bins,
            examples,
            tests,
            benches,
            mode,
            profiles,
            release,
        ),
    }
}

/// Finds the first library target of the package, if any.
fn find_lib_target(targets: &Vec<Target>) -> (r: Option<&Target>)
    ensures
        match r {
            Some(t) => first_lib(targets.deep_view(), targets@.len() as int) == Some(t.deep_view()),
            None => first_lib(targets.deep_view(), targets@.len() as int) is None,
        },
{
    let mut i: usize = 0;
    while i < targets.len()
        invariant
            i <= targets.len(),
            first_lib(targets.deep_view(), i as int) is None,
        decreases targets.len() - i,
    {
        if targets[i].is_lib() {
            let ghost ts = targets.deep_view();
            proof {
                assert(first_lib(ts, i + 1) == Some(ts[i as int]));
                lemma_first_lib_extend(ts, i + 1, targets@.len() as int);
            }
            return Some(&targets[i]);
        }
        i = i + 1;
    }
    None
}

/// Once a library target is found among the first `i` targets, looking at
/// more targets does not change the result.
proof fn lemma_first_lib_extend(ts: Seq<TargetView>, i: int, n: int)
    requires
        0 <= i <= n <= ts.len(),
        first_lib(ts, i) is Some,
    ensures
        first_lib(ts, n) == first_lib(ts, i),
    decreases n,
{
    if n > i {
        lemma_first_lib_extend(ts, i, n - 1);
    }
}

/// Finds the first target with the given kind and name.
fn find_target_named<'a>(targets: &'a Vec<Target>, name: &String, kind: TargetKind) -> (r: Option<
    &'a Target,
>)
    ensures
        match r {
            Some(t) => find_named(targets.deep_view(), name@, kind, targets@.len() as int) == Some(
                t.deep_view(),
            ),
            None => find_named(targets.deep_view(), name@, kind, targets@.len() as int) is None,
        },
{
    let mut i: usize = 0;
    while i < targets.len()
        invariant
            i <= targets.len(),
            find_named(targets.deep_view(), name@, kind, i as int) is None,
        decreases targets.len() - i,
    {
        let t = &targets[i];
        if t.kind == kind && t.name == *name {
            let ghost ts = targets.deep_view();
            proof {
                assert(find_named(ts, name@, kind, i + 1) == Some(ts[i as int]));
                lemma_find_named_extend(ts, name@, kind, i + 1, targets@.len() as int);
            }
            return Some(&targets[i]);
        }
        i = i + 1;
    }
    None
}

/// Once a named target is found among the first `i` targets, looking at
/// more targets does not change the result.
proof fn lemma_find_named_extend(ts: Seq<TargetView>, name: Seq<char>, kind: TargetKind, i: int, n: int)
    requires
        0 <= i <= n <= ts.len(),
        find_named(ts, name, kind, i) is Some,
    ensures
        find_named(ts, name, kind, n) == find_named(ts, name, kind, i),
    decreases n,
{
    if n > i {
        lemma_find_named_extend(ts, name, kind, i, n - 1);
    }
}

/// Appends the named targets of one kind to `out`, pairing each with
/// `profile`; fails on the first unknown name, with a typo suggestion when
/// a near match exists.
fn push_named_targets(
    out: &mut Vec<(Target, Profile)>,
    targets: &Vec<Target>,
    names: &Vec<String>,
    kind: TargetKind,
    profile: &Profile,
) -> (r: Result<(), SelectError>)
    ensures
        match r {
            Ok(()) => named_selection(
                targets.deep_view(),
                names.deep_view(),
                kind,
                profile.deep_view(),
                names@.len() as int,
            ) matches Ok(sel) && final(out).deep_view() == old(out).deep_view() + sel,
            Err(e) => named_selection(
                targets.deep_view(),
                names.deep_view(),
                kind,
                profile.deep_view(),
                names@.len() as int,
            ) == Err::<Seq<(TargetView, ProfileView)>, SelectErrorView>(e.deep_view()),
        },
{
    let ghost ts = targets.deep_view();
    let ghost ns = names.deep_view();
    let ghost base = out.deep_view();
    let mut i: usize = 0;
    while i < names.len()
        invariant
            i <= names.len(),
            ts == targets.deep_view(),
            ns == names.deep_view(),
            named_selection(ts, ns, kind, profile.deep_view(), i as int) matches Ok(sel)
                && out.deep_view() == base + sel,
        decreases names.len() - i,
    {
        let name = &names[i];
        match find_target_named(targets, name, kind) {
            Some(t) => {
                let pair = (t.clone(), profile.clone());
                let ghost x = pair.deep_view();
                let ghost pre = out.deep_view();
                out.push(pair);
                proof {
                    let sel_prev = named_selection(ts, ns, kind, profile.deep_view(), i as int)->Ok_0;
                    assert(x == (t.deep_view(), profile.deep_view()));
                    assert(named_selection(ts, ns, kind, profile.deep_view(), i + 1) == Ok::<
                        Seq<(TargetView, ProfileView)>,
                        SelectErrorView,
                    >(sel_prev.push(x)));
                    assert(out.deep_view() =~= pre.push(x));
                    assert(out.deep_view() =~= base + sel_prev.push(x));
                }
            },
            None => {
                let suggestion = find_closest_target(targets, name, kind);
                let e = SelectError::NoTargetNamed { kind, name: name.clone(), suggestion };
                proof {
                    assert(named_selection(ts, ns, kind, profile.deep_view(), i + 1) == Err::<
                        Seq<(TargetView, ProfileView)>,
                        SelectErrorView,
                    >(e.deep_view()));
                    lemma_named_selection_err_extend(
                        ts,
                        ns,
                        kind,
                        profile.deep_view(),
                        i + 1,
                        ns.len() as int,
                    );
                }
                return Err(e);
            },
        }
        i = i + 1;
    }
    Ok(())
}

/// Once name lookup has failed on a prefix of the requested names, the
/// whole request fails with that same error.
proof fn lemma_named_selection_err_extend(
    ts: Seq<TargetView>,
    names: Seq<Seq<char>>,
    kind: TargetKind,
    profile: ProfileView,
    i: int,
    n: int,
)
    requires
        0 <= i <= n,
        named_selection(ts, names, kind, profile, i) is Err,
    ensures
        named_selection(ts, names, kind, profile, n) == named_selection(ts, names, kind, profile, i),
    decreases n,
{
    if n > i {
        lemma_named_selection_err_extend(ts, names, kind, profile, i, n - 1);
    }
}

/// Given the configuration of a build, generates all (target, profile)
/// pairs the package needs built, in deterministic order: declaration
/// order under `Everything`, request order under `Only`.
pub fn generate_targets(
    pkg: &Package,
    profiles: &Profiles,
    mode: CompileMode,
    filter: &CompileFilter,
    release: bool,
) -> (r: Result<Vec<(Target, Profile)>, SelectError>)
    ensures
        match r {
            Ok(v) => spec_generate_targets(
                pkg.deep_view(),
                profiles.deep_view(),
                mode,
                filter.deep_view(),
                release,
            ) == Ok::<_, SelectErrorView>(v.deep_view()),
            Err(e) => spec_generate_targets(
                pkg.deep_view(),
                profiles.deep_view(),
                mode,
                filter.deep_view(),
                release,
            ) == Err::<Seq<(TargetView, ProfileView)>, SelectErrorView>(e.deep_view()),
        },
{
    let ghost ts = pkg.targets.deep_view();
    let ghost pv = profiles.deep_view();
    let build_profile = if release {
        &profiles.release
    } else {
        &profiles.dev
    };
    let test_prof = if release {
        &profiles.bench
    } else {
        &profiles.test
    };
    let profile = match mode {
        CompileMode::Test => test_prof,
        CompileMode::Bench => &profiles.bench,
        CompileMode::Build => build_profile,
        CompileMode::Doc { .. } => &profiles.doc,
    };
    match filter {
        CompileFilter::Everything => {
            let mut out: Vec<(Target, Profile)> = Vec::new();
            let mut i: usize = 0;
            while i < pkg.targets.len()
                invariant
                    i <= pkg.targets.len(),
                    ts == pkg.targets.deep_view(),
                    pv == profiles.deep_view(),
                    profile.deep_view() == mode_profile(pv, mode, release),
                    build_profile.deep_view() == base_profile(pv, release),
                    out.deep_view() == default_selection(ts, mode, pv, release, i as int),
                decreases pkg.targets.len() - i,
            {
                let t = &pkg.targets[i];
                let included = match mode {
                    CompileMode::Bench => t.benched,
                    CompileMode::Test => t.tested,
                    CompileMode::Build => t.is_bin() || t.is_lib(),
                    CompileMode::Doc { .. } => t.documented,
                };
                if included {
                    let chosen = if mode == CompileMode::Test && t.is_example() {
                        build_profile
                    } else {
                        profile
                    };
                    out.push((t.clone(), chosen.clone()));
                    assert(out.deep_view() =~= default_selection(ts, mode, pv, release, i + 1));
                } else {
                    assert(out.deep_view() =~= default_selection(ts, mode, pv, release, i + 1));
                }
                i = i + 1;
            }
            if mode == CompileMode::Test {
                match find_lib_target(&pkg.targets) {
                    Some(t) => {
                        if t.doctested {
                            let pair = (t.clone(), build_profile.clone());
                            out.push(pair);
                            assert(out.deep_view() =~= spec_everything_targets(ts, mode, pv, release));
                        } else {
                            assert(out.deep_view() =~= spec_everything_targets(ts, mode, pv, release));
                        }
                    },
                    None => {
                        assert(out.deep_view() =~= spec_everything_targets(ts, mode, pv, release));
                    },
                }
            } else {
                assert(out.deep_view() =~= spec_everything_targets(ts, mode, pv, release));
            }
            Ok(out)
        },
        CompileFilter::Only { lib, bins, examples, tests, benches } => {
            assert(profile.deep_view() == mode_profile(pv, mode, release));
            assert(build_profile.deep_view() == base_profile(pv, release));
            assert(test_prof.deep_view() == testing_profile(pv, release));
            let ghost expected = spec_only_targets(
                ts,
                *lib,
                bins.deep_view(),
                examples.deep_view(),
                tests.deep_view(),
                benches.deep_view(),
                mode,
                pv,
                release,
            );
            let mut out: Vec<(Target, Profile)> = Vec::new();
            if *lib {
                match find_lib_target(&pkg.targets) {
                    Some(t) => {
                        let pair = (t.clone(), profile.clone());
                        out.push(pair);
                        assert(out.deep_view() =~= seq![(t.deep_view(), profile.deep_view())]);
                    },
                    None => {
                        return Err(SelectError::NoLibraryTarget);
                    },
                }
            }
            let ghost sel0 = out.deep_view();
            match push_named_targets(&mut out, &pkg.targets, bins, TargetKind::Bin, profile) {
                Ok(()) => {},
                Err(e) => {
                    assert(expected == Err::<Seq<(TargetView, ProfileView)>, SelectErrorView>(
                        e.deep_view(),
                    ));
                    return Err(e);
                },
            }
            match push_named_targets(&mut out, &pkg.targets, examples, TargetKind::Example, build_profile) {
                Ok(()) => {},
                Err(e) => {
                    assert(expected == Err::<Seq<(TargetView, ProfileView)>, SelectErrorView>(
                        e.deep_view(),
                    ));
                    return Err(e);
                },
            }
            match push_named_targets(&mut out, &pkg.targets, tests, TargetKind::Test, test_prof) {
                Ok(()) => {},
                Err(e) => {
                    assert(expected == Err::<Seq<(TargetView, ProfileView)>, SelectErrorView>(
                        e.deep_view(),
                    ));
                    return Err(e);
                },
            }
            match push_named_targets(&mut out, &pkg.targets, benches, TargetKind::Bench, &profiles.bench) {
                Ok(()) => {},
                Err(e) => {
                    assert(expected == Err::<Seq<(TargetView, ProfileView)>, SelectErrorView>(
                        e.deep_view(),
                    ));
                    return Err(e);
                },
            }
            proof {
                assert(expected matches Ok(s) && out.deep_view() =~= s);
            }
            Ok(out)
        },
    }
}

/// A found library target is one of the package's targets and is a library.
pub proof fn lemma_first_lib_mem(ts: Seq<TargetView>, i: int)
    requires
        first_lib(ts, i) is Some,
        i <= ts.len(),
    ensures
        exists|k: int| 0 <= k < i && ts[k] == first_lib(ts, i)->Some_0,
        first_lib(ts, i)->Some_0.is_lib(),
    decreases i,
{
    if i > 0 {
        if first_lib(ts, i - 1) is Some {
            lemma_first_lib_mem(ts, i - 1);
        } else {
            assert(ts[i - 1] == first_lib(ts, i)->Some_0);
        }
    }
}

/// A target found by name lookup has the kind it was looked up under.
pub proof fn lemma_find_named_kind(ts: Seq<TargetView>, name: Seq<char>, kind: TargetKind, i: int)
    requires
        find_named(ts, name, kind, i) is Some,
    ensures
        find_named(ts, name, kind, i)->Some_0.kind == kind,
        find_named(ts, name, kind, i)->Some_0.name == name,
    decreases i,
{
    if i > 0 && find_named(ts, name, kind, i - 1) is Some {
        lemma_find_named_kind(ts, name, kind, i - 1);
    }
}

/// When name lookup of a whole kind succeeds, every requested name was
/// found, and every emitted pair carries the kind's profile and a target
/// of that kind.
pub proof fn lemma_named_selection_ok(
    ts: Seq<TargetView>,
    names: Seq<Seq<char>>,
    kind: TargetKind,
    profile: ProfileView,
    i: int,
)
    requires
        named_selection(ts, names, kind, profile, i) is Ok,
        i <= names.len(),
    ensures
        forall|j: int| 0 <= j < i ==> find_named(ts, names[j], kind, ts.len() as int) is Some,
        named_selection(ts, names, kind, profile, i)->Ok_0.len() == if i >= 0 {
            i
        } else {
            0
        },
        forall|j: int|
            0 <= j < i ==> #[trigger] named_selection(ts, names, kind, profile, i)->Ok_0[j] == (
                find_named(ts, names[j], kind, ts.len() as int)->Some_0,
                profile,
            ),
    decreases i,
{
    if i > 0 {
        lemma_named_selection_ok(ts, names, kind, profile, i - 1);
    }
}

/// When name lookup of a kind fails, the reported error names the first
/// missing name, under that kind, with the typo suggestion the package's
/// targets give for it.
pub proof fn lemma_named_selection_err(
    ts: Seq<TargetView>,
    names: Seq<Seq<char>>,
    kind: TargetKind,
    profile: ProfileView,
    i: int,
)
    requires
        named_selection(ts, names, kind, profile, i) is Err,
    ensures
        named_selection(ts, names, kind, profile, i)->Err_0 matches SelectErrorView::NoTargetNamed {
            kind: k,
            name,
            suggestion,
        } && k == kind && suggestion == spec_suggestion(ts, name, kind) && find_named(
            ts,
            name,
            kind,
            ts.len() as int,
        ) is None && (exists|j: int| 0 <= j < i && names[j] == name),
    decreases i,
{
    if i > 0 && named_selection(ts, names, kind, profile, i - 1) is Err {
        lemma_named_selection_err(ts, names, kind, profile, i - 1);
    }
}

/// The best same-kind candidate is within the distance of every same-kind
/// target seen so far.
pub proof fn lemma_best_match_min(ts: Seq<TargetView>, name: Seq<char>, kind: TargetKind, i: int, k: int)
    requires
        0 <= k < i <= ts.len(),
        ts[k].kind == kind,
    ensures
        best_match(ts, name, kind, i) matches Some(p) && p.1 <= spec_lev(name, ts[k].name),
    decreases i,
{
    if k < i - 1 {
        lemma_best_match_min(ts, name, kind, i - 1, k);
    }
}

/// An `Only` request that names a target the package does not have fails.
/// This holds for every kind's name list; the reported error concerns the
/// first failing name, carries its kind, and offers a typo suggestion
/// exactly when the package has a same-kind target within edit distance
/// [`suggestion_distance`] of the missing name.
pub proof fn lemma_only_unknown_name_fails(
    ts: Seq<TargetView>,
    lib: bool,
    bins: Seq<Seq<char>>,
    examples: Seq<Seq<char>>,
    tests: Seq<Seq<char>>,
    benches: Seq<Seq<char>>,
    mode: CompileMode,
    profiles: ProfilesView,
    release: bool,
)
    requires
        (exists|j: int| 0 <= j < bins.len() && find_named(ts, bins[j], TargetKind::Bin, ts.len() as int) is None)
            || (exists|j: int| 0 <= j < examples.len() && find_named(ts, examples[j], TargetKind::Example, ts.len() as int) is None)
            || (exists|j: int| 0 <= j < tests.len() && find_named(ts, tests[j], TargetKind::Test, ts.len() as int) is None)
            || (exists|j: int| 0 <= j < benches.len() && find_named(ts, benches[j], TargetKind::Bench, ts.len() as int) is None),
    ensures
        spec_only_targets(ts, lib, bins, examples, tests, benches, mode, profiles, release) is Err,
        spec_only_targets(ts, lib, bins, examples, tests, benches, mode, profiles, release) matches Err(e)
            ==> (e is NoLibraryTarget || (e matches SelectErrorView::NoTargetNamed { kind, name, suggestion }
                && suggestion == spec_suggestion(ts, name, kind)
                && find_named(ts, name, kind, ts.len() as int) is None
                && (kind == TargetKind::Bin ==> name_listed(bins, name))
                && (kind == TargetKind::Example ==> name_listed(examples, name))
                && (kind == TargetKind::Test ==> name_listed(tests, name))
                && (kind == TargetKind::Bench ==> name_listed(benches, name)))),
{
    let r = spec_only_targets(ts, lib, bins, examples, tests, benches, mode, profiles, release);
    if r is Ok {
        lemma_named_selection_ok(ts, bins, TargetKind::Bin, mode_profile(profiles, mode, release), bins.len() as int);
        lemma_named_selection_ok(ts, examples, TargetKind::Example, base_profile(profiles, release), examples.len() as int);
        lemma_named_selection_ok(ts, tests, TargetKind::Test, testing_profile(profiles, release), tests.len() as int);
        lemma_named_selection_ok(ts, benches, TargetKind::Bench, profiles.bench, benches.len() as int);
        assert(false);
    }
    if r matches Err(e) && !(e is NoLibraryTarget) {
        if named_selection(ts, bins, TargetKind::Bin, mode_profile(profiles, mode, release), bins.len() as int) is Err {
            lemma_named_selection_err(ts, bins, TargetKind::Bin, mode_profile(profiles, mode, release), bins.len() as int);
        } else if named_selection(ts, examples, TargetKind::Example, base_profile(profiles, release), examples.len() as int) is Err {
            lemma_named_selection_err(ts, examples, TargetKind::Example, base_profile(profiles, release), examples.len() as int);
        } else if named_selection(ts, tests, TargetKind::Test, testing_profile(profiles, release), tests.len() as int) is Err {
            lemma_named_selection_err(ts, tests, TargetKind::Test, testing_profile(profiles, release), tests.len() as int);
        } else {
            lemma_named_selection_err(ts, benches, TargetKind::Bench, profiles.bench, benches.len() as int);
        }
    }
}

/// A same-kind target within the suggestion distance guarantees that a
/// suggestion is offered.
pub proof fn lemma_suggestion_present(ts: Seq<TargetView>, name: Seq<char>, kind: TargetKind, k: int)
    requires
        0 <= k < ts.len(),
        ts[k].kind == kind,
        spec_lev(name, ts[k].name) <= suggestion_distance(),
    ensures
        spec_suggestion(ts, name, kind) is Some,
{
    lemma_best_match_min(ts, name, kind, ts.len() as int, k);
}

/// Every target selected while included in a prefix of the default
/// selection stays in it, paired with its mode-determined profile.
pub proof fn lemma_default_selection_mem(
    ts: Seq<TargetView>,
    mode: CompileMode,
    profiles: ProfilesView,
    release: bool,
    k: int,
    i: int,
)
    requires
        0 <= k < i <= ts.len(),
        default_included(ts[k], mode),
    ensures
        exists|j: int|
            0 <= j < default_selection(ts, mode, profiles, release, i).len()
                && default_selection(ts, mode, profiles, release, i)[j] == (
            ts[k],
            default_profile_for(ts[k], mode, profiles, release),
        ),
    decreases i,
{
    let sel = default_selection(ts, mode, profiles, release, i);
    if i == k + 1 {
        let prev = default_selection(ts, mode, profiles, release, i - 1);
        assert(sel[prev.len() as int] == (ts[k], default_profile_for(ts[k], mode, profiles, release)));
    } else {
        lemma_default_selection_mem(ts, mode, profiles, release, k, i - 1);
        let prev = default_selection(ts, mode, profiles, release, i - 1);
        let j = choose|j: int|
            0 <= j < prev.len() && prev[j] == (ts[k], default_profile_for(ts[k], mode, profiles, release));
        assert(sel[j] == (ts[k], default_profile_for(ts[k], mode, profiles, release)));
    }
}

/// Testing everything in a package whose library is doctested emits that
/// library once more, as the final pair, under the build profile — in
/// addition to its appearance under the testing profile when the library
/// is tested. The duplicate is intended: doctests need the library built
/// in its dev form.
pub proof fn lemma_doctest_library_appended(
    pkg: PackageView,
    profiles: ProfilesView,
    release: bool,
)
    requires
        first_lib(pkg.targets, pkg.targets.len() as int) matches Some(t) && t.doctested,
    ensures
        spec_generate_targets(pkg, profiles, CompileMode::Test, CompileFilterView::Everything, release)
            matches Ok(sel) && sel.len() > 0 && sel.last() == (
            first_lib(pkg.targets, pkg.targets.len() as int)->Some_0,
            base_profile(profiles, release),
        ),
        first_lib(pkg.targets, pkg.targets.len() as int)->Some_0.tested ==> exists|j: int|
            0 <= j < spec_generate_targets(
                pkg,
                profiles,
                CompileMode::Test,
                CompileFilterView::Everything,
                release,
            )->Ok_0.len() - 1 && spec_generate_targets(
                pkg,
                profiles,
                CompileMode::Test,
                CompileFilterView::Everything,
                release,
            )->Ok_0[j] == (
                first_lib(pkg.targets, pkg.targets.len() as int)->Some_0,
                testing_profile(profiles, release),
            ),
{
    let ts = pkg.targets;
    let t = first_lib(ts, ts.len() as int)->Some_0;
    let base = default_selection(ts, CompileMode::Test, profiles, release, ts.len() as int);
    let sel = spec_generate_targets(
        pkg,
        profiles,
        CompileMode::Test,
        CompileFilterView::Everything,
        release,
    )->Ok_0;
    assert(sel == base.push((t, base_profile(profiles, release))));
    if t.tested {
        lemma_first_lib_mem(ts, ts.len() as int);
        let k = choose|k: int| 0 <= k < ts.len() && ts[k] == t;
        lemma_default_selection_mem(ts, CompileMode::Test, profiles, release, k, ts.len() as int);
        let j = choose|j: int|
            0 <= j < base.len() && base[j] == (
                t,
                default_profile_for(t, CompileMode::Test, profiles, release),
            );
        assert(!t.is_example());
        assert(sel[j] == (t, testing_profile(profiles, release)));
    }
}

/// Under an `Only` filter, every selected example target is paired with
/// the build profile, whatever the compile mode.
pub proof fn lemma_only_examples_use_build_profile(
    pkg: PackageView,
    profiles: ProfilesView,
    mode: CompileMode,
    release: bool,
    lib: bool,
    bins: Seq<Seq<char>>,
    examples: Seq<Seq<char>>,
    tests: Seq<Seq<char>>,
    benches: Seq<Seq<char>>,
)
    requires
        spec_generate_targets(
            pkg,
            profiles,
            mode,
            CompileFilterView::Only { lib, bins, examples, tests, benches },
            release,
        ) is Ok,
    ensures
        forall|j: int|
            0 <= j < spec_generate_targets(
                pkg,
                profiles,
                mode,
                CompileFilterView::Only { lib, bins, examples, tests, benches },
                release,
            )->Ok_0.len() && (#[trigger] spec_generate_targets(
                pkg,
                profiles,
                mode,
                CompileFilterView::Only { lib, bins, examples, tests, benches },
                release,
            )->Ok_0[j]).0.is_example() ==> spec_generate_targets(
                pkg,
                profiles,
                mode,
                CompileFilterView::Only { lib, bins, examples, tests, benches },
                release,
            )->Ok_0[j].1 == base_profile(profiles, release),
{
    let ts = pkg.targets;
    let sel = spec_generate_targets(
        pkg,
        profiles,
        mode,
        CompileFilterView::Only { lib, bins, examples, tests, benches },
        release,
    )->Ok_0;
    let sel0: Seq<(TargetView, ProfileView)> = if lib {
        seq![
            (first_lib(ts, ts.len() as int)->Some_0, mode_profile(profiles, mode, release)),
        ]
    } else {
        Seq::empty()
    };
    let sel1 = named_selection(ts, bins, TargetKind::Bin, mode_profile(profiles, mode, release), bins.len() as int)->Ok_0;
    let sel2 = named_selection(ts, examples, TargetKind::Example, base_profile(profiles, release), examples.len() as int)->Ok_0;
    let sel3 = named_selection(ts, tests, TargetKind::Test, testing_profile(profiles, release), tests.len() as int)->Ok_0;
    let sel4 = named_selection(ts, benches, TargetKind::Bench, profiles.bench, benches.len() as int)->Ok_0;
    assert(sel == sel0 + sel1 + sel2 + sel3 + sel4);
    lemma_named_selection_ok(ts, bins, TargetKind::Bin, mode_profile(profiles, mode, release), bins.len() as int);
    lemma_named_selection_ok(ts, examples, TargetKind::Example, base_profile(profiles, release), examples.len() as int);
    lemma_named_selection_ok(ts, tests, TargetKind::Test, testing_profile(profiles, release), tests.len() as int);
    lemma_named_selection_ok(ts, benches, TargetKind::Bench, profiles.bench, benches.len() as int);
    if lib {
        lemma_first_lib_mem(ts, ts.len() as int);
    }
    assert forall|j: int| 0 <= j < sel.len() && (#[trigger] sel[j]).0.is_example() implies sel[j].1
        == base_profile(profiles, release) by {
        if j < sel0.len() {
            assert(sel[j] == sel0[j]);
        } else if j < sel0.len() + sel1.len() {
            let k = j - sel0.len();
            assert(sel[j] == sel1[k]);
            lemma_find_named_kind(ts, bins[k], TargetKind::Bin, ts.len() as int);
        } else if j < sel0.len() + sel1.len() + sel2.len() {
            assert(sel[j] == sel2[j - sel0.len() - sel1.len()]);
        } else if j < sel0.len() + sel1.len() + sel2.len() + sel3.len() {
            let k = j - sel0.len() - sel1.len() - sel2.len();
            assert(sel[j] == sel3[k]);
            lemma_find_named_kind(ts, tests[k], TargetKind::Test, ts.len() as int);
        } else {
            let k = j - sel0.len() - sel1.len() - sel2.len() - sel3.len();
            assert(sel[j] == sel4[k]);
            lemma_find_named_kind(ts, benches[k], TargetKind::Bench, ts.len() as int);
        }
    }
}

} // verus!
