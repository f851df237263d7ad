//! The build-configuration scraper: merges the command line's job count and
//! target triple with the config file's values and the per-triple,
//! per-library override tables, including the small grammar that parses
//! injected `rustc-flags` link metadata.

use vstd::prelude::*;

use crate::config::{Config, ConfigError, ConfigErrorView, ConfigView, LocatedView, spec_get_i64,
    spec_get_string, spec_get_table, spec_get_list};
use crate::manifest::{clone_string_vec, clone_string_pair_vec};
use crate::text::{split_spaces, split_spaces_exec};

verus! {

/// Mathematical image of a [`BuildOutput`].
pub ghost struct BuildOutputView {
    pub library_paths: Seq<Seq<char>>,
    pub library_links: Seq<Seq<char>>,
    pub cfgs: Seq<Seq<char>>,
    pub metadata: Seq<(Seq<char>, Seq<char>)>,
    pub rerun_if_changed: Seq<Seq<char>>,
}

/// Link information injected for one library, letting it bypass the normal
/// build-script mechanism: search paths, link names, compiler cfg flags and
/// free-form metadata for dependents.
#[derive(Debug)]
pub struct BuildOutput {
    pub library_paths: Vec<String>,
    pub library_links: Vec<String>,
    pub cfgs: Vec<String>,
    pub metadata: Vec<(String, String)>,
    pub rerun_if_changed: Vec<String>,
}

impl DeepView for BuildOutput {
    type V = BuildOutputView;

    open spec fn deep_view(&self) -> BuildOutputView {
        BuildOutputView {
            library_paths: self.library_paths.deep_view(),
            library_links: self.library_links.deep_view(),
            cfgs: self.cfgs.deep_view(),
            metadata: self.metadata.deep_view(),
            rerun_if_changed: self.rerun_if_changed.deep_view(),
        }
    }
}

/// A build output with nothing declared.
pub open spec fn empty_output() -> BuildOutputView {
    BuildOutputView {
        library_paths: Seq::empty(),
        library_links: Seq::empty(),
        cfgs: Seq::empty(),
        metadata: Seq::empty(),
        rerun_if_changed: Seq::empty(),
    }
}

/// Mathematical image of a [`TargetConfig`].
pub ghost struct TargetConfigView {
    pub ar: Option<Seq<char>>,
    pub linker: Option<Seq<char>>,
    pub overrides: Seq<(Seq<char>, BuildOutputView)>,
}

/// Configuration scraped for one target triple: archiver and linker paths
/// and the per-library overrides, keyed by library name, in table order.
#[derive(Debug)]
pub struct TargetConfig {
    pub ar: Option<String>,
    pub linker: Option<String>,
    pub overrides: Vec<(String, BuildOutput)>,
}

impl DeepView for TargetConfig {
    type V = TargetConfigView;

    open spec fn deep_view(&self) -> TargetConfigView {
        TargetConfigView {
            ar: self.ar.deep_view(),
            linker: self.linker.deep_view(),
            overrides: self.overrides.deep_view(),
        }
    }
}

/// Mathematical image of a [`BuildConfig`].
pub ghost struct BuildConfigView {
    pub jobs: u32,
    pub requested_target: Option<Seq<char>>,
    pub host: TargetConfigView,
    pub target: TargetConfigView,
    pub release: bool,
    pub test: bool,
    pub doc_all: bool,
}

/// The merged build configuration handed to the compilation engine.
#[derive(Debug)]
pub struct BuildConfig {
    pub jobs: u32,
    pub requested_target: Option<String>,
    pub host: TargetConfig,
    pub target: TargetConfig,
    pub release: bool,
    pub test: bool,
    pub doc_all: bool,
}

impl DeepView for BuildConfig {
    type V = BuildConfigView;

    open spec fn deep_view(&self) -> BuildConfigView {
        BuildConfigView {
            jobs: self.jobs,
            requested_target: self.requested_target.deep_view(),
            host: self.host.deep_view(),
            target: self.target.deep_view(),
            release: self.release,
            test: self.test,
            doc_all: self.doc_all,
        }
    }
}

/// Mathematical image of a [`FlagParseError`].
pub ghost enum FlagParseErrorView {
    Unrecognized { token: Seq<char> },
    MissingValue { flag: Seq<char> },
}

/// Failure of the `rustc-flags` grammar, naming the offending fragment.
#[derive(Debug)]
pub enum FlagParseError {
    /// A token that is neither `-L` nor `-l`, bare or attached.
    Unrecognized { token: String },
    /// A bare `-L` or `-l` with no following value token.
    MissingValue { flag: String },
}

impl DeepView for FlagParseError {
    type V = FlagParseErrorView;

    open spec fn deep_view(&self) -> FlagParseErrorView {
        match self {
            FlagParseError::Unrecognized { token } => FlagParseErrorView::Unrecognized {
                token: token@,
            },
            FlagParseError::MissingValue { flag } => FlagParseErrorView::MissingValue { flag: flag@ },
        }
    }
}

/// Parses the tokens of a `rustc-flags` value from position `i` on: an
/// alternation of `-L <path>` and `-l <name>` (bare, taking the next token
/// as value, or attached, as `-L<path>`), collecting search paths and link
/// names in order. Any other token is an error naming it.
pub open spec fn parse_flags_from(toks: Seq<Seq<char>>, i: int) -> Result<
    (Seq<Seq<char>>, Seq<Seq<char>>),
    FlagParseErrorView,
>
    decreases toks.len() - i,
{
    if i < 0 || i >= toks.len() {
        Ok((Seq::empty(), Seq::empty()))
    } else {
        let t = toks[i];
        if t == "-L"@ || t == "-l"@ {
            if i + 1 >= toks.len() {
                Err(FlagParseErrorView::MissingValue { flag: t })
            } else {
                match parse_flags_from(toks, i + 2) {
                    Err(e) => Err(e),
                    Ok(rest) => if t == "-L"@ {
                        Ok((seq![toks[i + 1]] + rest.0, rest.1))
                    } else {
                        Ok((rest.0, seq![toks[i + 1]] + rest.1))
                    },
                }
            }
        } else if t.len() >= 2 && t.take(2) == "-L"@ {
            match parse_flags_from(toks, i + 1) {
                Err(e) => Err(e),
                Ok(rest) => Ok((seq![t.skip(2)] + rest.0, rest.1)),
            }
        } else if t.len() >= 2 && t.take(2) == "-l"@ {
            match parse_flags_from(toks, i + 1) {
                Err(e) => Err(e),
                Ok(rest) => Ok((rest.0, seq![t.skip(2)] + rest.1)),
            }
        } else {
            Err(FlagParseErrorView::Unrecognized { token: t })
        }
    }
}

/// The meaning of a whole `rustc-flags` string: its space-separated tokens
/// parsed as alternating `-L`/`-l` flags.
pub open spec fn spec_parse_rustc_flags(value: Seq<char>) -> Result<
    (Seq<Seq<char>>, Seq<Seq<char>>),
    FlagParseErrorView,
> {
    parse_flags_from(split_spaces(value), 0)
}

/// Parses a `rustc-flags` string into its library search paths and its
/// link-library names.
pub fn parse_rustc_flags(value: &str) -> (r: Result<(Vec<String>, Vec<String>), FlagParseError>)
    ensures
        match r {
            Ok(pl) => spec_parse_rustc_flags(value@) == Ok::<_, FlagParseErrorView>(
                (pl.0.deep_view(), pl.1.deep_view()),
            ),
            Err(e) => spec_parse_rustc_flags(value@) == Err::<
                (Seq<Seq<char>>, Seq<Seq<char>>),
                _,
            >(e.deep_view()),
        },
{
    let toks = split_spaces_exec(value);
    let ghost td = toks.deep_view();
    let mut paths: Vec<String> = Vec::new();
    let mut links: Vec<String> = Vec::new();
    let mut i: usize = 0;
    proof {
        assert(paths.deep_view() =~= Seq::<Seq<char>>::empty());
        assert(links.deep_view() =~= Seq::<Seq<char>>::empty());
        if parse_flags_from(td, 0) is Ok {
            let rest = parse_flags_from(td, 0)->Ok_0;
            assert(paths.deep_view() + rest.0 =~= rest.0);
            assert(links.deep_view() + rest.1 =~= rest.1);
        }
    }
    while i < toks.len()
        invariant
            i <= toks.len(),
            td == toks.deep_view(),
            td == split_spaces(value@),
            td.len() == toks@.len(),
            match parse_flags_from(td, i as int) {
                Ok(rest) => parse_flags_from(td, 0) == Ok::<_, FlagParseErrorView>(
                    (paths.deep_view() + rest.0, links.deep_view() + rest.1),
                ),
                Err(e) => parse_flags_from(td, 0) == Err::<
                    (Seq<Seq<char>>, Seq<Seq<char>>),
                    _,
                >(e),
            },
        decreases toks.len() - i,
    {
        let tok = &toks[i];
        let lit_upper: String = "-L".to_owned();
        let lit_lower: String = "-l".to_owned();
        if *tok == lit_upper || *tok == lit_lower {
            if i + 1 >= toks.len() {
                proof {
                    assert(td[i as int] == tok@);
                    assert(parse_flags_from(td, i as int) == Err::<
                        (Seq<Seq<char>>, Seq<Seq<char>>),
                        _,
                    >(FlagParseErrorView::MissingValue { flag: tok@ }));
                }
                return Err(FlagParseError::MissingValue { flag: tok.clone() });
            }
            let value_tok = toks[i + 1].clone();
            let is_upper = *tok == lit_upper;
            let ghost pre_paths = paths.deep_view();
            let ghost pre_links = links.deep_view();
            if is_upper {
                paths.push(value_tok);
                proof {
                    assert(paths.deep_view() =~= pre_paths.push(td[i + 1]));
                }
            } else {
                links.push(value_tok);
                proof {
                    assert(links.deep_view() =~= pre_links.push(td[i + 1]));
                }
            }
            proof {
                if parse_flags_from(td, i + 2) is Ok {
                    let rest = parse_flags_from(td, i + 2)->Ok_0;
                    if is_upper {
                        assert(pre_paths + (seq![td[i + 1]] + rest.0) =~= pre_paths.push(td[i + 1])
                            + rest.0);
                    } else {
                        assert(pre_links + (seq![td[i + 1]] + rest.1) =~= pre_links.push(td[i + 1])
                            + rest.1);
                    }
                }
            }
            i = i + 2;
        } else {
            let n = tok.as_str().unicode_len();
            if n >= 2 {
                let prefix = tok.as_str().substring_char(0, 2).to_owned();
                proof {
                    assert(tok@.subrange(0, 2) =~= tok@.take(2));
                }
                if prefix == lit_upper || prefix == lit_lower {
                    let rest_val = tok.as_str().substring_char(2, n).to_owned();
                    proof {
                        assert(tok@.subrange(2, n as int) =~= tok@.skip(2));
                    }
                    let is_upper = prefix == lit_upper;
                    let ghost pre_paths = paths.deep_view();
                    let ghost pre_links = links.deep_view();
                    if is_upper {
                        paths.push(rest_val);
                        proof {
                            assert(paths.deep_view() =~= pre_paths.push(td[i as int].skip(2)));
                        }
                    } else {
                        links.push(rest_val);
                        proof {
                            assert(links.deep_view() =~= pre_links.push(td[i as int].skip(2)));
                        }
                    }
                    proof {
                        if parse_flags_from(td, i + 1) is Ok {
                            let rest = parse_flags_from(td, i + 1)->Ok_0;
                            if is_upper {
                                assert(pre_paths + (seq![td[i as int].skip(2)] + rest.0)
                                    =~= pre_paths.push(td[i as int].skip(2)) + rest.0);
                            } else {
                                assert(pre_links + (seq![td[i as int].skip(2)] + rest.1)
                                    =~= pre_links.push(td[i as int].skip(2)) + rest.1);
                            }
                        }
                    }
                    i = i + 1;
                } else {
                    proof {
                        assert(td[i as int] == tok@);
                        assert(parse_flags_from(td, i as int) == Err::<
                            (Seq<Seq<char>>, Seq<Seq<char>>),
                            _,
                        >(FlagParseErrorView::Unrecognized { token: tok@ }));
                    }
                    return Err(FlagParseError::Unrecognized { token: tok.clone() });
                }
            } else {
                proof {
                    assert(td[i as int] == tok@);
                    assert(parse_flags_from(td, i as int) == Err::<
                        (Seq<Seq<char>>, Seq<Seq<char>>),
                        _,
                    >(FlagParseErrorView::Unrecognized { token: tok@ }));
                }
                return Err(FlagParseError::Unrecognized { token: tok.clone() });
            }
        }
    }
    proof {
        assert(parse_flags_from(td, i as int) == Ok::<_, FlagParseErrorView>(
            (Seq::<Seq<char>>::empty(), Seq::<Seq<char>>::empty()),
        ));
        assert(paths.deep_view() + Seq::<Seq<char>>::empty() =~= paths.deep_view());
        assert(links.deep_view() + Seq::<Seq<char>>::empty() =~= links.deep_view());
    }
    Ok((paths, links))
}

/// A key and a child name joined with a dot.
pub open spec fn dot_key(a: Seq<char>, b: Seq<char>) -> Seq<char> {
    a + "."@ + b
}

/// Joins a key and a child name with a dot.
fn dot_key_exec(a: &String, b: &String) -> (r: String)
    ensures
        r@ == dot_key(a@, b@),
{
    let mut r = a.clone();
    r.append(".");
    r.append(b.as_str());
    r
}

/// The first components of a list of located strings.
pub open spec fn firsts(l: Seq<(Seq<char>, Seq<char>)>) -> Seq<Seq<char>> {
    l.map_values(|p: (Seq<char>, Seq<char>)| p.0)
}

/// Appends the first component of every pair of `src` to `dst`.
fn extend_firsts(dst: &mut Vec<String>, src: &Vec<(String, String)>)
    ensures
        final(dst).deep_view() == old(dst).deep_view() + firsts(src.deep_view()),
{
    let ghost base = old(dst).deep_view();
    let mut i: usize = 0;
    while i < src.len()
        invariant
            i <= src.len(),
            dst.deep_view() =~= base + firsts(src.deep_view()).take(i as int),
        decreases src.len() - i,
    {
        let s = src[i].0.clone();
        let ghost predv = dst.deep_view();
        proof {
            assert(s@ == src.deep_view()[i as int].0);
            assert(firsts(src.deep_view())[i as int] == src.deep_view()[i as int].0);
        }
        dst.push(s);
        proof {
            assert(dst.deep_view() =~= predv.push(src.deep_view()[i as int].0));
            assert(predv.push(src.deep_view()[i as int].0) =~= base + firsts(src.deep_view()).take(
                i + 1,
            ));
        }
        i = i + 1;
    }
    assert(firsts(src.deep_view()).take(src@.len() as int) =~= firsts(src.deep_view()));
}

/// Appends every string of `src` to `dst`.
pub(crate) fn extend_strings(dst: &mut Vec<String>, src: &Vec<String>)
    ensures
        final(dst).deep_view() == old(dst).deep_view() + src.deep_view(),
{
    let ghost base = old(dst).deep_view();
    let mut i: usize = 0;
    while i < src.len()
        invariant
            i <= src.len(),
            dst.deep_view() =~= base + src.deep_view().take(i as int),
        decreases src.len() - i,
    {
        let s = src[i].clone();
        let ghost predv = dst.deep_view();
        dst.push(s);
        proof {
            assert(dst.deep_view() =~= predv.push(src.deep_view()[i as int]));
            assert(predv.push(src.deep_view()[i as int]) =~= base + src.deep_view().take(i + 1));
        }
        i = i + 1;
    }
    assert(src.deep_view().take(src@.len() as int) =~= src.deep_view());
}

/// Folds one recognized key of a library's override table into the build
/// output collected so far: `rustc-flags` runs through the flag grammar,
/// the three literal list keys append, and any other key becomes free-form
/// metadata. An absent entry contributes nothing.
pub open spec fn apply_output_key(
    cfg: ConfigView,
    lib_key: Seq<char>,
    out: BuildOutputView,
    k: Seq<char>,
) -> Result<BuildOutputView, ConfigErrorView> {
    let key = dot_key(lib_key, k);
    if k == "rustc-flags"@ {
        match spec_get_string(cfg, key) {
            Err(e) => Err(e),
            Ok(None) => Ok(out),
            Ok(Some(flags)) => match spec_parse_rustc_flags(flags.val) {
                Ok(pl) => Ok(BuildOutputView {
                    library_paths: out.library_paths + pl.0,
                    library_links: out.library_links + pl.1,
                    cfgs: out.cfgs,
                    metadata: out.metadata,
                    rerun_if_changed: out.rerun_if_changed,
                }),
                Err(FlagParseErrorView::Unrecognized { token }) => Err(ConfigErrorView::BadFlag {
                    token,
                    key,
                    definition: flags.definition,
                }),
                Err(FlagParseErrorView::MissingValue { flag }) => Err(
                    ConfigErrorView::MissingFlagValue { flag, key, definition: flags.definition },
                ),
            },
        }
    } else if k == "rustc-link-lib"@ {
        match spec_get_list(cfg, key) {
            Err(e) => Err(e),
            Ok(None) => Ok(out),
            Ok(Some(l)) => Ok(BuildOutputView {
                library_paths: out.library_paths,
                library_links: out.library_links + firsts(l.val),
                cfgs: out.cfgs,
                metadata: out.metadata,
                rerun_if_changed: out.rerun_if_changed,
            }),
        }
    } else if k == "rustc-link-search"@ {
        match spec_get_list(cfg, key) {
            Err(e) => Err(e),
            Ok(None) => Ok(out),
            Ok(Some(l)) => Ok(BuildOutputView {
                library_paths: out.library_paths + firsts(l.val),
                library_links: out.library_links,
                cfgs: out.cfgs,
                metadata: out.metadata,
                rerun_if_changed: out.rerun_if_changed,
            }),
        }
    } else if k == "rustc-cfg"@ {
        match spec_get_list(cfg, key) {
            Err(e) => Err(e),
            Ok(None) => Ok(out),
            Ok(Some(l)) => Ok(BuildOutputView {
                library_paths: out.library_paths,
                library_links: out.library_links,
                cfgs: out.cfgs + firsts(l.val),
                metadata: out.metadata,
                rerun_if_changed: out.rerun_if_changed,
            }),
        }
    } else {
        match spec_get_string(cfg, key) {
            Err(e) => Err(e),
            Ok(None) => Ok(out),
            Ok(Some(s)) => Ok(BuildOutputView {
                library_paths: out.library_paths,
                library_links: out.library_links,
                cfgs: out.cfgs,
                metadata: out.metadata.push((k, s.val)),
                rerun_if_changed: out.rerun_if_changed,
            }),
        }
    }
}

/// The build output declared by the first `i` keys of a library's table.
pub open spec fn output_from_keys(
    cfg: ConfigView,
    lib_key: Seq<char>,
    keys: Seq<Seq<char>>,
    i: int,
) -> Result<BuildOutputView, ConfigErrorView>
    decreases i,
{
    if i <= 0 {
        Ok(empty_output())
    } else {
        match output_from_keys(cfg, lib_key, keys, i - 1) {
            Err(e) => Err(e),
            Ok(out) => apply_output_key(cfg, lib_key, out, keys[i - 1]),
        }
    }
}

/// The build output declared for one library under a triple's table.
pub open spec fn spec_lib_output(cfg: ConfigView, tkey: Seq<char>, lib: Seq<char>) -> Result<
    BuildOutputView,
    ConfigErrorView,
> {
    let lib_key = dot_key(tkey, lib);
    match spec_get_table(cfg, lib_key) {
        Err(e) => Err(e),
        Ok(None) => Ok(empty_output()),
        Ok(Some(t)) => output_from_keys(cfg, lib_key, t.val, t.val.len() as int),
    }
}

/// The per-library overrides of a triple's table, from its first `i`
/// children, in table order; the reserved keys `ar`, `linker` and
/// `rustflags` are no library names and are skipped.
pub open spec fn overrides_from(
    cfg: ConfigView,
    tkey: Seq<char>,
    children: Seq<Seq<char>>,
    i: int,
) -> Result<Seq<(Seq<char>, BuildOutputView)>, ConfigErrorView>
    decreases i,
{
    if i <= 0 {
        Ok(Seq::empty())
    } else {
        match overrides_from(cfg, tkey, children, i - 1) {
            Err(e) => Err(e),
            Ok(sel) => {
                let lib = children[i - 1];
                if lib == "ar"@ || lib == "linker"@ || lib == "rustflags"@ {
                    Ok(sel)
                } else {
                    match spec_lib_output(cfg, tkey, lib) {
                        Err(e) => Err(e),
                        Ok(out) => Ok(sel.push((lib, out))),
                    }
                }
            },
        }
    }
}

/// The full contract of [`scrape_target_config`]: the `ar` and `linker`
/// paths under `target.<triple>` and the per-library override tables.
pub open spec fn spec_scrape_target_config(cfg: ConfigView, triple: Seq<char>) -> Result<
    TargetConfigView,
    ConfigErrorView,
> {
    let tkey = "target."@ + triple;
    match spec_get_string(cfg, dot_key(tkey, "ar"@)) {
        Err(e) => Err(e),
        Ok(ar) => match spec_get_string(cfg, dot_key(tkey, "linker"@)) {
            Err(e) => Err(e),
            Ok(linker) => {
                let arv = match ar {
                    Some(l) => Some(l.val),
                    None => None,
                };
                let linkerv = match linker {
                    Some(l) => Some(l.val),
                    None => None,
                };
                match spec_get_table(cfg, tkey) {
                    Err(e) => Err(e),
                    Ok(None) => Ok(TargetConfigView {
                        ar: arv,
                        linker: linkerv,
                        overrides: Seq::empty(),
                    }),
                    Ok(Some(t)) => match overrides_from(cfg, tkey, t.val, t.val.len() as int) {
                        Err(e) => Err(e),
                        Ok(ovr) => Ok(TargetConfigView { ar: arv, linker: linkerv, overrides: ovr }),
                    },
                }
            },
        },
    }
}

/// A `rustc-flags` value holding a token that is neither a `-L` nor a `-l`
/// form fails the grammar naming that token, and folding that key into a
/// library's build output fails with the token, the full key and the file
/// that defined the value — whatever was collected before it.
pub proof fn lemma_bad_flag_named(
    cfg: ConfigView,
    lib_key: Seq<char>,
    out: BuildOutputView,
    v: Seq<char>,
    d: Seq<char>,
    t: Seq<char>,
)
    requires
        spec_get_string(cfg, dot_key(lib_key, "rustc-flags"@)) == Ok::<_, ConfigErrorView>(
            Some(LocatedView { val: v, definition: d }),
        ),
        spec_parse_rustc_flags(v) == Err::<(Seq<Seq<char>>, Seq<Seq<char>>), _>(
            FlagParseErrorView::Unrecognized { token: t },
        ),
    ensures
        apply_output_key(cfg, lib_key, out, "rustc-flags"@) == Err::<BuildOutputView, _>(
            ConfigErrorView::BadFlag {
                token: t,
                key: dot_key(lib_key, "rustc-flags"@),
                definition: d,
            },
        ),
{
}

/// Once a key errs, the remaining keys of the table do not change that.
proof fn lemma_output_keys_err_extend(
    cfg: ConfigView,
    lib_key: Seq<char>,
    keys: Seq<Seq<char>>,
    i: int,
    n: int,
)
    requires
        0 <= i <= n,
        output_from_keys(cfg, lib_key, keys, i) is Err,
    ensures
        output_from_keys(cfg, lib_key, keys, n) == output_from_keys(cfg, lib_key, keys, i),
    decreases n,
{
    if n > i {
        lemma_output_keys_err_extend(cfg, lib_key, keys, i, n - 1);
    }
}

/// Once a library errs, the remaining children do not change that.
proof fn lemma_overrides_err_extend(
    cfg: ConfigView,
    tkey: Seq<char>,
    children: Seq<Seq<char>>,
    i: int,
    n: int,
)
    requires
        0 <= i <= n,
        overrides_from(cfg, tkey, children, i) is Err,
    ensures
        overrides_from(cfg, tkey, children, n) == overrides_from(cfg, tkey, children, i),
    decreases n,
{
    if n > i {
        lemma_overrides_err_extend(cfg, tkey, children, i, n - 1);
    }
}

/// Collects the build output one library's override table declares.
fn scrape_lib_output(config: &Config, tkey: &String, lib: &String) -> (r: Result<
    BuildOutput,
    ConfigError,
>)
    ensures
        match r {
            Ok(out) => spec_lib_output(config.deep_view(), tkey@, lib@) == Ok::<
                _,
                ConfigErrorView,
            >(out.deep_view()),
            Err(e) => spec_lib_output(config.deep_view(), tkey@, lib@) == Err::<
                BuildOutputView,
                _,
            >(e.deep_view()),
        },
{
    let ghost cfgv = config.deep_view();
    let lib_key = dot_key_exec(tkey, lib);
    let keys: Vec<String> = match config.get_table(&lib_key) {
        Err(e) => {
            return Err(e);
        },
        Ok(None) => Vec::new(),
        Ok(Some(t)) => t.val,
    };
    let ghost kd = keys.deep_view();
    let ghost table_found = spec_get_table(cfgv, lib_key@) matches Ok(Some(_));
    proof {
        if !table_found {
            assert(kd =~= Seq::<Seq<char>>::empty());
            assert(output_from_keys(cfgv, lib_key@, kd, kd.len() as int) == Ok::<
                _,
                ConfigErrorView,
            >(empty_output()));
        }
    }
    let mut paths: Vec<String> = Vec::new();
    let mut links: Vec<String> = Vec::new();
    let mut cfgs: Vec<String> = Vec::new();
    let mut metadata: Vec<(String, String)> = Vec::new();
    proof {
        assert(paths.deep_view() =~= Seq::<Seq<char>>::empty());
        assert(links.deep_view() =~= Seq::<Seq<char>>::empty());
        assert(cfgs.deep_view() =~= Seq::<Seq<char>>::empty());
        assert(metadata.deep_view() =~= Seq::<(Seq<char>, Seq<char>)>::empty());
    }
    let mut j: usize = 0;
    while j < keys.len()
        invariant
            j <= keys.len(),
            cfgv == config.deep_view(),
            kd == keys.deep_view(),
            kd.len() == keys@.len(),
            lib_key@ == dot_key(tkey@, lib@),
            match spec_get_table(cfgv, lib_key@) {
                Ok(Some(t)) => t.val == kd,
                Ok(None) => kd == Seq::<Seq<char>>::empty(),
                Err(_) => false,
            },
            output_from_keys(cfgv, lib_key@, kd, j as int) == Ok::<_, ConfigErrorView>(
                BuildOutputView {
                    library_paths: paths.deep_view(),
                    library_links: links.deep_view(),
                    cfgs: cfgs.deep_view(),
                    metadata: metadata.deep_view(),
                    rerun_if_changed: Seq::empty(),
                },
            ),
        decreases keys.len() - j,
    {
        let k = &keys[j];
        let key3 = dot_key_exec(&lib_key, k);
        let ghost pre = output_from_keys(cfgv, lib_key@, kd, j as int)->Ok_0;
        proof {
            assert(kd[j as int] == k@);
        }
        if *k == "rustc-flags".to_owned() {
            match config.get_string(&key3) {
                Err(e) => {
                    proof {
                        lemma_output_keys_err_extend(cfgv, lib_key@, kd, j + 1, kd.len() as int);
                    }
                    return Err(e);
                },
                Ok(None) => {},
                Ok(Some(flags)) => match parse_rustc_flags(flags.val.as_str()) {
                    Ok(pl) => {
                        let (p, l) = pl;
                        extend_strings(&mut paths, &p);
                        extend_strings(&mut links, &l);
                    },
                    Err(FlagParseError::Unrecognized { token }) => {
                        let e = ConfigError::BadFlag {
                            token,
                            key: key3,
                            definition: flags.definition,
                        };
                        proof {
                            assert(output_from_keys(cfgv, lib_key@, kd, j + 1) == Err::<
                                BuildOutputView,
                                _,
                            >(e.deep_view()));
                            lemma_output_keys_err_extend(cfgv, lib_key@, kd, j + 1, kd.len() as int);
                        }
                        return Err(e);
                    },
                    Err(FlagParseError::MissingValue { flag }) => {
                        let e = ConfigError::MissingFlagValue {
                            flag,
                            key: key3,
                            definition: flags.definition,
                        };
                        proof {
                            assert(output_from_keys(cfgv, lib_key@, kd, j + 1) == Err::<
                                BuildOutputView,
                                _,
                            >(e.deep_view()));
                            lemma_output_keys_err_extend(cfgv, lib_key@, kd, j + 1, kd.len() as int);
                        }
                        return Err(e);
                    },
                },
            }
        } else if *k == "rustc-link-lib".to_owned() {
            match config.get_list(&key3) {
                Err(e) => {
                    proof {
                        lemma_output_keys_err_extend(cfgv, lib_key@, kd, j + 1, kd.len() as int);
                    }
                    return Err(e);
                },
                Ok(None) => {},
                Ok(Some(l)) => {
                    extend_firsts(&mut links, &l.val);
                },
            }
        } else if *k == "rustc-link-search".to_owned() {
            match config.get_list(&key3) {
                Err(e) => {
                    proof {
                        lemma_output_keys_err_extend(cfgv, lib_key@, kd, j + 1, kd.len() as int);
                    }
                    return Err(e);
                },
                Ok(None) => {},
                Ok(Some(l)) => {
                    extend_firsts(&mut paths, &l.val);
                },
            }
        } else if *k == "rustc-cfg".to_owned() {
            match config.get_list(&key3) {
                Err(e) => {
                    proof {
                        lemma_output_keys_err_extend(cfgv, lib_key@, kd, j + 1, kd.len() as int);
                    }
                    return Err(e);
                },
                Ok(None) => {},
                Ok(Some(l)) => {
                    extend_firsts(&mut cfgs, &l.val);
                },
            }
        } else {
            match config.get_string(&key3) {
                Err(e) => {
                    proof {
                        lemma_output_keys_err_extend(cfgv, lib_key@, kd, j + 1, kd.len() as int);
                    }
                    return Err(e);
                },
                Ok(None) => {},
                Ok(Some(s)) => {
                    let ghost predv = metadata.deep_view();
                    let pair = (k.clone(), s.val);
                    let ghost x = pair.deep_view();
                    metadata.push(pair);
                    proof {
                        assert(metadata.deep_view() =~= predv.push(x));
                    }
                },
            }
        }
        proof {
            assert(output_from_keys(cfgv, lib_key@, kd, j + 1) == apply_output_key(
                cfgv,
                lib_key@,
                pre,
                kd[j as int],
            ));
            assert(output_from_keys(cfgv, lib_key@, kd, j + 1) == Ok::<_, ConfigErrorView>(
                BuildOutputView {
                    library_paths: paths.deep_view(),
                    library_links: links.deep_view(),
                    cfgs: cfgs.deep_view(),
                    metadata: metadata.deep_view(),
                    rerun_if_changed: Seq::empty(),
                },
            ));
        }
        j = j + 1;
    }
    Ok(BuildOutput {
        library_paths: paths,
        library_links: links,
        cfgs,
        metadata,
        rerun_if_changed: Vec::new(),
    })
}

/// Scrapes the `target.<triple>` table: archiver and linker paths plus the
/// per-library link-metadata overrides, in table order.
pub fn scrape_target_config(config: &Config, triple: &String) -> (r: Result<
    TargetConfig,
    ConfigError,
>)
    ensures
        match r {
            Ok(tc) => spec_scrape_target_config(config.deep_view(), triple@) == Ok::<
                _,
                ConfigErrorView,
            >(tc.deep_view()),
            Err(e) => spec_scrape_target_config(config.deep_view(), triple@) == Err::<
                TargetConfigView,
                _,
            >(e.deep_view()),
        },
{
    let ghost cfgv = config.deep_view();
    let mut tkey: String = "target.".to_owned();
    tkey.append(triple.as_str());
    let ar: Option<String> = match config.get_path(&dot_key_exec(&tkey, &"ar".to_owned())) {
        Err(e) => {
            return Err(e);
        },
        Ok(None) => None,
        Ok(Some(l)) => Some(l.val),
    };
    let linker: Option<String> = match config.get_path(&dot_key_exec(&tkey, &"linker".to_owned())) {
        Err(e) => {
            return Err(e);
        },
        Ok(None) => None,
        Ok(Some(l)) => Some(l.val),
    };
    let children: Vec<String> = match config.get_table(&tkey) {
        Err(e) => {
            return Err(e);
        },
        Ok(None) => {
            let empty_overrides: Vec<(String, BuildOutput)> = Vec::new();
            proof {
                assert(empty_overrides.deep_view() =~= Seq::<(Seq<char>, BuildOutputView)>::empty());
            }
            return Ok(TargetConfig { ar, linker, overrides: empty_overrides });
        },
        Ok(Some(t)) => t.val,
    };
    let ghost cd = children.deep_view();
    let mut overrides: Vec<(String, BuildOutput)> = Vec::new();
    proof {
        assert(overrides.deep_view() =~= Seq::<(Seq<char>, BuildOutputView)>::empty());
    }
    let mut i: usize = 0;
    while i < children.len()
        invariant
            i <= children.len(),
            cfgv == config.deep_view(),
            cd == children.deep_view(),
            cd.len() == children@.len(),
            tkey@ == "target."@ + triple@,
            spec_get_string(cfgv, dot_key(tkey@, "ar"@)) is Ok,
            spec_get_string(cfgv, dot_key(tkey@, "linker"@)) is Ok,
            spec_get_table(cfgv, tkey@) matches Ok(Some(t)) && t.val == cd,
            overrides_from(cfgv, tkey@, cd, i as int) == Ok::<_, ConfigErrorView>(
                overrides.deep_view(),
            ),
        decreases children.len() - i,
    {
        let lib = &children[i];
        proof {
            assert(cd[i as int] == lib@);
        }
        if *lib == "ar".to_owned() || *lib == "linker".to_owned() || *lib == "rustflags".to_owned() {
        } else {
            match scrape_lib_output(config, &tkey, lib) {
                Err(e) => {
                    proof {
                        lemma_overrides_err_extend(cfgv, tkey@, cd, i + 1, cd.len() as int);
                    }
                    return Err(e);
                },
                Ok(out) => {
                    let ghost predv = overrides.deep_view();
                    let pair = (lib.clone(), out);
                    let ghost x = pair.deep_view();
                    overrides.push(pair);
                    proof {
                        assert(overrides.deep_view() =~= predv.push(x));
                    }
                },
            }
        }
        i = i + 1;
    }
    Ok(TargetConfig { ar, linker, overrides })
}

/// Relies on num_cpus::get: the number of logical CPUs available to the
/// process, which its documentation promises to always be at least 1.
#[verifier::external_body]
fn available_parallelism() -> (r: usize)
    ensures
        r >= 1,
{
    num_cpus::get()
}

/// The validated `build.jobs` value: positive and below the largest
/// representable job count, else the named error.
pub open spec fn spec_validated_jobs(cfg: ConfigView) -> Result<Option<u32>, ConfigErrorView> {
    match spec_get_i64(cfg, "build.jobs"@) {
        Err(e) => Err(e),
        Ok(None) => Ok(None),
        Ok(Some(v)) => if v.val <= 0 {
            Err(ConfigErrorView::JobsNotPositive { found: v.val, definition: v.definition })
        } else if v.val >= u32::MAX as i64 {
            Err(ConfigErrorView::JobsTooLarge { found: v.val, definition: v.definition })
        } else {
            Ok(Some(v.val as u32))
        },
    }
}

/// The full contract of [`scrape_build_config`], given the job count
/// `fallback` that stands in for the platform's available parallelism:
/// jobs follow the precedence command line, then `build.jobs`, then the
/// fallback; the triple follows the command line, then `build.target`,
/// else the host; the host table is always scraped, and with no requested
/// triple the target configuration is the host's.
pub open spec fn spec_scrape_build_config(
    cfg: ConfigView,
    cli_jobs: Option<u32>,
    cli_target: Option<Seq<char>>,
    fallback: u32,
) -> Result<BuildConfigView, ConfigErrorView> {
    match spec_validated_jobs(cfg) {
        Err(e) => Err(e),
        Ok(cfg_jobs) => {
            let jobs = match cli_jobs {
                Some(j) => j,
                None => match cfg_jobs {
                    Some(v) => v,
                    None => fallback,
                },
            };
            match spec_get_string(cfg, "build.target"@) {
                Err(e) => Err(e),
                Ok(cfg_target) => {
                    let requested: Option<Seq<char>> = match cli_target {
                        Some(t) => Some(t),
                        None => match cfg_target {
                            Some(l) => Some(l.val),
                            None => None,
                        },
                    };
                    match spec_scrape_target_config(cfg, cfg.rustc_host) {
                        Err(e) => Err(e),
                        Ok(host) => match requested {
                            None => Ok(BuildConfigView {
                                jobs,
                                requested_target: None,
                                host,
                                target: host,
                                release: false,
                                test: false,
                                doc_all: false,
                            }),
                            Some(t) => match spec_scrape_target_config(cfg, t) {
                                Err(e) => Err(e),
                                Ok(tc) => Ok(BuildConfigView {
                                    jobs,
                                    requested_target: Some(t),
                                    host,
                                    target: tc,
                                    release: false,
                                    test: false,
                                    doc_all: false,
                                }),
                            },
                        },
                    }
                },
            }
        },
    }
}

impl Clone for BuildOutput {
    fn clone(&self) -> (r: Self)
        ensures
            r.deep_view() == self.deep_view(),
    {
        BuildOutput {
            library_paths: clone_string_vec(&self.library_paths),
            library_links: clone_string_vec(&self.library_links),
            cfgs: clone_string_vec(&self.cfgs),
            metadata: clone_string_pair_vec(&self.metadata),
            rerun_if_changed: clone_string_vec(&self.rerun_if_changed),
        }
    }
}

impl Clone for TargetConfig {
    fn clone(&self) -> (r: Self)
        ensures
            r.deep_view() == self.deep_view(),
    {
        let ar = match &self.ar {
            None => None,
            Some(s) => Some(s.clone()),
        };
        let linker = match &self.linker {
            None => None,
            Some(s) => Some(s.clone()),
        };
        let mut overrides: Vec<(String, BuildOutput)> = Vec::new();
        let mut i: usize = 0;
        while i < self.overrides.len()
            invariant
                i <= self.overrides.len(),
                overrides.deep_view() =~= self.overrides.deep_view().take(i as int),
            decreases self.overrides.len() - i,
        {
            let pair = (self.overrides[i].0.clone(), self.overrides[i].1.clone());
            let ghost predv = overrides.deep_view();
            let ghost x = pair.deep_view();
            proof {
                assert(x == self.overrides@[i as int].deep_view());
                assert(self.overrides.deep_view()[i as int] == self.overrides@[i as int].deep_view());
            }
            overrides.push(pair);
            proof {
                assert(overrides.deep_view() =~= predv.push(x));
                assert(predv.push(x) =~= self.overrides.deep_view().take(i + 1));
            }
            i = i + 1;
        }
        proof {
            assert(overrides.deep_view() =~= self.overrides.deep_view());
        }
        TargetConfig { ar, linker, overrides }
    }
}

/// Scrapes the whole build configuration: the job count (command line
/// first, then `build.jobs`, then the platform's available parallelism),
/// the requested triple (command line, then `build.target`), and the host
/// and target tables. The release, test and doc flags start unset; the
/// compile pipeline stamps them from its mode.
pub fn scrape_build_config(config: &Config, jobs: Option<u32>, target: Option<String>) -> (r: Result<
    BuildConfig,
    ConfigError,
>)
    ensures
        match r {
            Ok(bc) => exists|fb: u32|
                fb >= 1 && spec_scrape_build_config(
                    config.deep_view(),
                    jobs,
                    target.deep_view(),
                    fb,
                ) == Ok::<_, ConfigErrorView>(bc.deep_view()),
            Err(e) => spec_scrape_build_config(config.deep_view(), jobs, target.deep_view(), 1)
                == Err::<BuildConfigView, _>(e.deep_view()),
        },
{
    let ghost cfgv = config.deep_view();
    let ghost tv = target.deep_view();
    let cfg_jobs: Option<u32> = match config.get_i64(&"build.jobs".to_owned()) {
        Err(e) => {
            return Err(e);
        },
        Ok(None) => None,
        Ok(Some(v)) => {
            if v.val <= 0 {
                return Err(ConfigError::JobsNotPositive { found: v.val, definition: v.definition });
            } else if v.val >= u32::MAX as i64 {
                return Err(ConfigError::JobsTooLarge { found: v.val, definition: v.definition });
            } else {
                Some(v.val as u32)
            }
        },
    };
    let mut used_fallback: bool = false;
    let jobs_final: u32 = match jobs {
        Some(j) => j,
        None => match cfg_jobs {
            Some(v) => v,
            None => {
                used_fallback = true;
                let n = available_parallelism();
                if n >= u32::MAX as usize {
                    u32::MAX
                } else {
                    n as u32
                }
            },
        },
    };
    let ghost fbw: u32 = if used_fallback {
        jobs_final
    } else {
        1u32
    };
    let cfg_target: Option<String> = match config.get_string(&"build.target".to_owned()) {
        Err(e) => {
            return Err(e);
        },
        Ok(None) => None,
        Ok(Some(l)) => Some(l.val),
    };
    let requested: Option<String> = match target {
        Some(t) => Some(t),
        None => cfg_target,
    };
    let host = match scrape_target_config(config, &config.rustc_host) {
        Err(e) => {
            return Err(e);
        },
        Ok(h) => h,
    };
    let bc = match requested {
        None => BuildConfig {
            jobs: jobs_final,
            requested_target: None,
            target: host.clone(),
            host,
            release: false,
            test: false,
            doc_all: false,
        },
        Some(t) => {
            let tc = match scrape_target_config(config, &t) {
                Err(e) => {
                    return Err(e);
                },
                Ok(tc) => tc,
            };
            BuildConfig {
                jobs: jobs_final,
                requested_target: Some(t),
                host,
                target: tc,
                release: false,
                test: false,
                doc_all: false,
            }
        },
    };
    proof {
        assert(fbw >= 1);
        assert(spec_scrape_build_config(cfgv, jobs, tv, fbw) == Ok::<_, ConfigErrorView>(
            bc.deep_view(),
        ));
    }
    Ok(bc)
}

/// What `build.jobs` validation owes: a non-positive value and an
/// oversized value each fail with the error naming the value and its
/// defining file; a valid value is the job count whenever the command
/// line gives none; the command line's value always wins; and with
/// neither, the fallback is the job count.
pub proof fn lemma_jobs_precedence(
    cfg: ConfigView,
    cli_jobs: Option<u32>,
    cli_target: Option<Seq<char>>,
    fallback: u32,
    v: i64,
    d: Seq<char>,
)
    ensures
        spec_get_i64(cfg, "build.jobs"@) == Ok::<_, ConfigErrorView>(
            Some(LocatedView { val: v, definition: d }),
        ) && v <= 0 ==> spec_scrape_build_config(cfg, cli_jobs, cli_target, fallback) == Err::<
            BuildConfigView,
            _,
        >(ConfigErrorView::JobsNotPositive { found: v, definition: d }),
        spec_get_i64(cfg, "build.jobs"@) == Ok::<_, ConfigErrorView>(
            Some(LocatedView { val: v, definition: d }),
        ) && v >= u32::MAX ==> spec_scrape_build_config(cfg, cli_jobs, cli_target, fallback) == Err::<
            BuildConfigView,
            _,
        >(ConfigErrorView::JobsTooLarge { found: v, definition: d }),
        spec_get_i64(cfg, "build.jobs"@) == Ok::<_, ConfigErrorView>(
            Some(LocatedView { val: v, definition: d }),
        ) && 0 < v < u32::MAX && cli_jobs is None ==> (spec_scrape_build_config(
            cfg,
            None,
            cli_target,
            fallback,
        ) matches Ok(bc) ==> bc.jobs == v),
        cli_jobs matches Some(j) ==> (spec_scrape_build_config(cfg, cli_jobs, cli_target, fallback)
            matches Ok(bc) ==> bc.jobs == j),
        spec_get_i64(cfg, "build.jobs"@) == Ok::<Option<LocatedView<i64>>, ConfigErrorView>(None)
            && cli_jobs is None ==> (spec_scrape_build_config(cfg, None, cli_target, fallback)
            matches Ok(bc) ==> bc.jobs == fallback),
{
}

} // verus!
