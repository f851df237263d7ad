//! The configuration capability: a flat store of dotted keys, each holding
//! a typed value together with the file that defined it. Typed getters
//! return the value plus its defining location so every diagnostic can name
//! both.

use vstd::prelude::*;

use crate::manifest::clone_string_vec;

verus! {

/// Mathematical image of a [`Located`] value.
pub ghost struct LocatedView<T> {
    pub val: T,
    pub definition: Seq<char>,
}

/// A configuration value paired with the path of the file that defined it.
pub struct Located<T> {
    pub val: T,
    pub definition: String,
}

impl<T: DeepView> DeepView for Located<T> {
    type V = LocatedView<T::V>;

    open spec fn deep_view(&self) -> LocatedView<T::V> {
        LocatedView { val: self.val.deep_view(), definition: self.definition@ }
    }
}

/// Mathematical image of a [`CfgVal`].
pub ghost enum CfgValView {
    Int(i64),
    Text(Seq<char>),
    List(Seq<(Seq<char>, Seq<char>)>),
    Table(Seq<Seq<char>>),
}

/// One configuration value: an integer, a string, a list of strings (each
/// remembering its own defining file), or a table (the names of its
/// immediate children).
pub enum CfgVal {
    Int(i64),
    Text(String),
    List(Vec<(String, String)>),
    Table(Vec<String>),
}

impl DeepView for CfgVal {
    type V = CfgValView;

    open spec fn deep_view(&self) -> CfgValView {
        match self {
            CfgVal::Int(v) => CfgValView::Int(*v),
            CfgVal::Text(s) => CfgValView::Text(s@),
            CfgVal::List(l) => CfgValView::List(l.deep_view()),
            CfgVal::Table(t) => CfgValView::Table(t.deep_view()),
        }
    }
}

/// Mathematical image of a [`CfgEntry`].
pub ghost struct CfgEntryView {
    pub key: Seq<char>,
    pub definition: Seq<char>,
    pub val: CfgValView,
}

/// One configuration entry: a dotted key, the file that defined it, and
/// its value.
pub struct CfgEntry {
    pub key: String,
    pub definition: String,
    pub val: CfgVal,
}

impl DeepView for CfgEntry {
    type V = CfgEntryView;

    open spec fn deep_view(&self) -> CfgEntryView {
        CfgEntryView { key: self.key@, definition: self.definition@, val: self.val.deep_view() }
    }
}

/// Mathematical image of a [`Config`].
pub ghost struct ConfigView {
    pub entries: Seq<CfgEntryView>,
    pub rustc_host: Seq<char>,
}

/// All configuration visible to one invocation, already merged from its
/// config files, plus the host triple the compiler reports.
pub struct Config {
    pub entries: Vec<CfgEntry>,
    pub rustc_host: String,
}

impl DeepView for Config {
    type V = ConfigView;

    open spec fn deep_view(&self) -> ConfigView {
        ConfigView { entries: self.entries.deep_view(), rustc_host: self.rustc_host@ }
    }
}

/// The first entry with the given key among the first `i` entries.
pub open spec fn lookup_entry(entries: Seq<CfgEntryView>, key: Seq<char>, i: int) -> Option<
    CfgEntryView,
>
    decreases i,
{
    if i <= 0 {
        None
    } else {
        match lookup_entry(entries, key, i - 1) {
            Some(e) => Some(e),
            None => if entries[i - 1].key == key {
                Some(entries[i - 1])
            } else {
                None
            },
        }
    }
}

/// The entry a key denotes, if any.
pub open spec fn spec_lookup(cfg: ConfigView, key: Seq<char>) -> Option<CfgEntryView> {
    lookup_entry(cfg.entries, key, cfg.entries.len() as int)
}

/// Mathematical image of a [`ConfigError`].
pub ghost enum ConfigErrorView {
    TypeMismatch { key: Seq<char>, definition: Seq<char> },
    JobsNotPositive { found: i64, definition: Seq<char> },
    JobsTooLarge { found: i64, definition: Seq<char> },
    BadFlag { token: Seq<char>, key: Seq<char>, definition: Seq<char> },
    MissingFlagValue { flag: Seq<char>, key: Seq<char>, definition: Seq<char> },
}

/// A configuration error, always carrying the offending value and the file
/// that defined it.
#[derive(Debug)]
pub enum ConfigError {
    /// The key exists but holds a value of the wrong type.
    TypeMismatch { key: String, definition: String },
    /// `build.jobs` was zero or negative.
    JobsNotPositive { found: i64, definition: String },
    /// `build.jobs` does not fit the platform's job counter.
    JobsTooLarge { found: i64, definition: String },
    /// A `rustc-flags` string held a token that is neither `-L` nor `-l`.
    BadFlag { token: String, key: String, definition: String },
    /// A `-L` or `-l` flag at the end of a `rustc-flags` string had no value.
    MissingFlagValue { flag: String, key: String, definition: String },
}

impl DeepView for ConfigError {
    type V = ConfigErrorView;

    open spec fn deep_view(&self) -> ConfigErrorView {
        match self {
            ConfigError::TypeMismatch { key, definition } => ConfigErrorView::TypeMismatch {
                key: key@,
                definition: definition@,
            },
            ConfigError::JobsNotPositive { found, definition } => ConfigErrorView::JobsNotPositive {
                found: *found,
                definition: definition@,
            },
            ConfigError::JobsTooLarge { found, definition } => ConfigErrorView::JobsTooLarge {
                found: *found,
                definition: definition@,
            },
            ConfigError::BadFlag { token, key, definition } => ConfigErrorView::BadFlag {
                token: token@,
                key: key@,
                definition: definition@,
            },
            ConfigError::MissingFlagValue { flag, key, definition } => ConfigErrorView::MissingFlagValue {
                flag: flag@,
                key: key@,
                definition: definition@,
            },
        }
    }
}

/// What an integer getter returns: the located value, `None` when the key
/// is absent, an error when it holds another type.
pub open spec fn spec_get_i64(cfg: ConfigView, key: Seq<char>) -> Result<
    Option<LocatedView<i64>>,
    ConfigErrorView,
> {
    match spec_lookup(cfg, key) {
        None => Ok(None),
        Some(e) => match e.val {
            CfgValView::Int(v) => Ok(Some(LocatedView { val: v, definition: e.definition })),
            _ => Err(ConfigErrorView::TypeMismatch { key, definition: e.definition }),
        },
    }
}

/// What a string getter returns.
pub open spec fn spec_get_string(cfg: ConfigView, key: Seq<char>) -> Result<
    Option<LocatedView<Seq<char>>>,
    ConfigErrorView,
> {
    match spec_lookup(cfg, key) {
        None => Ok(None),
        Some(e) => match e.val {
            CfgValView::Text(s) => Ok(Some(LocatedView { val: s, definition: e.definition })),
            _ => Err(ConfigErrorView::TypeMismatch { key, definition: e.definition }),
        },
    }
}

/// What a list getter returns.
pub open spec fn spec_get_list(cfg: ConfigView, key: Seq<char>) -> Result<
    Option<LocatedView<Seq<(Seq<char>, Seq<char>)>>>,
    ConfigErrorView,
> {
    match spec_lookup(cfg, key) {
        None => Ok(None),
        Some(e) => match e.val {
            CfgValView::List(l) => Ok(Some(LocatedView { val: l, definition: e.definition })),
            _ => Err(ConfigErrorView::TypeMismatch { key, definition: e.definition }),
        },
    }
}

/// What a table getter returns.
pub open spec fn spec_get_table(cfg: ConfigView, key: Seq<char>) -> Result<
    Option<LocatedView<Seq<Seq<char>>>>,
    ConfigErrorView,
> {
    match spec_lookup(cfg, key) {
        None => Ok(None),
        Some(e) => match e.val {
            CfgValView::Table(t) => Ok(Some(LocatedView { val: t, definition: e.definition })),
            _ => Err(ConfigErrorView::TypeMismatch { key, definition: e.definition }),
        },
    }
}

impl Config {
    /// Finds the first entry carrying `key`.
    fn find_entry(&self, key: &String) -> (r: Option<&CfgEntry>)
        ensures
            match r {
                Some(e) => spec_lookup(self.deep_view(), key@) == Some(e.deep_view()),
                None => spec_lookup(self.deep_view(), key@) is None,
            },
    {
        let ghost es = self.entries.deep_view();
        let mut i: usize = 0;
        while i < self.entries.len()
            invariant
                i <= self.entries.len(),
                es == self.entries.deep_view(),
                lookup_entry(es, key@, i as int) is None,
            decreases self.entries.len() - i,
        {
            if self.entries[i].key == *key {
                proof {
                    assert(lookup_entry(es, key@, i + 1) == Some(es[i as int]));
                    lemma_lookup_entry_extend(es, key@, i + 1, self.entries@.len() as int);
                }
                return Some(&self.entries[i]);
            }
            i = i + 1;
        }
        None
    }

    /// Typed getter for an integer key.
    pub fn get_i64(&self, key: &String) -> (r: Result<Option<Located<i64>>, ConfigError>)
        ensures
            match r {
                Ok(v) => spec_get_i64(self.deep_view(), key@) == Ok::<_, ConfigErrorView>(
                    v.deep_view(),
                ),
                Err(e) => spec_get_i64(self.deep_view(), key@) == Err::<
                    Option<LocatedView<i64>>,
                    _,
                >(e.deep_view()),
            },
    {
        match self.find_entry(key) {
            None => Ok(None),
            Some(e) => match &e.val {
                CfgVal::Int(v) => Ok(Some(Located { val: *v, definition: e.definition.clone() })),
                _ => Err(ConfigError::TypeMismatch {
                    key: key.clone(),
                    definition: e.definition.clone(),
                }),
            },
        }
    }

    /// Typed getter for a string key.
    pub fn get_string(&self, key: &String) -> (r: Result<Option<Located<String>>, ConfigError>)
        ensures
            match r {
                Ok(v) => spec_get_string(self.deep_view(), key@) == Ok::<_, ConfigErrorView>(
                    v.deep_view(),
                ),
                Err(e) => spec_get_string(self.deep_view(), key@) == Err::<
                    Option<LocatedView<Seq<char>>>,
                    _,
                >(e.deep_view()),
            },
    {
        match self.find_entry(key) {
            None => Ok(None),
            Some(e) => match &e.val {
                CfgVal::Text(s) => Ok(Some(Located {
                    val: s.clone(),
                    definition: e.definition.clone(),
                })),
                _ => Err(ConfigError::TypeMismatch {
                    key: key.clone(),
                    definition: e.definition.clone(),
                }),
            },
        }
    }

    /// Typed getter for a path key. Paths are plain strings in this model;
    /// resolving one against the directory of its defining file is the
    /// caller's affair, as it is for override path entries.
    pub fn get_path(&self, key: &String) -> (r: Result<Option<Located<String>>, ConfigError>)
        ensures
            match r {
                Ok(v) => spec_get_string(self.deep_view(), key@) == Ok::<_, ConfigErrorView>(
                    v.deep_view(),
                ),
                Err(e) => spec_get_string(self.deep_view(), key@) == Err::<
                    Option<LocatedView<Seq<char>>>,
                    _,
                >(e.deep_view()),
            },
    {
        self.get_string(key)
    }

    /// Typed getter for a list key.
    pub fn get_list(&self, key: &String) -> (r: Result<
        Option<Located<Vec<(String, String)>>>,
        ConfigError,
    >)
        ensures
            match r {
                Ok(v) => spec_get_list(self.deep_view(), key@) == Ok::<_, ConfigErrorView>(
                    v.deep_view(),
                ),
                Err(e) => spec_get_list(self.deep_view(), key@) == Err::<
                    Option<LocatedView<Seq<(Seq<char>, Seq<char>)>>>,
                    _,
                >(e.deep_view()),
            },
    {
        match self.find_entry(key) {
            None => Ok(None),
            Some(e) => match &e.val {
                CfgVal::List(l) => {
                    let mut copied: Vec<(String, String)> = Vec::new();
                    let mut i: usize = 0;
                    while i < l.len()
                        invariant
                            i <= l.len(),
                            copied.deep_view() =~= l.deep_view().take(i as int),
                        decreases l.len() - i,
                    {
                        let pair = (l[i].0.clone(), l[i].1.clone());
                        let ghost predv = copied.deep_view();
                        let ghost x = pair.deep_view();
                        proof {
                            assert(x == l@[i as int].deep_view());
                            assert(l.deep_view()[i as int] == l@[i as int].deep_view());
                        }
                        copied.push(pair);
                        proof {
                            assert(copied.deep_view() =~= predv.push(x));
                            assert(predv.push(x) =~= l.deep_view().take(i + 1));
                        }
                        i = i + 1;
                    }
                    assert(copied.deep_view() =~= l.deep_view());
                    Ok(Some(Located { val: copied, definition: e.definition.clone() }))
                },
                _ => Err(ConfigError::TypeMismatch {
                    key: key.clone(),
                    definition: e.definition.clone(),
                }),
            },
        }
    }

    /// Typed getter for a table key: yields the names of the immediate
    /// children of the table.
    pub fn get_table(&self, key: &String) -> (r: Result<Option<Located<Vec<String>>>, ConfigError>)
        ensures
            match r {
                Ok(v) => spec_get_table(self.deep_view(), key@) == Ok::<_, ConfigErrorView>(
                    v.deep_view(),
                ),
                Err(e) => spec_get_table(self.deep_view(), key@) == Err::<
                    Option<LocatedView<Seq<Seq<char>>>>,
                    _,
                >(e.deep_view()),
            },
    {
        match self.find_entry(key) {
            None => Ok(None),
            Some(e) => match &e.val {
                CfgVal::Table(t) => Ok(Some(Located {
                    val: clone_string_vec(t),
                    definition: e.definition.clone(),
                })),
                _ => Err(ConfigError::TypeMismatch {
                    key: key.clone(),
                    definition: e.definition.clone(),
                }),
            },
        }
    }
}

/// Once a key is found among the first `i` entries, scanning further does
/// not change the result.
proof fn lemma_lookup_entry_extend(entries: Seq<CfgEntryView>, key: Seq<char>, i: int, n: int)
    requires
        0 <= i <= n,
        lookup_entry(entries, key, i) is Some,
    ensures
        lookup_entry(entries, key, n) == lookup_entry(entries, key, i),
    decreases n,
{
    if n > i {
        lemma_lookup_entry_extend(entries, key, i, n - 1);
    }
}

} // verus!
