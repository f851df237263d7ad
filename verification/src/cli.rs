//! The command-line surface of the `run` entry point: its parsed options,
//! the filter they select, and the exit disposition when the executed
//! binary fails. Argument parsing and process spawning live outside the
//! library; the decisions are made here.

use vstd::prelude::*;

use crate::selection::{CompileFilter, CompileFilterView, spec_new_filter};

verus! {

/// Mathematical image of [`Options`].
pub ghost struct OptionsView {
    pub flag_bin: Option<Seq<char>>,
    pub flag_example: Option<Seq<char>>,
    pub flag_jobs: Option<u32>,
    pub flag_features: Seq<Seq<char>>,
    pub flag_no_default_features: bool,
    pub flag_target: Option<Seq<char>>,
    pub flag_manifest_path: Option<Seq<char>>,
    pub flag_verbose: Option<bool>,
    pub flag_quiet: Option<bool>,
    pub flag_color: Option<Seq<char>>,
    pub flag_release: bool,
    pub arg_args: Seq<Seq<char>>,
}

/// The options of `run [options] [--] [<args>...]`: at most one of
/// `--bin` and `--example` names the target to execute, and everything
/// after `--` is forwarded verbatim to it.
#[derive(Debug)]
pub struct Options {
    pub flag_bin: Option<String>,
    pub flag_example: Option<String>,
    pub flag_jobs: Option<u32>,
    pub flag_features: Vec<String>,
    pub flag_no_default_features: bool,
    pub flag_target: Option<String>,
    pub flag_manifest_path: Option<String>,
    pub flag_verbose: Option<bool>,
    pub flag_quiet: Option<bool>,
    pub flag_color: Option<String>,
    pub flag_release: bool,
    pub arg_args: Vec<String>,
}

impl DeepView for Options {
    type V = OptionsView;

    open spec fn deep_view(&self) -> OptionsView {
        OptionsView {
            flag_bin: self.flag_bin.deep_view(),
            flag_example: self.flag_example.deep_view(),
            flag_jobs: self.flag_jobs,
            flag_features: self.flag_features.deep_view(),
            flag_no_default_features: self.flag_no_default_features,
            flag_target: self.flag_target.deep_view(),
            flag_manifest_path: self.flag_manifest_path.deep_view(),
            flag_verbose: self.flag_verbose,
            flag_quiet: self.flag_quiet,
            flag_color: self.flag_color.deep_view(),
            flag_release: self.flag_release,
            arg_args: self.arg_args.deep_view(),
        }
    }
}

/// The name list an optional flag contributes: one name or none.
pub open spec fn opt_name_list(name: Option<Seq<char>>) -> Seq<Seq<char>> {
    match name {
        Some(n) => seq![n],
        None => Seq::empty(),
    }
}

/// The filter the run options select: everything when neither `--bin` nor
/// `--example` was given, else exactly the named targets, with no library,
/// tests or benches.
pub open spec fn spec_run_filter(bin: Option<Seq<char>>, example: Option<Seq<char>>) -> CompileFilterView {
    spec_new_filter(
        false,
        opt_name_list(bin),
        Seq::empty(),
        opt_name_list(example),
        Seq::empty(),
    )
}

impl Options {
    /// Builds the compile filter these options ask for.
    pub fn compile_filter(&self) -> (r: CompileFilter)
        ensures
            r.deep_view() == spec_run_filter(self.flag_bin.deep_view(), self.flag_example.deep_view()),
    {
        let mut bins: Vec<String> = Vec::new();
        match &self.flag_bin {
            Some(s) => {
                bins.push(s.clone());
            },
            None => {},
        }
        let mut examples: Vec<String> = Vec::new();
        match &self.flag_example {
            Some(s) => {
                examples.push(s.clone());
            },
            None => {},
        }
        proof {
            assert(bins.deep_view() =~= opt_name_list(self.flag_bin.deep_view()));
            assert(examples.deep_view() =~= opt_name_list(self.flag_example.deep_view()));
        }
        let tests: Vec<String> = Vec::new();
        let benches: Vec<String> = Vec::new();
        proof {
            assert(tests.deep_view() =~= Seq::<Seq<char>>::empty());
            assert(benches.deep_view() =~= Seq::<Seq<char>>::empty());
        }
        CompileFilter::new(false, bins, tests, examples, benches)
    }
}

/// How the command exits after the executed binary fails: the exit code to
/// propagate and whether descriptive error text is printed.
#[derive(Clone, Copy, PartialEq, Eq, Structural, Debug)]
pub struct ExitDisposition {
    pub code: i32,
    pub print_error: bool,
}

/// What a failed run owes the caller: a process that never spawned exits
/// 101 with a descriptive error; one that spawned and failed propagates
/// its exact exit code (101 when it died without one), and the extra
/// error text is suppressed under `--quiet`, the process being assumed to
/// have explained itself.
pub open spec fn spec_run_exit(exit: Option<Option<i32>>, quiet: bool) -> ExitDisposition {
    match exit {
        None => ExitDisposition { code: 101, print_error: true },
        Some(status) => ExitDisposition {
            code: match status {
                Some(c) => c,
                None => 101,
            },
            print_error: !quiet,
        },
    }
}

/// Decides the exit disposition for a failed run. `exit` is `None` when
/// the process never spawned, else the process's exit code (`None` inside
/// when it died without one).
pub fn run_failure_exit(exit: Option<Option<i32>>, quiet: Option<bool>) -> (r: ExitDisposition)
    ensures
        r == spec_run_exit(exit, quiet == Some(true)),
{
    let is_quiet = match quiet {
        Some(q) => q,
        None => false,
    };
    match exit {
        None => ExitDisposition { code: 101, print_error: true },
        Some(status) => {
            let code = match status {
                Some(c) => c,
                None => 101,
            };
            ExitDisposition { code, print_error: !is_quiet }
        },
    }
}

} // verus!
