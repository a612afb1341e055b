//! Option model: raw flags captured from the command line, and the derived
//! predicates that decide which analyses a run performs.

use vstd::prelude::*;

verus! {

/// Bug-checking flags exactly as they were given, before any implication.
#[derive(Clone, Copy, Debug, PartialEq, Eq, Structural)]
pub struct RawBugFlags {
    pub all_bugs: bool,
    pub all_integer_bugs: bool,
    pub all_memory_bugs: bool,
    pub division_by_zero: bool,
    pub integer_coercion_error: bool,
    pub integer_overflow: bool,
    pub integer_underflow: bool,
    pub numeric_truncation_error: bool,
    pub signedness_conversion_error: bool,
}

/// Options for bug checking, with the aggregate flags derived once from the
/// raw flags. The fields are private, so the aggregates cannot drift from the
/// raw input after construction: every query goes through a predicate.
#[derive(Clone, Copy, Debug, PartialEq, Eq, Structural)]
pub struct BugOptions {
    all_bugs: bool,
    all_integer_bugs: bool,
    all_memory_bugs: bool,
    division_by_zero: bool,
    integer_coercion_error: bool,
    integer_overflow: bool,
    integer_underflow: bool,
    numeric_truncation_error: bool,
    signedness_conversion_error: bool,
}

impl BugOptions {
    /// The options that derivation builds from `raw`.
    pub closed spec fn derived_from(raw: RawBugFlags) -> BugOptions {
        BugOptions {
            all_bugs: raw.all_bugs,
            all_integer_bugs: raw.all_integer_bugs || raw.all_bugs,
            all_memory_bugs: raw.all_memory_bugs,
            division_by_zero: raw.division_by_zero,
            integer_coercion_error: raw.integer_coercion_error,
            integer_overflow: raw.integer_overflow,
            integer_underflow: raw.integer_underflow,
            numeric_truncation_error: raw.numeric_truncation_error,
            signedness_conversion_error: raw.signedness_conversion_error,
        }
    }

    pub closed spec fn checks_all_bugs(self) -> bool {
        self.all_bugs
    }

    pub closed spec fn checks_all_integer_bugs(self) -> bool {
        self.all_integer_bugs
    }

    pub closed spec fn checks_all_memory_bugs(self) -> bool {
        self.all_memory_bugs
    }

    pub closed spec fn checks_division_by_zero(self) -> bool {
        self.division_by_zero || self.all_integer_bugs
    }

    pub closed spec fn checks_integer_coercion_error(self) -> bool {
        self.integer_coercion_error || self.all_integer_bugs
    }

    pub closed spec fn checks_integer_overflow(self) -> bool {
        self.integer_overflow || self.all_integer_bugs
    }

    pub closed spec fn checks_integer_underflow(self) -> bool {
        self.integer_underflow || self.all_integer_bugs
    }

    pub closed spec fn checks_numeric_truncation_error(self) -> bool {
        self.numeric_truncation_error || self.all_integer_bugs
    }

    pub closed spec fn checks_signedness_conversion_error(self) -> bool {
        self.signedness_conversion_error || self.all_integer_bugs
    }

    pub closed spec fn checks_integer_bugs(self) -> bool {
        self.all_bugs || self.all_integer_bugs || self.checks_division_by_zero()
            || self.checks_integer_coercion_error() || self.checks_integer_overflow()
            || self.checks_integer_underflow() || self.checks_numeric_truncation_error()
            || self.checks_signedness_conversion_error()
    }

    pub closed spec fn checks_memory_bugs(self) -> bool {
        self.all_bugs || self.all_memory_bugs
    }

    pub closed spec fn checks_bugs(self) -> bool {
        self.checks_integer_bugs() || self.checks_memory_bugs()
    }
}

/// Whether `raw` asks, directly or through an aggregate, for some integer bug.
pub open spec fn raw_asks_integer_bugs(raw: RawBugFlags) -> bool {
    raw.all_bugs || raw.all_integer_bugs || raw.division_by_zero || raw.integer_coercion_error
        || raw.integer_overflow || raw.integer_underflow || raw.numeric_truncation_error
        || raw.signedness_conversion_error
}

/// Derives the bug-checking options from the raw flags: `all_bugs` implies
/// `all_integer_bugs`, which in turn implies every integer bug kind.
pub fn derive_bug_options(raw: &RawBugFlags) -> (r: BugOptions)
    ensures
        r == BugOptions::derived_from(*raw),
        r.checks_all_bugs() == raw.all_bugs,
        r.checks_all_integer_bugs() == (raw.all_integer_bugs || raw.all_bugs),
        r.checks_all_memory_bugs() == raw.all_memory_bugs,
        r.checks_division_by_zero() == (raw.division_by_zero || raw.all_integer_bugs
            || raw.all_bugs),
        r.checks_integer_coercion_error() == (raw.integer_coercion_error
            || raw.all_integer_bugs || raw.all_bugs),
        r.checks_integer_overflow() == (raw.integer_overflow || raw.all_integer_bugs
            || raw.all_bugs),
        r.checks_integer_underflow() == (raw.integer_underflow || raw.all_integer_bugs
            || raw.all_bugs),
        r.checks_numeric_truncation_error() == (raw.numeric_truncation_error
            || raw.all_integer_bugs || raw.all_bugs),
        r.checks_signedness_conversion_error() == (raw.signedness_conversion_error
            || raw.all_integer_bugs || raw.all_bugs),
        r.checks_integer_bugs() == raw_asks_integer_bugs(*raw),
        r.checks_memory_bugs() == (raw.all_bugs || raw.all_memory_bugs),
        r.checks_bugs() == (raw_asks_integer_bugs(*raw) || raw.all_memory_bugs),
{
    let all_integer_bugs = raw.all_integer_bugs || raw.all_bugs;
    BugOptions {
        all_bugs: raw.all_bugs,
        all_integer_bugs,
        all_memory_bugs: raw.all_memory_bugs,
        division_by_zero: raw.division_by_zero,
        integer_coercion_error: raw.integer_coercion_error,
        integer_overflow: raw.integer_overflow,
        integer_underflow: raw.integer_underflow,
        numeric_truncation_error: raw.numeric_truncation_error,
        signedness_conversion_error: raw.signedness_conversion_error,
    }
}

impl BugOptions {
    /// Whether every kind of bug, integer and memory, is to be checked.
    pub fn all_bugs(&self) -> (r: bool)
        ensures
            r == self.checks_all_bugs(),
    {
        self.all_bugs
    }

    /// Whether every integer bug kind is to be checked.
    pub fn all_integer_bugs(&self) -> (r: bool)
        ensures
            r == self.checks_all_integer_bugs(),
    {
        self.all_integer_bugs
    }

    /// Whether every memory bug kind is to be checked.
    pub fn all_memory_bugs(&self) -> (r: bool)
        ensures
            r == self.checks_all_memory_bugs(),
    {
        self.all_memory_bugs
    }

    pub fn need_to_check_division_by_zero(&self) -> (r: bool)
        ensures
            r == self.checks_division_by_zero(),
    {
        self.division_by_zero || self.all_integer_bugs
    }

    pub fn need_to_check_integer_coercion_error(&self) -> (r: bool)
        ensures
            r == self.checks_integer_coercion_error(),
    {
        self.integer_coercion_error || self.all_integer_bugs
    }

    pub fn need_to_check_integer_overflow(&self) -> (r: bool)
        ensures
            r == self.checks_integer_overflow(),
    {
        self.integer_overflow || self.all_integer_bugs
    }

    pub fn need_to_check_integer_underflow(&self) -> (r: bool)
        ensures
            r == self.checks_integer_underflow(),
    {
        self.integer_underflow || self.all_integer_bugs
    }

    pub fn need_to_check_numeric_truncation_error(&self) -> (r: bool)
        ensures
            r == self.checks_numeric_truncation_error(),
    {
        self.numeric_truncation_error || self.all_integer_bugs
    }

    pub fn need_to_check_signedness_conversion_error(&self) -> (r: bool)
        ensures
            r == self.checks_signedness_conversion_error(),
    {
        self.signedness_conversion_error || self.all_integer_bugs
    }

    /// Whether any integer bug is to be checked.
    pub fn need_to_check_integer_bugs(&self) -> (r: bool)
        ensures
            r == self.checks_integer_bugs(),
    {
        self.all_bugs || self.all_integer_bugs || self.need_to_check_division_by_zero()
            || self.need_to_check_integer_coercion_error() || self.need_to_check_integer_overflow()
            || self.need_to_check_integer_underflow()
            || self.need_to_check_numeric_truncation_error()
            || self.need_to_check_signedness_conversion_error()
    }

    /// Whether any memory bug is to be checked.
    pub fn need_to_check_memory_bugs(&self) -> (r: bool)
        ensures
            r == self.checks_memory_bugs(),
    {
        self.all_bugs || self.all_memory_bugs
    }

    /// Whether any bug at all is to be checked.
    pub fn need_to_check_bugs(&self) -> (r: bool)
        ensures
            r == self.checks_bugs(),
            r == (self.checks_integer_bugs() || self.checks_memory_bugs()),
    {
        self.need_to_check_integer_bugs() || self.need_to_check_memory_bugs()
    }
}

/// For every combination of raw flags, the derived options check some bug
/// exactly when they check integer bugs or memory bugs.
pub proof fn lemma_bug_check_composition(raw: RawBugFlags)
    ensures
        BugOptions::derived_from(raw).checks_bugs() == (
        BugOptions::derived_from(raw).checks_integer_bugs()
            || BugOptions::derived_from(raw).checks_memory_bugs()),
{
}

/// Asking for all bugs alone enables every integer bug kind and integer bug
/// checking as a whole.
pub proof fn lemma_all_bugs_enables_integer_kinds(raw: RawBugFlags)
    requires
        raw.all_bugs,
    ensures
        BugOptions::derived_from(raw).checks_division_by_zero(),
        BugOptions::derived_from(raw).checks_integer_coercion_error(),
        BugOptions::derived_from(raw).checks_integer_overflow(),
        BugOptions::derived_from(raw).checks_integer_underflow(),
        BugOptions::derived_from(raw).checks_numeric_truncation_error(),
        BugOptions::derived_from(raw).checks_signedness_conversion_error(),
        BugOptions::derived_from(raw).checks_integer_bugs(),
{
}

/// Asking for division-by-zero checks with no aggregate flag set enables
/// integer bug checking and leaves memory bug checking off.
pub proof fn lemma_division_by_zero_alone(raw: RawBugFlags)
    requires
        raw.division_by_zero,
        !raw.all_bugs,
        !raw.all_integer_bugs,
        !raw.all_memory_bugs,
    ensures
        BugOptions::derived_from(raw).checks_integer_bugs(),
        !BugOptions::derived_from(raw).checks_memory_bugs(),
{
}

/// Derivation is a function of the raw flags: two derivations from the same
/// input are equal.
pub proof fn lemma_derivation_deterministic(raw: RawBugFlags, a: BugOptions, b: BugOptions)
    requires
        a == BugOptions::derived_from(raw),
        b == BugOptions::derived_from(raw),
    ensures
        a == b,
{
}

/// Options for assertion checking, as given. Checking all assertions implies
/// checking both the aliasing and the interval assertions.
#[derive(Clone, Copy, Debug, PartialEq, Eq, Structural)]
pub struct AssertOptions {
    /// Check pointer aliasing assertions.
    pub assert_alias: bool,
    /// Check all assertions.
    pub assert_all: bool,
    /// Check integer interval assertions.
    pub assert_interval: bool,
}

impl AssertOptions {
    pub open spec fn checks_aliasing(self) -> bool {
        self.assert_all || self.assert_alias
    }

    pub open spec fn checks_interval(self) -> bool {
        self.assert_all || self.assert_interval
    }

    pub open spec fn checks_assertions(self) -> bool {
        self.checks_aliasing() || self.checks_interval()
    }

    /// Whether aliasing assertions are to be checked.
    pub fn need_to_check_aliasing(&self) -> (r: bool)
        ensures
            r == self.checks_aliasing(),
    {
        self.assert_all || self.assert_alias
    }

    /// Whether interval assertions are to be checked.
    pub fn need_to_check_interval(&self) -> (r: bool)
        ensures
            r == self.checks_interval(),
    {
        self.assert_all || self.assert_interval
    }

    /// Whether any assertion is to be checked.
    pub fn need_to_check_assertions(&self) -> (r: bool)
        ensures
            r == self.checks_assertions(),
    {
        self.need_to_check_aliasing() || self.need_to_check_interval()
    }
}

/// Builds the assertion-checking options from the three raw flags.
pub fn derive_assert_options(assert_all: bool, assert_alias: bool, assert_interval: bool) -> (r:
    AssertOptions)
    ensures
        r == (AssertOptions { assert_alias, assert_all, assert_interval }),
        r.checks_aliasing() == (assert_all || assert_alias),
        r.checks_interval() == (assert_all || assert_interval),
        r.checks_assertions() == (assert_all || assert_alias || assert_interval),
{
    AssertOptions { assert_alias, assert_all, assert_interval }
}

/// Options shared by all tools: debugging, disabled passes, options handed
/// through to compilers, include paths and printing of intermediate programs.
/// The string lists keep the order in which they were given, duplicates
/// included.
#[derive(Clone, Debug, PartialEq, Eq)]
pub struct CoreOptions<'a> {
    /// Options handed to Clang.
    pub clang_options: Vec<&'a str>,
    /// Extra printing for debugging.
    pub debug_mode: bool,
    /// More extra printing for deep debugging; implies `debug_mode`.
    pub deep_debug_mode: bool,
    /// Skip the instrumentation pass.
    pub disable_instrumentation: bool,
    /// Skip the normalization pass.
    pub disable_normalization: bool,
    /// Skip the optimization pass.
    pub disable_optimization: bool,
    /// Disable general printing.
    pub disable_printing: bool,
    /// Generate statistics of the YUL intermediate representation.
    pub generate_yul_statistics: bool,
    /// Directories that hold supporting libraries.
    pub include_dirs: Vec<&'a str>,
    /// Files of supporting libraries.
    pub include_files: Vec<&'a str>,
    /// Instrument bug annotations into the code.
    pub instrument_code: bool,
    /// Print the compiled program.
    pub print_compiled_prog: bool,
    /// Print the final program, after all preprocessing steps.
    pub print_final_prog: bool,
    /// Print the instrumented program.
    pub print_instrumented_prog: bool,
    /// Print the main program.
    pub print_main_prog: bool,
    /// Print the normalized program.
    pub print_normalized_prog: bool,
    /// Print the optimized program.
    pub print_optimized_prog: bool,
    /// Print the sparse program.
    pub print_sparse_prog: bool,
    /// Options handed to Rustc.
    pub rustc_options: Vec<&'a str>,
    /// Options handed to Solang.
    pub solang_options: Vec<&'a str>,
    /// Options handed to Solc.
    pub solc_options: Vec<&'a str>,
}

/// The flags that logging and printing consult during a run. A value of this
/// type is made once at startup and handed to whoever needs it.
#[derive(Clone, Copy, Debug, PartialEq, Eq, Structural)]
pub struct CoreFlags {
    pub debug_mode: bool,
    pub deep_debug_mode: bool,
    pub disable_printing: bool,
}

impl<'a> CoreOptions<'a> {
    /// The flags for logging and printing that these options set: deep
    /// debugging implies debugging.
    pub fn apply_to_core_flags(&self) -> (r: CoreFlags)
        ensures
            r.debug_mode == (self.debug_mode || self.deep_debug_mode),
            r.deep_debug_mode == self.deep_debug_mode,
            r.disable_printing == self.disable_printing,
    {
        CoreFlags {
            debug_mode: self.debug_mode || self.deep_debug_mode,
            deep_debug_mode: self.deep_debug_mode,
            disable_printing: self.disable_printing,
        }
    }
}

/// Width of the help text when the terminal's own width is unknown.
pub const DEFAULT_TERMINAL_WIDTH: usize = 120;

/// The width for help text: the terminal's width in columns where it is
/// known, else the default.
pub fn terminal_width(columns: Option<u16>) -> (r: usize)
    ensures
        r == (match columns {
            Some(w) => w as usize,
            None => DEFAULT_TERMINAL_WIDTH,
        }),
{
    match columns {
        Some(w) => w as usize,
        None => DEFAULT_TERMINAL_WIDTH,
    }
}

} // verus!
