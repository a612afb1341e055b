use toolcore::options::{
    derive_assert_options, derive_bug_options, terminal_width, AssertOptions, CoreOptions,
    RawBugFlags,
};

fn raw_from_bits(bits: u32) -> RawBugFlags {
    RawBugFlags {
        all_bugs: bits & 1 != 0,
        all_integer_bugs: bits & 2 != 0,
        all_memory_bugs: bits & 4 != 0,
        division_by_zero: bits & 8 != 0,
        integer_coercion_error: bits & 16 != 0,
        integer_overflow: bits & 32 != 0,
        integer_underflow: bits & 64 != 0,
        numeric_truncation_error: bits & 128 != 0,
        signedness_conversion_error: bits & 256 != 0,
    }
}

fn no_flags() -> RawBugFlags {
    raw_from_bits(0)
}

#[test]
fn bug_checks_compose_for_every_combination() {
    for bits in 0..512u32 {
        let o = derive_bug_options(&raw_from_bits(bits));
        assert_eq!(
            o.need_to_check_bugs(),
            o.need_to_check_integer_bugs() || o.need_to_check_memory_bugs()
        );
    }
}

#[test]
fn integer_checks_follow_raw_flags_for_every_combination() {
    for bits in 0..512u32 {
        let raw = raw_from_bits(bits);
        let o = derive_bug_options(&raw);
        let int_all = raw.all_bugs || raw.all_integer_bugs;
        assert_eq!(o.all_integer_bugs(), int_all);
        assert_eq!(o.need_to_check_division_by_zero(), raw.division_by_zero || int_all);
        assert_eq!(o.need_to_check_integer_overflow(), raw.integer_overflow || int_all);
        assert_eq!(o.need_to_check_memory_bugs(), raw.all_bugs || raw.all_memory_bugs);
        assert_eq!(o.need_to_check_integer_bugs(), bits & !4 != 0);
    }
}

#[test]
fn all_bugs_enables_every_integer_kind() {
    let raw = RawBugFlags { all_bugs: true, ..no_flags() };
    let o = derive_bug_options(&raw);
    assert!(o.all_bugs());
    assert!(o.all_integer_bugs());
    assert!(o.need_to_check_division_by_zero());
    assert!(o.need_to_check_integer_coercion_error());
    assert!(o.need_to_check_integer_overflow());
    assert!(o.need_to_check_integer_underflow());
    assert!(o.need_to_check_numeric_truncation_error());
    assert!(o.need_to_check_signedness_conversion_error());
    assert!(o.need_to_check_integer_bugs());
    assert!(o.need_to_check_memory_bugs());
    assert!(o.need_to_check_bugs());
    assert!(!o.all_memory_bugs());
}

#[test]
fn division_by_zero_alone() {
    let raw = RawBugFlags { division_by_zero: true, ..no_flags() };
    let o = derive_bug_options(&raw);
    assert!(o.need_to_check_integer_bugs());
    assert!(!o.need_to_check_memory_bugs());
    assert!(o.need_to_check_division_by_zero());
    assert!(!o.need_to_check_integer_overflow());
    assert!(o.need_to_check_bugs());
}

#[test]
fn memory_aggregate_alone() {
    let raw = RawBugFlags { all_memory_bugs: true, ..no_flags() };
    let o = derive_bug_options(&raw);
    assert!(!o.need_to_check_integer_bugs());
    assert!(o.need_to_check_memory_bugs());
    assert!(o.need_to_check_bugs());
}

#[test]
fn no_bug_flags_check_nothing() {
    let o = derive_bug_options(&no_flags());
    assert!(!o.need_to_check_bugs());
    assert!(!o.need_to_check_integer_bugs());
    assert!(!o.need_to_check_memory_bugs());
}

#[test]
fn derivation_is_deterministic() {
    for bits in 0..512u32 {
        let raw = raw_from_bits(bits);
        assert_eq!(derive_bug_options(&raw), derive_bug_options(&raw));
    }
}

#[test]
fn alias_assertions_only() {
    let o = derive_assert_options(false, true, false);
    assert!(o.need_to_check_aliasing());
    assert!(!o.need_to_check_interval());
    assert!(o.need_to_check_assertions());
}

#[test]
fn assert_all_implies_both_kinds() {
    let o = derive_assert_options(true, false, false);
    assert!(o.need_to_check_aliasing());
    assert!(o.need_to_check_interval());
    assert!(o.need_to_check_assertions());
    assert_eq!(
        o,
        AssertOptions { assert_alias: false, assert_all: true, assert_interval: false }
    );
}

#[test]
fn interval_assertions_only() {
    let o = derive_assert_options(false, false, true);
    assert!(!o.need_to_check_aliasing());
    assert!(o.need_to_check_interval());
    assert!(o.need_to_check_assertions());
}

#[test]
fn no_assertion_flags() {
    let o = derive_assert_options(false, false, false);
    assert!(!o.need_to_check_assertions());
}

fn core_options<'a>(debug: bool, deep: bool, no_print: bool) -> CoreOptions<'a> {
    CoreOptions {
        clang_options: vec!["-O2", "-O2"],
        debug_mode: debug,
        deep_debug_mode: deep,
        disable_instrumentation: false,
        disable_normalization: false,
        disable_optimization: false,
        disable_printing: no_print,
        generate_yul_statistics: false,
        include_dirs: vec![],
        include_files: vec![],
        instrument_code: false,
        print_compiled_prog: false,
        print_final_prog: false,
        print_instrumented_prog: false,
        print_main_prog: false,
        print_normalized_prog: false,
        print_optimized_prog: false,
        print_sparse_prog: false,
        rustc_options: vec![],
        solang_options: vec![],
        solc_options: vec![],
    }
}

#[test]
fn deep_debug_implies_debug() {
    let f = core_options(false, true, false).apply_to_core_flags();
    assert!(f.debug_mode);
    assert!(f.deep_debug_mode);
    assert!(!f.disable_printing);
}

#[test]
fn core_flags_copy_printing_and_debug() {
    let f = core_options(true, false, true).apply_to_core_flags();
    assert!(f.debug_mode);
    assert!(!f.deep_debug_mode);
    assert!(f.disable_printing);
    let g = core_options(false, false, false).apply_to_core_flags();
    assert!(!g.debug_mode);
}

#[test]
fn core_options_keep_order_and_duplicates() {
    let o = core_options(false, false, false);
    assert_eq!(o.clang_options, vec!["-O2", "-O2"]);
    assert_eq!(o.clone(), o);
}

#[test]
fn terminal_width_known_and_unknown() {
    assert_eq!(terminal_width(Some(80)), 80);
    assert_eq!(terminal_width(None), 120);
}
