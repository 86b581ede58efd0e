use ensure_simd::config_check::check_build;
use ensure_simd::config_check::BuildConfig;
use ensure_simd::config_check::BuildError;
use ensure_simd::config_check::BUILD_REFUSED_MESSAGE;
use ensure_simd::probe::mismatch_message;
use ensure_simd::probe::on_cpu_report;
use ensure_simd::probe::probe_plan;
use ensure_simd::probe::ProbeAction;
use ensure_simd::probe::ProbePlan;
use ensure_simd::probe::CPU_MISMATCH_MESSAGE;
use ensure_simd::probe::MISMATCH_EXIT_CODE;

fn config(bits: u32) -> BuildConfig {
    BuildConfig {
        doc_build: bits & 1 != 0,
        debug_build: bits & 2 != 0,
        avx2_enabled: bits & 4 != 0,
        neon_enabled: bits & 8 != 0,
        scalar_accepted: bits & 16 != 0,
    }
}

fn all_off() -> BuildConfig {
    config(0)
}

/// Runs the probe as a caller would, with a stand-in for the CPU query that
/// counts how often it was asked.
fn run_probe(compiled_with_avx2: bool, cpu_has_avx2: bool, queries: &mut u32) -> ProbeAction {
    match probe_plan(compiled_with_avx2) {
        ProbePlan::ReturnNow => ProbeAction::Proceed,
        ProbePlan::QueryCpu => {
            *queries += 1;
            on_cpu_report(cpu_has_avx2)
        }
    }
}

#[test]
fn build_allows_every_combination_with_a_flag_set() {
    for bits in 1..32u32 {
        assert_eq!(check_build(&config(bits)), Ok(()), "flags {bits:05b}");
    }
}

#[test]
fn build_allows_each_flag_alone() {
    for bit in 0..5u32 {
        assert_eq!(check_build(&config(1 << bit)), Ok(()));
    }
}

#[test]
fn build_allows_release_build_with_avx2() {
    let c = BuildConfig { avx2_enabled: true, ..all_off() };
    assert_eq!(check_build(&c), Ok(()));
}

#[test]
fn build_allows_release_build_with_neon() {
    let c = BuildConfig { neon_enabled: true, ..all_off() };
    assert_eq!(check_build(&c), Ok(()));
}

#[test]
fn build_allows_scalar_opt_out() {
    let c = BuildConfig { scalar_accepted: true, ..all_off() };
    assert_eq!(check_build(&c), Ok(()));
}

#[test]
fn build_allows_debug_and_doc_builds_without_simd() {
    assert_eq!(check_build(&BuildConfig { debug_build: true, ..all_off() }), Ok(()));
    assert_eq!(check_build(&BuildConfig { doc_build: true, ..all_off() }), Ok(()));
}

#[test]
fn build_refuses_when_no_flag_is_set() {
    assert_eq!(check_build(&all_off()), Err(BuildError::ScalarFallback));
}

#[test]
fn build_message_names_both_remedies() {
    let e = check_build(&all_off()).unwrap_err();
    let m = e.message();
    assert!(m.contains("RUSTFLAGS=\"-C target-cpu=native\""));
    assert!(m.contains("`scalar` feature"));
    assert!(m.contains("-F scalar"));
    assert!(m.contains("https://github.com/ragnargrootkoerkamp/ensure_simd"));
    assert!(m.lines().count() > 1);
}

#[test]
fn build_message_is_the_fixed_text() {
    let m = BuildError::ScalarFallback.message();
    assert_eq!(m, BUILD_REFUSED_MESSAGE);
    assert!(m.contains("uses AVX2 (on x64) or NEON (on aarch64) SIMD instructions"));
    assert!(m.contains("AVX2 is not enabled by default on x64"));
    assert!(m.ends_with("See the readme at https://github.com/ragnargrootkoerkamp/ensure_simd for details."));
    assert_eq!(m.lines().count(), 7);
}

#[test]
fn probe_terminates_with_status_one_when_cpu_lacks_avx2() {
    let mut queries: u32 = 0;
    let a = run_probe(true, false, &mut queries);
    assert_eq!(a, ProbeAction::Terminate { exit_code: 1 });
    assert_eq!(queries, 1);
    assert_eq!(MISMATCH_EXIT_CODE, 1);
}

#[test]
fn probe_diagnostic_explains_mismatch_and_remedies() {
    let m = mismatch_message();
    assert!(m.contains("compiled with AVX2 instructions enabled"));
    assert!(m.contains("run on a CPU that supports AVX2"));
    assert!(m.contains("`-F scalar` feature"));
    assert!(m.contains("https://github.com/ragnargrootkoerkamp/ensure_simd"));
}

#[test]
fn probe_diagnostic_is_the_fixed_text() {
    let m = mismatch_message();
    assert_eq!(m, CPU_MISMATCH_MESSAGE);
    assert!(m.starts_with("\nThis binary was compiled with AVX2 instructions enabled, but your CPU does not support this.\n"));
    assert_eq!(m.lines().count(), 4);
}

#[test]
fn probe_proceeds_when_cpu_has_avx2() {
    let mut queries: u32 = 0;
    assert_eq!(run_probe(true, true, &mut queries), ProbeAction::Proceed);
    assert_eq!(queries, 1);
}

#[test]
fn probe_makes_no_query_without_avx2_build() {
    let mut queries: u32 = 0;
    assert_eq!(probe_plan(false), ProbePlan::ReturnNow);
    assert_eq!(run_probe(false, false, &mut queries), ProbeAction::Proceed);
    assert_eq!(run_probe(false, true, &mut queries), ProbeAction::Proceed);
    assert_eq!(queries, 0);
}

#[test]
fn probe_queries_cpu_for_avx2_build() {
    assert_eq!(probe_plan(true), ProbePlan::QueryCpu);
}

#[test]
fn probe_twice_gives_same_outcome() {
    for compiled in [false, true] {
        for cpu in [false, true] {
            let mut queries: u32 = 0;
            let first = run_probe(compiled, cpu, &mut queries);
            let second = run_probe(compiled, cpu, &mut queries);
            assert_eq!(first, second);
        }
    }
    assert_eq!(on_cpu_report(false), on_cpu_report(false));
    assert_eq!(on_cpu_report(true), on_cpu_report(true));
}
