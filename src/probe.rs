//! The run-time probe: a binary compiled with AVX2 asks the CPU whether it
//! has AVX2, and stops with exit status 1 when it does not.
//!
//! The probe is split into its two decisions. The caller performs what they
//! ask for: the CPU query, and on failure the diagnostic and the exit.
use vstd::prelude::*;

use crate::text::mentions;
use crate::text::readme_link;

verus! {

/// The exit status of a process stopped by the probe.
pub const MISMATCH_EXIT_CODE: i32 = 1;

/// What the probe does first, from how the binary was compiled.
#[derive(Clone, Copy, Debug, PartialEq, Eq, Structural)]
pub enum ProbePlan {
    /// Return at once: no CPU query is made.
    ReturnNow,
    /// Ask the CPU whether it supports AVX2, then call [`on_cpu_report`].
    QueryCpu,
}

/// What the probe does once it knows the CPU's answer.
#[derive(Clone, Copy, Debug, PartialEq, Eq, Structural)]
pub enum ProbeAction {
    /// Return normally, with no output.
    Proceed,
    /// Write the diagnostic to standard error, then end the process with
    /// this exit status.
    Terminate { exit_code: i32 },
}

/// The state of the process that calls the probe.
#[derive(Clone, Copy, Debug, PartialEq, Eq, Structural)]
pub enum ProcessState {
    /// The process goes on.
    Running,
    /// The process has ended with this exit status.
    Exited { exit_code: i32 },
}

/// The first decision: only a binary compiled with AVX2 asks the CPU.
pub open spec fn plan_for(compiled_with_avx2: bool) -> ProbePlan {
    if compiled_with_avx2 {
        ProbePlan::QueryCpu
    } else {
        ProbePlan::ReturnNow
    }
}

/// The second decision, from whether the CPU reports AVX2.
pub open spec fn action_for(cpu_has_avx2: bool) -> ProbeAction {
    if cpu_has_avx2 {
        ProbeAction::Proceed
    } else {
        ProbeAction::Terminate { exit_code: MISMATCH_EXIT_CODE }
    }
}

/// What one call of the probe does, both decisions taken together.
pub open spec fn probe_outcome(compiled_with_avx2: bool, cpu_has_avx2: bool) -> ProbeAction {
    match plan_for(compiled_with_avx2) {
        ProbePlan::ReturnNow => ProbeAction::Proceed,
        ProbePlan::QueryCpu => action_for(cpu_has_avx2),
    }
}

/// The state of the process after one call of the probe: a process that has
/// ended runs no further call.
pub open spec fn after_probe(
    s: ProcessState,
    compiled_with_avx2: bool,
    cpu_has_avx2: bool,
) -> ProcessState {
    match s {
        ProcessState::Exited { .. } => s,
        ProcessState::Running => match probe_outcome(compiled_with_avx2, cpu_has_avx2) {
            ProbeAction::Proceed => ProcessState::Running,
            ProbeAction::Terminate { exit_code } => ProcessState::Exited { exit_code },
        },
    }
}

/// Decides whether the probe asks the CPU at all.
pub fn probe_plan(compiled_with_avx2: bool) -> (r: ProbePlan)
    ensures
        r == plan_for(compiled_with_avx2),
        r == ProbePlan::QueryCpu <==> compiled_with_avx2,
{
    if compiled_with_avx2 {
        ProbePlan::QueryCpu
    } else {
        ProbePlan::ReturnNow
    }
}

/// The second decision, from the CPU's answer: go on when it has AVX2, stop
/// with exit status 1 when it does not.
pub fn on_cpu_report(cpu_has_avx2: bool) -> (r: ProbeAction)
    ensures
        r == action_for(cpu_has_avx2),
        r == ProbeAction::Proceed <==> cpu_has_avx2,
        !cpu_has_avx2 ==> r == (ProbeAction::Terminate { exit_code: 1 }),
{
    if cpu_has_avx2 {
        ProbeAction::Proceed
    } else {
        ProbeAction::Terminate { exit_code: MISMATCH_EXIT_CODE }
    }
}

/// A probe call on a binary compiled with AVX2 stops the process with exit
/// status 1 exactly when the CPU lacks AVX2; a binary compiled without AVX2
/// makes no CPU query and goes on, whatever the CPU supports.
pub proof fn lemma_probe_outcome(compiled_with_avx2: bool, cpu_has_avx2: bool)
    ensures
        compiled_with_avx2 && !cpu_has_avx2 ==> probe_outcome(compiled_with_avx2, cpu_has_avx2)
            == (ProbeAction::Terminate { exit_code: 1 }),
        compiled_with_avx2 && cpu_has_avx2 ==> probe_outcome(compiled_with_avx2, cpu_has_avx2)
            == ProbeAction::Proceed,
        !compiled_with_avx2 ==> plan_for(compiled_with_avx2) == ProbePlan::ReturnNow
            && probe_outcome(compiled_with_avx2, cpu_has_avx2) == ProbeAction::Proceed,
{
}

/// Calling the probe twice under the same conditions ends in the same state
/// as calling it once: both calls return, or the first ends the process.
pub proof fn lemma_probe_idempotent(s: ProcessState, compiled_with_avx2: bool, cpu_has_avx2: bool)
    ensures
        after_probe(after_probe(s, compiled_with_avx2, cpu_has_avx2), compiled_with_avx2, cpu_has_avx2)
            == after_probe(s, compiled_with_avx2, cpu_has_avx2),
{
}

/// Once a probe call has ended the process, nothing runs after it: no later
/// call, under any conditions, changes the state.
pub proof fn lemma_no_step_past_failure(
    compiled_with_avx2: bool,
    cpu_has_avx2: bool,
    later_compiled_with_avx2: bool,
    later_cpu_has_avx2: bool,
)
    ensures
        after_probe(ProcessState::Running, compiled_with_avx2, cpu_has_avx2) is Exited ==> {
            let s = after_probe(ProcessState::Running, compiled_with_avx2, cpu_has_avx2);
            &&& s == (ProcessState::Exited { exit_code: 1 })
            &&& after_probe(s, later_compiled_with_avx2, later_cpu_has_avx2) == s
        },
{
}

/// The diagnostic written to standard error before the probe ends the
/// process: what went wrong, the two remedies, and where to read more.
pub const CPU_MISMATCH_MESSAGE: &'static str = "
This binary was compiled with AVX2 instructions enabled, but your CPU does not support this.
Please run on a CPU that supports AVX2, or build from source with the `-F scalar` feature enabled.
See the readme at https://github.com/ragnargrootkoerkamp/ensure_simd for details.
";

/// The phrase that says what went wrong.
pub open spec fn mismatch_explanation() -> Seq<char> {
    "compiled with AVX2 instructions enabled, but your CPU does not support this"@
}

/// The phrase that tells the user to run on a CPU with AVX2.
pub open spec fn run_elsewhere_remedy() -> Seq<char> {
    "run on a CPU that supports AVX2"@
}

/// The phrase that tells the user to rebuild with the scalar fallback.
pub open spec fn rebuild_scalar_remedy() -> Seq<char> {
    "`-F scalar` feature"@
}

/// The diagnostic says that the binary was built for AVX2 and the CPU lacks
/// it, names both remedies, and links to the readme.
pub proof fn lemma_cpu_mismatch_message_contents()
    ensures
        mentions(CPU_MISMATCH_MESSAGE@, mismatch_explanation()),
        mentions(CPU_MISMATCH_MESSAGE@, run_elsewhere_remedy()),
        mentions(CPU_MISMATCH_MESSAGE@, rebuild_scalar_remedy()),
        mentions(CPU_MISMATCH_MESSAGE@, readme_link()),
{
    let m = CPU_MISMATCH_MESSAGE@;
    reveal_strlit("
This binary was compiled with AVX2 instructions enabled, but your CPU does not support this.
Please run on a CPU that supports AVX2, or build from source with the `-F scalar` feature enabled.
See the readme at https://github.com/ragnargrootkoerkamp/ensure_simd for details.
");
    reveal_strlit("compiled with AVX2 instructions enabled, but your CPU does not support this");
    reveal_strlit("run on a CPU that supports AVX2");
    reveal_strlit("`-F scalar` feature");
    reveal_strlit("https://github.com/ragnargrootkoerkamp/ensure_simd");
    let at: int = 17;
    assert(m.subrange(at, at + mismatch_explanation().len()) =~= mismatch_explanation());
    let at: int = 101;
    assert(m.subrange(at, at + run_elsewhere_remedy().len()) =~= run_elsewhere_remedy());
    let at: int = 164;
    assert(m.subrange(at, at + rebuild_scalar_remedy().len()) =~= rebuild_scalar_remedy());
    let at: int = 211;
    assert(m.subrange(at, at + readme_link().len()) =~= readme_link());
}

/// The diagnostic written to standard error before the probe ends the
/// process.
pub fn mismatch_message() -> (r: &'static str)
    ensures
        r@ == CPU_MISMATCH_MESSAGE@,
        mentions(r@, mismatch_explanation()),
        mentions(r@, run_elsewhere_remedy()),
        mentions(r@, rebuild_scalar_remedy()),
        mentions(r@, readme_link()),
{
    proof {
        lemma_cpu_mismatch_message_contents();
    }
    CPU_MISMATCH_MESSAGE
}

} // verus!
