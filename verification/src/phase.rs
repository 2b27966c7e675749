use vstd::prelude::*;

verus! {

/// A body's position in the strict total order of structural states:
/// `Built` -> `AnalysisInitial` -> `AnalysisPostCleanup` -> `RuntimeInitial`
/// -> `RuntimePostCleanup` -> `RuntimeOptimized`.
///
/// `RuntimeOptimized` is the terminal state handed to code generation;
/// `RuntimePostCleanup` is the terminal state for bodies that only ever run
/// under compile-time evaluation and therefore skip the optimization stage.
#[derive(Clone, Copy, Debug, PartialEq, Eq, Structural)]
pub enum Phase {
    Built,
    AnalysisInitial,
    AnalysisPostCleanup,
    RuntimeInitial,
    RuntimePostCleanup,
    RuntimeOptimized,
}

/// The rank of a phase in the total order.
pub open spec fn phase_index(p: Phase) -> int {
    match p {
        Phase::Built => 0,
        Phase::AnalysisInitial => 1,
        Phase::AnalysisPostCleanup => 2,
        Phase::RuntimeInitial => 3,
        Phase::RuntimePostCleanup => 4,
        Phase::RuntimeOptimized => 5,
    }
}

/// `a` precedes or equals `b` in the phase order.
pub open spec fn phase_le(a: Phase, b: Phase) -> bool {
    phase_index(a) <= phase_index(b)
}

/// `a` strictly precedes `b` in the phase order.
pub open spec fn phase_lt(a: Phase, b: Phase) -> bool {
    phase_index(a) < phase_index(b)
}

/// The phase order is total and antisymmetric: ranks decide everything.
pub proof fn lemma_phase_order_total(a: Phase, b: Phase)
    ensures
        phase_le(a, b) || phase_le(b, a),
        phase_le(a, b) && phase_le(b, a) ==> a == b,
{
}

pub fn phase_rank(p: Phase) -> (r: u8)
    ensures
        r as int == phase_index(p),
{
    match p {
        Phase::Built => 0,
        Phase::AnalysisInitial => 1,
        Phase::AnalysisPostCleanup => 2,
        Phase::RuntimeInitial => 3,
        Phase::RuntimePostCleanup => 4,
        Phase::RuntimeOptimized => 5,
    }
}

/// Executable form of `phase_le`: does `a` precede or equal `b`?
pub fn phase_precedes_or_equals(a: Phase, b: Phase) -> (r: bool)
    ensures
        r == phase_le(a, b),
{
    phase_rank(a) <= phase_rank(b)
}

} // verus!
