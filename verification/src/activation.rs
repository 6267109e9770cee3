//! The order in which the tables are handed to the processor.
//!
//! The caller performs each privileged operation and reports it; the functions here
//! say which operation comes next and refuse any other.

use crate::gdt::{selector_constants, SegmentSelector, KERNEL_CS, KERNEL_DS};
use vstd::prelude::*;

verus! {

/// How far the activation has come.
#[derive(Clone, Copy, Debug, PartialEq, Eq, Structural)]
pub enum ActivationState {
    /// Nothing has been done.
    Unconfigured,
    /// Interrupt delivery is off.
    InterruptsDisabled,
    /// The global descriptor table is loaded.
    TablesLoaded,
    /// The code segment register holds the kernel's code selector.
    CodeSegmentTransitioned,
    /// The data segment registers hold the kernel's data selector.
    SegmentsTransitioned,
    /// The interrupt descriptor table is loaded.
    InterruptTableLoaded,
    /// Interrupt delivery is on again: the activation is complete.
    InterruptsEnabled,
}

/// One privileged operation of the activation.
#[derive(Clone, Copy, Debug, PartialEq, Eq, Structural)]
pub enum ActivationStep {
    DisableInterrupts,
    LoadGdt,
    FarJump,
    LoadDataSegments,
    LoadIdt,
    EnableInterrupts,
}

/// The operation that is due in a state; none once the activation is complete.
pub open spec fn due(state: ActivationState) -> Option<ActivationStep> {
    match state {
        ActivationState::Unconfigured => Some(ActivationStep::DisableInterrupts),
        ActivationState::InterruptsDisabled => Some(ActivationStep::LoadGdt),
        ActivationState::TablesLoaded => Some(ActivationStep::FarJump),
        ActivationState::CodeSegmentTransitioned => Some(ActivationStep::LoadDataSegments),
        ActivationState::SegmentsTransitioned => Some(ActivationStep::LoadIdt),
        ActivationState::InterruptTableLoaded => Some(ActivationStep::EnableInterrupts),
        ActivationState::InterruptsEnabled => None,
    }
}

/// The state that an operation leads to.
pub open spec fn reached_by(step: ActivationStep) -> ActivationState {
    match step {
        ActivationStep::DisableInterrupts => ActivationState::InterruptsDisabled,
        ActivationStep::LoadGdt => ActivationState::TablesLoaded,
        ActivationStep::FarJump => ActivationState::CodeSegmentTransitioned,
        ActivationStep::LoadDataSegments => ActivationState::SegmentsTransitioned,
        ActivationStep::LoadIdt => ActivationState::InterruptTableLoaded,
        ActivationStep::EnableInterrupts => ActivationState::InterruptsEnabled,
    }
}

/// The state after `step` in `state`: there is one only where `step` is the
/// operation that is due.
pub open spec fn after(state: ActivationState, step: ActivationStep) -> Option<ActivationState> {
    if due(state) == Some(step) {
        Some(reached_by(step))
    } else {
        None
    }
}

/// The state after a whole sequence of operations, if each was due in its turn.
pub open spec fn after_all(state: ActivationState, trace: Seq<ActivationStep>) -> Option<
    ActivationState,
>
    decreases trace.len(),
{
    if trace.len() == 0 {
        Some(state)
    } else {
        match after_all(state, trace.drop_last()) {
            Some(s) => after(s, trace.last()),
            None => None,
        }
    }
}

/// A sequence of operations that takes an unconfigured processor to the end of the
/// activation.
pub open spec fn successful(trace: Seq<ActivationStep>) -> bool {
    after_all(ActivationState::Unconfigured, trace) == Some(ActivationState::InterruptsEnabled)
}

/// The one order in which the six operations are accepted.
pub open spec fn activation_order() -> Seq<ActivationStep> {
    seq![
        ActivationStep::DisableInterrupts,
        ActivationStep::LoadGdt,
        ActivationStep::FarJump,
        ActivationStep::LoadDataSegments,
        ActivationStep::LoadIdt,
        ActivationStep::EnableInterrupts,
    ]
}

/// The number of operations that lie behind a state.
pub open spec fn progress(state: ActivationState) -> nat {
    match state {
        ActivationState::Unconfigured => 0,
        ActivationState::InterruptsDisabled => 1,
        ActivationState::TablesLoaded => 2,
        ActivationState::CodeSegmentTransitioned => 3,
        ActivationState::SegmentsTransitioned => 4,
        ActivationState::InterruptTableLoaded => 5,
        ActivationState::InterruptsEnabled => 6,
    }
}

/// The operation to perform next, or `None` when the activation is complete.
pub fn next_step(state: ActivationState) -> (step: Option<ActivationStep>)
    ensures
        step == due(state),
{
    match state {
        ActivationState::Unconfigured => Some(ActivationStep::DisableInterrupts),
        ActivationState::InterruptsDisabled => Some(ActivationStep::LoadGdt),
        ActivationState::TablesLoaded => Some(ActivationStep::FarJump),
        ActivationState::CodeSegmentTransitioned => Some(ActivationStep::LoadDataSegments),
        ActivationState::SegmentsTransitioned => Some(ActivationStep::LoadIdt),
        ActivationState::InterruptTableLoaded => Some(ActivationStep::EnableInterrupts),
        ActivationState::InterruptsEnabled => None,
    }
}

/// Records that `done` was performed in `state`: the next state where `done` was
/// the operation that was due, `None` where it was out of order.
pub fn advance(state: ActivationState, done: ActivationStep) -> (next: Option<ActivationState>)
    ensures
        next == after(state, done),
{
    match next_step(state) {
        Some(expected) => {
            if expected == done {
                Some(
                    match done {
                        ActivationStep::DisableInterrupts => ActivationState::InterruptsDisabled,
                        ActivationStep::LoadGdt => ActivationState::TablesLoaded,
                        ActivationStep::FarJump => ActivationState::CodeSegmentTransitioned,
                        ActivationStep::LoadDataSegments => ActivationState::SegmentsTransitioned,
                        ActivationStep::LoadIdt => ActivationState::InterruptTableLoaded,
                        ActivationStep::EnableInterrupts => ActivationState::InterruptsEnabled,
                    },
                )
            } else {
                None
            }
        },
        None => None,
    }
}

/// The selector that an operation loads: the kernel's code selector for the far
/// jump, its data selector for the data segment registers.
pub open spec fn loaded_selector(step: ActivationStep) -> Option<u16> {
    match step {
        ActivationStep::FarJump => Some(KERNEL_CS),
        ActivationStep::LoadDataSegments => Some(KERNEL_DS),
        _ => None,
    }
}

/// The selector that `step` loads into segment registers, if it loads one.
pub fn selector_for(step: ActivationStep) -> (selector: Option<u16>)
    ensures
        selector == loaded_selector(step),
{
    match step {
        ActivationStep::FarJump => Some(KERNEL_CS),
        ActivationStep::LoadDataSegments => Some(KERNEL_DS),
        _ => None,
    }
}

/// The state that a recorded sequence of operations leads to from an unconfigured
/// processor, or `None` if one of them was out of order.
pub fn replay(trace: &[ActivationStep]) -> (end: Option<ActivationState>)
    ensures
        end == after_all(ActivationState::Unconfigured, trace@),
{
    let mut state = ActivationState::Unconfigured;
    let mut i: usize = 0;
    while i < trace.len()
        invariant
            i <= trace@.len(),
            after_all(ActivationState::Unconfigured, trace@.subrange(0, i as int)) == Some(state),
        decreases trace@.len() - i,
    {
        let ghost prefix = trace@.subrange(0, i + 1);
        assert(prefix.drop_last() =~= trace@.subrange(0, i as int));
        match advance(state, trace[i]) {
            Some(next) => {
                state = next;
            },
            None => {
                proof {
                    refused_for_good(trace@, i + 1);
                }
                return None;
            },
        }
        i += 1;
    }
    assert(trace@.subrange(0, i as int) =~= trace@);
    Some(state)
}

/// Whether a recorded sequence of operations is a complete activation.
pub fn is_successful(trace: &[ActivationStep]) -> (ok: bool)
    ensures
        ok == successful(trace@),
{
    match replay(trace) {
        Some(ActivationState::InterruptsEnabled) => true,
        _ => false,
    }
}

/// Once an operation has been refused, no later operation mends the sequence.
pub proof fn refused_for_good(trace: Seq<ActivationStep>, n: int)
    requires
        0 <= n <= trace.len(),
        after_all(ActivationState::Unconfigured, trace.subrange(0, n)) is None,
    ensures
        after_all(ActivationState::Unconfigured, trace) is None,
    decreases trace.len() - n,
{
    if n < trace.len() {
        let longer = trace.subrange(0, n + 1);
        assert(longer.drop_last() =~= trace.subrange(0, n));
        refused_for_good(trace, n + 1);
    } else {
        assert(trace.subrange(0, n) =~= trace);
    }
}

/// A sequence of operations of which each was due in its turn is the beginning of
/// the one accepted order, and the state it leads to counts its operations.
pub proof fn accepted_is_prefix(trace: Seq<ActivationStep>)
    requires
        after_all(ActivationState::Unconfigured, trace) is Some,
    ensures
        trace.len() <= 6,
        progress(after_all(ActivationState::Unconfigured, trace)->0) == trace.len(),
        trace == activation_order().subrange(0, trace.len() as int),
    decreases trace.len(),
{
    if trace.len() > 0 {
        accepted_is_prefix(trace.drop_last());
    }
}

/// In every complete activation the global descriptor table is loaded strictly
/// before the segment registers are reloaded, these strictly before the interrupt
/// descriptor table is loaded, and interrupts are enabled only after that: the
/// sequence is the one accepted order, with each operation occurring once.
pub proof fn activation_ordering(trace: Seq<ActivationStep>)
    requires
        successful(trace),
    ensures
        trace == activation_order(),
        forall|i: int, j: int|
            0 <= i < trace.len() && 0 <= j < trace.len() && trace[i] == ActivationStep::LoadGdt && (
            trace[j] == ActivationStep::FarJump || trace[j] == ActivationStep::LoadDataSegments)
                ==> i < j,
        forall|i: int, j: int|
            0 <= i < trace.len() && 0 <= j < trace.len() && (trace[i] == ActivationStep::FarJump
                || trace[i] == ActivationStep::LoadDataSegments) && trace[j]
                == ActivationStep::LoadIdt ==> i < j,
        forall|i: int, j: int|
            0 <= i < trace.len() && 0 <= j < trace.len() && trace[i] == ActivationStep::LoadIdt
                && trace[j] == ActivationStep::EnableInterrupts ==> i < j,
        trace[1] == ActivationStep::LoadGdt,
        trace[2] == ActivationStep::FarJump,
        trace[3] == ActivationStep::LoadDataSegments,
        trace[4] == ActivationStep::LoadIdt,
{
    accepted_is_prefix(trace);
}

/// The selectors that the activation loads are those of the kernel's code and data
/// segments, entries 1 and 2 of the global table, both of ring 0: the ring in which
/// the activation runs.
pub proof fn loaded_selectors_are_kernel_segments()
    ensures
        loaded_selector(ActivationStep::FarJump) == Some(
            (SegmentSelector { index: 1, use_ldt: false, privl: 0 }).bits(),
        ),
        loaded_selector(ActivationStep::LoadDataSegments) == Some(
            (SegmentSelector { index: 2, use_ldt: false, privl: 0 }).bits(),
        ),
{
    selector_constants();
}

} // verus!
