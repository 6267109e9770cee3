use x86_boot::activation::{
    advance, is_successful, next_step, replay, selector_for, ActivationState, ActivationStep,
};

fn in_order() -> Vec<ActivationStep> {
    vec![
        ActivationStep::DisableInterrupts,
        ActivationStep::LoadGdt,
        ActivationStep::FarJump,
        ActivationStep::LoadDataSegments,
        ActivationStep::LoadIdt,
        ActivationStep::EnableInterrupts,
    ]
}

#[test]
fn steps_come_in_the_one_order() {
    let mut state = ActivationState::Unconfigured;
    let mut seen = Vec::new();
    while let Some(step) = next_step(state) {
        seen.push(step);
        state = advance(state, step).unwrap();
    }
    assert_eq!(state, ActivationState::InterruptsEnabled);
    assert_eq!(seen, in_order());
}

#[test]
fn states_along_the_way() {
    let s = advance(ActivationState::Unconfigured, ActivationStep::DisableInterrupts);
    assert_eq!(s, Some(ActivationState::InterruptsDisabled));
    let s = advance(ActivationState::InterruptsDisabled, ActivationStep::LoadGdt);
    assert_eq!(s, Some(ActivationState::TablesLoaded));
    let s = advance(ActivationState::TablesLoaded, ActivationStep::FarJump);
    assert_eq!(s, Some(ActivationState::CodeSegmentTransitioned));
    let s = advance(ActivationState::CodeSegmentTransitioned, ActivationStep::LoadDataSegments);
    assert_eq!(s, Some(ActivationState::SegmentsTransitioned));
    let s = advance(ActivationState::SegmentsTransitioned, ActivationStep::LoadIdt);
    assert_eq!(s, Some(ActivationState::InterruptTableLoaded));
    let s = advance(ActivationState::InterruptTableLoaded, ActivationStep::EnableInterrupts);
    assert_eq!(s, Some(ActivationState::InterruptsEnabled));
}

#[test]
fn out_of_order_steps_are_refused() {
    assert_eq!(advance(ActivationState::Unconfigured, ActivationStep::LoadGdt), None);
    assert_eq!(advance(ActivationState::InterruptsDisabled, ActivationStep::LoadIdt), None);
    assert_eq!(advance(ActivationState::TablesLoaded, ActivationStep::EnableInterrupts), None);
    assert_eq!(advance(ActivationState::TablesLoaded, ActivationStep::LoadIdt), None);
    assert_eq!(advance(ActivationState::SegmentsTransitioned, ActivationStep::EnableInterrupts), None);
    assert_eq!(advance(ActivationState::InterruptsEnabled, ActivationStep::DisableInterrupts), None);
    assert_eq!(next_step(ActivationState::InterruptsEnabled), None);
}

#[test]
fn replay_of_the_full_trace_succeeds() {
    let trace = in_order();
    assert_eq!(replay(&trace), Some(ActivationState::InterruptsEnabled));
    assert!(is_successful(&trace));
    let gdt = trace.iter().position(|s| *s == ActivationStep::LoadGdt).unwrap();
    let jump = trace.iter().position(|s| *s == ActivationStep::FarJump).unwrap();
    let data = trace.iter().position(|s| *s == ActivationStep::LoadDataSegments).unwrap();
    let idt = trace.iter().position(|s| *s == ActivationStep::LoadIdt).unwrap();
    assert!(gdt < jump && jump < data && data < idt);
}

#[test]
fn replay_of_partial_and_wrong_traces() {
    assert_eq!(replay(&[]), Some(ActivationState::Unconfigured));
    assert!(!is_successful(&[]));
    let trace = in_order();
    assert_eq!(replay(&trace[..2]), Some(ActivationState::TablesLoaded));
    assert!(!is_successful(&trace[..5]));

    let mut early_idt = in_order();
    early_idt.swap(1, 4);
    assert_eq!(replay(&early_idt), None);
    assert!(!is_successful(&early_idt));

    let mut early_sti = in_order();
    early_sti.swap(4, 5);
    assert_eq!(replay(&early_sti), None);

    let mut twice = in_order();
    twice.push(ActivationStep::EnableInterrupts);
    assert_eq!(replay(&twice), None);
}

#[test]
fn selectors_loaded_by_the_steps() {
    assert_eq!(selector_for(ActivationStep::FarJump), Some(0x08));
    assert_eq!(selector_for(ActivationStep::LoadDataSegments), Some(0x10));
    assert_eq!(selector_for(ActivationStep::LoadGdt), None);
    assert_eq!(selector_for(ActivationStep::LoadIdt), None);
    assert_eq!(selector_for(ActivationStep::DisableInterrupts), None);
    assert_eq!(selector_for(ActivationStep::EnableInterrupts), None);
}
