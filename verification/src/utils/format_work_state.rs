use vstd::prelude::*;
use crate::core_logic::state::WorkState;
use crate::core_logic::timer::WorkTimer;
use crate::core_logic::clock::TimeOfDay;

verus! {

/// The words shown for a state.
pub open spec fn state_text(state: WorkState) -> Seq<char> {
    match state {
        WorkState::Working => "Trabalhando"@,
        WorkState::Paused { reason, .. } => "Pausado: "@ + reason@,
        WorkState::SoftBreak { label, .. } => "Pausa leve: "@ + label@,
        WorkState::Finished => "Concluído"@,
    }
}

/// The words shown for `state`.
pub fn describe_state(state: &WorkState) -> (s: String)
    ensures
        s@ == state_text(*state),
{
    match state {
        WorkState::Working => String::from_str("Trabalhando"),
        WorkState::Paused { reason, .. } => {
            let mut s = String::from_str("Pausado: ");
            s.append(reason.as_str());
            s
        },
        WorkState::SoftBreak { label, .. } => {
            let mut s = String::from_str("Pausa leve: ");
            s.append(label.as_str());
            s
        },
        WorkState::Finished => String::from_str("Concluído"),
    }
}

/// The words for the timer's state now, by the system clock.
pub fn format_work_state(timer: &WorkTimer) -> (s: String)
    requires
        timer.wf(),
    ensures
        exists|now: TimeOfDay| now.wf() && s@ == state_text(#[trigger] timer.state_now(now)),
{
    let state = timer.get_state();
    describe_state(&state)
}

} // verus!
