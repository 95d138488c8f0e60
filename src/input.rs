//! The commands that drive the simulation, and the run state they switch.

use vstd::prelude::*;

use crate::grid::Position;

verus! {

/// A command for the simulation, queued during a frame.
#[derive(Clone, Copy, PartialEq, Eq, Structural, Debug)]
pub enum InputAction {
    ToggleCell(Position),
    PauseSimulation,
    UnpauseSimulation,
    AdvanceSimulation,
    RewindSimulation,
}

/// Where the application is in its lifecycle.
#[derive(Clone, Copy, PartialEq, Eq, Structural, Debug)]
pub enum AppState {
    Initial,
    Startup,
    Running,
    Paused,
}

/// The command that the pause key gives in `state`: pause while running,
/// resume while paused, nothing otherwise.
pub fn toggle_pause_action(state: AppState) -> (r: Option<InputAction>)
    ensures
        r == (match state {
            AppState::Running => Some(InputAction::PauseSimulation),
            AppState::Paused => Some(InputAction::UnpauseSimulation),
            _ => None::<InputAction>,
        }),
{
    match state {
        AppState::Running => Some(InputAction::PauseSimulation),
        AppState::Paused => Some(InputAction::UnpauseSimulation),
        _ => None,
    }
}

/// The command that the pause switch of the control panel gives when it
/// shows `paused` in `state`.
pub fn pause_switch_action(state: AppState, paused: bool) -> (r: Option<InputAction>)
    ensures
        r == (if state == AppState::Paused && !paused {
            Some(InputAction::UnpauseSimulation)
        } else if state == AppState::Running && paused {
            Some(InputAction::PauseSimulation)
        } else {
            None
        }),
{
    match state {
        AppState::Paused if !paused => Some(InputAction::UnpauseSimulation),
        AppState::Running if paused => Some(InputAction::PauseSimulation),
        _ => None,
    }
}

/// The state that the frame's commands switch to, if any: a pause request
/// stops a running simulation, a resume request restarts a paused one.
pub fn toggle_simulation_paused(state: AppState, actions: &[InputAction]) -> (r: Option<AppState>)
    ensures
        r == (if state == AppState::Running && actions@.contains(InputAction::PauseSimulation) {
            Some(AppState::Paused)
        } else if state == AppState::Paused && actions@.contains(InputAction::UnpauseSimulation) {
            Some(AppState::Running)
        } else {
            None
        }),
{
    let mut next: Option<AppState> = None;
    let mut i: usize = 0;
    while i < actions.len()
        invariant
            i <= actions@.len(),
            next == (if state == AppState::Running && actions@.subrange(0, i as int).contains(
                InputAction::PauseSimulation,
            ) {
                Some(AppState::Paused)
            } else if state == AppState::Paused && actions@.subrange(0, i as int).contains(
                InputAction::UnpauseSimulation,
            ) {
                Some(AppState::Running)
            } else {
                None
            }),
        decreases actions@.len() - i,
    {
        let ghost before = actions@.subrange(0, i as int);
        let ghost after = actions@.subrange(0, i + 1);
        assert(after =~= before.push(actions@[i as int]));
        match state {
            AppState::Running => {
                if actions[i] == InputAction::PauseSimulation {
                    next = Some(AppState::Paused);
                }
            },
            AppState::Paused => {
                if actions[i] == InputAction::UnpauseSimulation {
                    next = Some(AppState::Running);
                }
            },
            _ => {},
        }
        proof {
            assert forall|a: InputAction| after.contains(a) <==> (before.contains(a) || a
                == actions@[i as int]) by {
                if after.contains(a) {
                    let j = choose|j: int| 0 <= j < after.len() && after[j] == a;
                    if j < i {
                        assert(before[j] == a);
                    }
                }
                if before.contains(a) {
                    let j = choose|j: int| 0 <= j < before.len() && before[j] == a;
                    assert(after[j] == a);
                }
                if a == actions@[i as int] {
                    assert(after[i as int] == a);
                }
            }
        }
        i = i + 1;
    }
    assert(actions@.subrange(0, i as int) =~= actions@);
    next
}

} // verus!
