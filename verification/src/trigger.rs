//! The trigger state machine: which audio action a clip's mode takes on an
//! input event.

use crate::sound::SoundKind;
use vstd::prelude::*;

verus! {

/// A discrete input on a clip's control.
#[derive(Clone, Copy, Debug, PartialEq, Eq, Structural)]
pub enum Event {
    /// Primary action, such as a click.
    Activate,
    /// Press or drag started.
    HoldBegin,
    /// Press or drag released.
    HoldEnd,
    /// Inspector-select action; never touches audio.
    SecondaryActivate,
}

/// A freshly decoded rendition of a clip's asset, positioned at its start.
#[derive(Clone, Copy, Debug, PartialEq, Eq, Structural)]
pub enum Stream {
    /// Runs to the end of the asset.
    Once,
    /// Starts over whenever it reaches the end.
    Looped,
}

/// What to do with the audio output after an event.
#[derive(Clone, Copy, Debug, PartialEq, Eq, Structural)]
pub enum Action {
    /// Nothing.
    Idle,
    /// Decode a fresh stream and play it once on the shared lane, at the
    /// given volume in thousandths. The clip's own handle is not involved.
    Fire(u16),
    /// Clear the clip's handle, enqueue the given fresh stream, play.
    Restart(Stream),
    /// Stop the clip's handle.
    Stop,
    /// Clear the clip's handle.
    Clear,
}

/// Outcome of one transition: the latch afterwards and the audio action.
#[derive(Clone, Copy, Debug, PartialEq, Eq, Structural)]
pub struct Step {
    pub latch: bool,
    pub action: Action,
}

/// The transition table. `latch` is the clip's latch before the event,
/// `empty` says whether its handle holds nothing, and `volume` is the
/// clip's volume, at which a fired stream plays.
pub open spec fn transition(
    kind: SoundKind,
    event: Event,
    latch: bool,
    empty: bool,
    volume: u16,
) -> Step {
    match (kind, event) {
        (SoundKind::Fire, Event::Activate) => Step { latch, action: Action::Fire(volume) },
        (SoundKind::CutRetrigger, Event::Activate) => Step {
            latch,
            action: Action::Restart(Stream::Once),
        },
        (SoundKind::HoldSustain, Event::HoldBegin) => Step {
            latch,
            action: Action::Restart(Stream::Once),
        },
        (SoundKind::HoldLoop, Event::HoldBegin) => Step {
            latch,
            action: Action::Restart(Stream::Looped),
        },
        (SoundKind::HoldSustain, Event::HoldEnd) | (SoundKind::HoldLoop, Event::HoldEnd) => Step {
            latch,
            action: Action::Stop,
        },
        (SoundKind::ToggleLatch, Event::Activate) => if latch && !empty {
            Step { latch: false, action: Action::Clear }
        } else {
            Step { latch: true, action: Action::Restart(Stream::Once) }
        },
        (SoundKind::ToggleLoopLatch, Event::Activate) => if latch {
            Step { latch: false, action: Action::Clear }
        } else {
            Step { latch: true, action: Action::Restart(Stream::Looped) }
        },
        _ => Step { latch, action: Action::Idle },
    }
}

impl SoundKind {
    /// Whether the mode keeps a latch.
    pub open spec fn latching(self) -> bool {
        self == SoundKind::ToggleLatch || self == SoundKind::ToggleLoopLatch
    }

    /// Applies the transition table.
    pub fn transition(self, event: Event, latch: bool, empty: bool, volume: u16) -> (step: Step)
        ensures
            step == transition(self, event, latch, empty, volume),
    {
        match self {
            SoundKind::Fire => match event {
                Event::Activate => Step { latch, action: Action::Fire(volume) },
                _ => Step { latch, action: Action::Idle },
            },
            SoundKind::CutRetrigger => match event {
                Event::Activate => Step { latch, action: Action::Restart(Stream::Once) },
                _ => Step { latch, action: Action::Idle },
            },
            SoundKind::HoldSustain => match event {
                Event::HoldBegin => Step { latch, action: Action::Restart(Stream::Once) },
                Event::HoldEnd => Step { latch, action: Action::Stop },
                _ => Step { latch, action: Action::Idle },
            },
            SoundKind::HoldLoop => match event {
                Event::HoldBegin => Step { latch, action: Action::Restart(Stream::Looped) },
                Event::HoldEnd => Step { latch, action: Action::Stop },
                _ => Step { latch, action: Action::Idle },
            },
            SoundKind::ToggleLatch => match event {
                Event::Activate => if latch && !empty {
                    Step { latch: false, action: Action::Clear }
                } else {
                    Step { latch: true, action: Action::Restart(Stream::Once) }
                },
                _ => Step { latch, action: Action::Idle },
            },
            SoundKind::ToggleLoopLatch => match event {
                Event::Activate => if latch {
                    Step { latch: false, action: Action::Clear }
                } else {
                    Step { latch: true, action: Action::Restart(Stream::Looped) }
                },
                _ => Step { latch, action: Action::Idle },
            },
        }
    }
}

/// The events that one reading of a clip's control stands for, in the
/// order in which they are delivered: an activation where the control was
/// clicked, then a hold where a drag started, or else a release where one
/// ended, then a secondary activation where the control was clicked with
/// the secondary button. A drag that starts and ends within one reading
/// counts as started.
pub open spec fn events_of(
    clicked: bool,
    drag_started: bool,
    drag_released: bool,
    secondary_clicked: bool,
) -> Seq<Event> {
    let activate = if clicked {
        seq![Event::Activate]
    } else {
        Seq::empty()
    };
    let hold = if drag_started {
        seq![Event::HoldBegin]
    } else if drag_released {
        seq![Event::HoldEnd]
    } else {
        Seq::empty()
    };
    let select = if secondary_clicked {
        seq![Event::SecondaryActivate]
    } else {
        Seq::empty()
    };
    activate + hold + select
}

/// The events that one reading of a clip's control stands for.
pub fn events(
    clicked: bool,
    drag_started: bool,
    drag_released: bool,
    secondary_clicked: bool,
) -> (events: Vec<Event>)
    ensures
        events@ == events_of(clicked, drag_started, drag_released, secondary_clicked),
{
    let mut events: Vec<Event> = Vec::new();
    if clicked {
        events.push(Event::Activate);
    }
    if drag_started {
        events.push(Event::HoldBegin);
    } else if drag_released {
        events.push(Event::HoldEnd);
    }
    if secondary_clicked {
        events.push(Event::SecondaryActivate);
    }
    assert(events@ =~= events_of(clicked, drag_started, drag_released, secondary_clicked));
    events
}

} // verus!
