//! Model of a clip's playback handle: what it has queued, whether it is
//! paused, and its volume. The device's own handle is driven by the caller,
//! who replays each `Action` and each change of volume on it.

use crate::sound::DEFAULT_VOLUME;
use crate::trigger::{Action, Stream};
use vstd::prelude::*;

verus! {

/// One logical output lane, owned by one clip.
#[derive(Debug)]
pub struct PlaybackHandle {
    queue: Vec<Stream>,
    paused: bool,
    volume: u16,
}

/// What a handle holds: its streams, oldest first, its pause flag, and its
/// volume in thousandths.
pub struct HandleView {
    pub queue: Seq<Stream>,
    pub paused: bool,
    pub volume: int,
}

impl HandleView {
    /// A handle that was never used: nothing queued, not paused, at
    /// volume 1.0.
    pub open spec fn idle() -> HandleView {
        HandleView { queue: Seq::empty(), paused: false, volume: DEFAULT_VOLUME as int }
    }

    /// The handle with nothing queued.
    pub open spec fn emptied(self) -> HandleView {
        HandleView { queue: Seq::empty(), ..self }
    }

    /// Whether nothing is queued or playing.
    pub open spec fn is_empty(self) -> bool {
        self.queue.len() == 0
    }
}

impl Action {
    /// The handle after the action was carried out on `before`. No action
    /// touches the volume.
    pub open spec fn effect(self, before: HandleView) -> HandleView {
        match self {
            Action::Idle | Action::Fire(_) => before,
            Action::Restart(stream) => HandleView {
                queue: seq![stream],
                paused: false,
                ..before
            },
            Action::Stop => before.emptied(),
            Action::Clear => HandleView { paused: true, ..before.emptied() },
        }
    }
}

impl View for PlaybackHandle {
    type V = HandleView;

    closed spec fn view(&self) -> HandleView {
        HandleView { queue: self.queue@, paused: self.paused, volume: self.volume as int }
    }
}

impl PlaybackHandle {
    /// An empty handle, ready to play.
    pub fn new() -> (handle: PlaybackHandle)
        ensures
            handle@ == HandleView::idle(),
    {
        PlaybackHandle { queue: Vec::new(), paused: false, volume: DEFAULT_VOLUME }
    }

    /// Drops whatever is queued or playing and pauses; the handle stays
    /// usable.
    pub fn clear(&mut self)
        ensures
            final(self)@ == (HandleView { paused: true, ..old(self)@.emptied() }),
    {
        self.queue.clear();
        self.paused = true;
    }

    /// Puts a fresh stream behind what is already queued.
    pub fn enqueue(&mut self, stream: Stream)
        ensures
            final(self)@ == (HandleView { queue: old(self)@.queue.push(stream), ..old(self)@ }),
    {
        self.queue.push(stream);
    }

    /// Resumes playback of what is queued.
    pub fn play(&mut self)
        ensures
            final(self)@ == (HandleView { paused: false, ..old(self)@ }),
    {
        self.paused = false;
    }

    /// Ends playback by emptying the queue. On an empty handle nothing
    /// changes.
    pub fn stop(&mut self)
        ensures
            final(self)@ == old(self)@.emptied(),
    {
        self.queue.clear();
    }

    /// Records that the device played the queue to its end.
    pub fn drained(&mut self)
        ensures
            final(self)@ == old(self)@.emptied(),
    {
        self.queue.clear();
    }

    /// Whether nothing is queued or playing.
    pub fn is_empty(&self) -> (empty: bool)
        ensures
            empty == self@.is_empty(),
    {
        self.queue.len() == 0
    }

    /// Sets the volume, in thousandths, of what plays now and later.
    pub fn set_volume(&mut self, volume: u16)
        ensures
            final(self)@ == (HandleView { volume: volume as int, ..old(self)@ }),
    {
        self.volume = volume;
    }

    /// The volume, in thousandths.
    pub fn volume(&self) -> (volume: u16)
        ensures
            volume == self@.volume,
    {
        self.volume
    }

    /// Whether playback is paused.
    pub fn is_paused(&self) -> (paused: bool)
        ensures
            paused == self@.paused,
    {
        self.paused
    }

    /// The stream at the head of the queue, if any.
    pub fn current(&self) -> (head: Option<Stream>)
        ensures
            head == if self@.is_empty() {
                None
            } else {
                Some(self@.queue[0])
            },
    {
        if self.queue.len() == 0 {
            None
        } else {
            Some(self.queue[0])
        }
    }

    /// How many streams are queued.
    pub fn queued(&self) -> (count: usize)
        ensures
            count == self@.queue.len(),
    {
        self.queue.len()
    }

    /// Carries out an action on the handle.
    pub fn perform(&mut self, action: Action)
        ensures
            final(self)@ == action.effect(old(self)@),
    {
        match action {
            Action::Idle | Action::Fire(_) => {},
            Action::Restart(stream) => {
                self.clear();
                self.enqueue(stream);
                self.play();
            },
            Action::Stop => self.stop(),
            Action::Clear => self.clear(),
        }
    }
}

/// Stopping and clearing are idempotent, and stopping a handle that holds
/// nothing changes nothing.
pub proof fn stop_and_clear_are_idempotent(handle: HandleView)
    ensures
        Action::Stop.effect(Action::Stop.effect(handle)) == Action::Stop.effect(handle),
        Action::Clear.effect(Action::Clear.effect(handle)) == Action::Clear.effect(handle),
        handle.is_empty() ==> Action::Stop.effect(handle) == handle,
{
    if handle.is_empty() {
        assert(Action::Stop.effect(handle).queue =~= handle.queue);
    }
}

/// Whatever a handle held, after an action other than idling or firing it
/// holds at most one stream: a restart leaves exactly the fresh one, a stop
/// or a clear none.
pub proof fn actions_never_stack_streams(handle: HandleView, action: Action)
    ensures
        action.effect(handle).queue.len() <= if action is Idle || action is Fire {
            handle.queue.len()
        } else {
            1
        },
        action matches Action::Restart(stream) ==> action.effect(handle).queue == seq![stream]
            && !action.effect(handle).paused,
        action.effect(handle).volume == handle.volume,
{
}

} // verus!
