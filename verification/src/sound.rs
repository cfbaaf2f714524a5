//! Clips: their mode, their asset, and the state the trigger machine keeps
//! for them.

use crate::decode::{decodable, is_vouched, is_wave_stream, try_decode, vouched, wave_stream};
use crate::error::{HibikiError, SourceFault};
use crate::handle::{HandleView, PlaybackHandle};
use crate::probe::Probe;
use crate::scene::{EntryView, SceneEntry};
use crate::trigger::{transition, Action, Event, Step, Stream};
use rodio::decoder::DecoderError;
use vstd::prelude::*;

verus! {

/// Volume and pan are kept in thousandths: this is 1.0.
pub const UNIT: u16 = 1000;

/// Largest volume, 10.0.
pub const VOLUME_MAX: u16 = 10_000;

/// Pan runs from hard left, -1.0, to hard right, 1.0.
pub const PAN_MAX: i16 = 1000;

/// Volume of a new clip, and of a record that names none: 1.0.
pub const DEFAULT_VOLUME: u16 = 1000;

/// Pan of a new clip, and of a record that names none: centred.
pub const DEFAULT_PAN: i16 = 0;

/// Colour of a new clip, and of a record that names none: a neutral gray.
pub const DEFAULT_COLOR: [u8; 3] = [80, 80, 80];

/// How a clip answers its control.
#[derive(Clone, Copy, Debug, PartialEq, Eq, Structural, PartialOrd, Ord, Hash)]
pub enum SoundKind {
    /// Plays once on the shared lane; firings may overlap.
    Fire,
    /// Restarts from the beginning on every activation.
    CutRetrigger,
    /// Plays while held.
    HoldSustain,
    /// Loops while held.
    HoldLoop,
    /// Activation toggles between playing once and silence.
    ToggleLatch,
    /// Activation toggles between looping and silence.
    ToggleLoopLatch,
}

impl SoundKind {
    /// The name shown for the mode.
    pub open spec fn label_text(self) -> Seq<char> {
        match self {
            SoundKind::Fire => "Trigger"@,
            SoundKind::CutRetrigger => "Cut Itself"@,
            SoundKind::HoldSustain => "Hold"@,
            SoundKind::HoldLoop => "Hold (Repeating)"@,
            SoundKind::ToggleLatch => "Toggle"@,
            SoundKind::ToggleLoopLatch => "Toggle (Repeating)"@,
        }
    }

    /// The name shown for the mode.
    pub fn label(&self) -> (text: String)
        ensures
            text@ == self.label_text(),
    {
        match self {
            SoundKind::Fire => String::from_str("Trigger"),
            SoundKind::CutRetrigger => String::from_str("Cut Itself"),
            SoundKind::HoldSustain => String::from_str("Hold"),
            SoundKind::HoldLoop => String::from_str("Hold (Repeating)"),
            SoundKind::ToggleLatch => String::from_str("Toggle"),
            SoundKind::ToggleLoopLatch => String::from_str("Toggle (Repeating)"),
        }
    }
}

/// The nearest volume within range.
pub open spec fn clamped_volume(volume: int) -> int {
    if volume > VOLUME_MAX {
        VOLUME_MAX as int
    } else if volume < 0 {
        0
    } else {
        volume
    }
}

/// The nearest pan within range.
pub open spec fn clamped_pan(pan: int) -> int {
    if pan > PAN_MAX {
        PAN_MAX as int
    } else if pan < -PAN_MAX {
        -PAN_MAX
    } else {
        pan
    }
}

/// Brings a volume into range.
pub fn clamp_volume(volume: u16) -> (clamped: u16)
    ensures
        clamped == clamped_volume(volume as int),
{
    if volume > VOLUME_MAX {
        VOLUME_MAX
    } else {
        volume
    }
}

/// Brings a pan into range.
pub fn clamp_pan(pan: i16) -> (clamped: i16)
    ensures
        clamped == clamped_pan(pan as int),
{
    if pan > PAN_MAX {
        PAN_MAX
    } else if pan < -PAN_MAX {
        -PAN_MAX
    } else {
        pan
    }
}

/// What was read of a sound file: its bytes, and whether the caller's
/// decoder took them. The library asks the decoder itself about RIFF
/// streams and goes by `accepted` for every other stream.
#[derive(Clone, Debug, PartialEq, Eq)]
pub struct Audio {
    pub bytes: Vec<u8>,
    pub accepted: bool,
}

impl Audio {
    /// Whether the bytes are audio that can be played. A RIFF stream is,
    /// where the library vouches for handing it to the decoder and the
    /// decoder accepts it; another stream is where the caller's decoder
    /// took it.
    pub open spec fn playable(&self) -> bool {
        if wave_stream(self.bytes@) {
            vouched(self.bytes@) && decodable(self.bytes@)
        } else {
            self.accepted
        }
    }
}

/// One sound file held in memory. Never changed after it was made.
#[derive(Debug)]
pub struct SoundSource {
    path: String,
    data: Vec<u8>,
}

/// An asset as values: where it came from and what it holds.
pub struct SourceView {
    pub path: Seq<char>,
    pub data: Seq<u8>,
}

impl View for SoundSource {
    type V = SourceView;

    closed spec fn view(&self) -> SourceView {
        SourceView { path: self.path@, data: self.data@ }
    }
}

/// A loading outcome as values.
pub open spec fn source_outcome(result: Result<SoundSource, HibikiError>) -> Result<
    SourceView,
    HibikiError,
> {
    match result {
        Ok(source) => Ok(source@),
        Err(error) => Err(error),
    }
}

impl SoundSource {
    /// What `from_file` makes of a path and of what was found there.
    pub open spec fn loaded(path: String, found: Probe<Audio>) -> Result<
        SourceView,
        HibikiError,
    > {
        match found {
            Probe::Missing => Err(HibikiError::InvalidSource(path, SourceFault::DoesNotExist)),
            Probe::NotAFile => Err(HibikiError::InvalidSource(path, SourceFault::NotAFile)),
            Probe::Unreadable(message) => Err(HibikiError::InternalError(message)),
            Probe::Found(audio) => Self::checked(path, audio.bytes, audio.playable()),
        }
    }

    /// What `from_decoded` makes of bytes that the decoder took or refused.
    pub open spec fn checked(path: String, data: Vec<u8>, accepted: bool) -> Result<
        SourceView,
        HibikiError,
    > {
        if accepted {
            Ok(SourceView { path: path@, data: data@ })
        } else {
            Err(HibikiError::UnsupportedOrCorruptAudio(path))
        }
    }

    /// Makes an asset of what was found at `path`. A path that is missing
    /// or names no regular file is an invalid source; bytes that are not
    /// playable are unsupported or corrupt audio. A RIFF stream is put to
    /// the decoder here, where the library vouches for it, and refused
    /// where it does not; any other stream goes by the caller's verdict.
    pub fn from_file(path: String, found: Probe<Audio>) -> (result: Result<
        SoundSource,
        HibikiError,
    >)
        ensures
            source_outcome(result) == Self::loaded(path, found),
    {
        match found {
            Probe::Missing => Err(HibikiError::InvalidSource(path, SourceFault::DoesNotExist)),
            Probe::NotAFile => Err(HibikiError::InvalidSource(path, SourceFault::NotAFile)),
            Probe::Unreadable(message) => Err(HibikiError::InternalError(message)),
            Probe::Found(audio) => {
                let Audio { bytes, accepted } = audio;
                if !is_wave_stream(&bytes) {
                    return Self::from_verdict(path, bytes, accepted);
                }
                if !is_vouched(&bytes) {
                    return Err(HibikiError::UnsupportedOrCorruptAudio(path));
                }
                let decoded = try_decode(&bytes);
                Self::from_decoded(path, bytes, decoded)
            },
        }
    }

    /// Makes an asset of bytes where a decoder took them.
    pub fn from_verdict(path: String, data: Vec<u8>, accepted: bool) -> (result: Result<
        SoundSource,
        HibikiError,
    >)
        ensures
            source_outcome(result) == Self::checked(path, data, accepted),
    {
        if accepted {
            Ok(SoundSource { path, data })
        } else {
            Err(HibikiError::UnsupportedOrCorruptAudio(path))
        }
    }

    /// Makes an asset of bytes and of the decoder's verdict on them.
    pub fn from_decoded(path: String, data: Vec<u8>, decoded: Result<(), DecoderError>) -> (result:
        Result<SoundSource, HibikiError>)
        ensures
            source_outcome(result) == Self::checked(path, data, decoded.is_ok()),
    {
        match decoded {
            Ok(_) => Ok(SoundSource { path, data }),
            Err(_) => Err(HibikiError::UnsupportedOrCorruptAudio(path)),
        }
    }

    /// Where the asset came from.
    pub fn path(&self) -> (path: &String)
        ensures
            path@ == self@.path,
    {
        &self.path
    }

    /// The file's bytes.
    pub fn data(&self) -> (data: &Vec<u8>)
        ensures
            data@ == self@.data,
    {
        &self.data
    }
}

/// A clip: a mode bound to an asset, with the state the trigger machine
/// keeps for it and what the inspector edits.
#[derive(Debug)]
pub struct Sound {
    kind: SoundKind,
    source: SoundSource,
    handle: PlaybackHandle,
    state: bool,
    volume: u16,
    pan: i16,
    color: [u8; 3],
}

/// A clip as values.
pub struct SoundView {
    pub kind: SoundKind,
    pub source: SourceView,
    pub handle: HandleView,
    pub latch: bool,
    pub volume: int,
    pub pan: int,
    pub color: [u8; 3],
}

impl SoundView {
    /// Volume and pan are within range, the handle plays at the clip's
    /// volume, and it holds at most one stream.
    pub open spec fn valid(self) -> bool {
        &&& 0 <= self.volume <= VOLUME_MAX
        &&& -PAN_MAX <= self.pan <= PAN_MAX
        &&& self.handle.volume == self.volume
        &&& self.handle.queue.len() <= 1
    }

    /// A new clip for an asset.
    pub open spec fn fresh(source: SourceView) -> SoundView {
        SoundView {
            kind: SoundKind::Fire,
            source,
            handle: HandleView::idle(),
            latch: false,
            volume: DEFAULT_VOLUME as int,
            pan: DEFAULT_PAN as int,
            color: DEFAULT_COLOR,
        }
    }

    /// The clip that a record describes, once its asset is loaded. Volume
    /// and pan outside their range are brought to the nearest bound.
    pub open spec fn of_entry(entry: EntryView, source: SourceView) -> SoundView {
        SoundView {
            kind: entry.controller,
            source,
            handle: HandleView { volume: clamped_volume(entry.volume), ..HandleView::idle() },
            latch: false,
            volume: clamped_volume(entry.volume),
            pan: clamped_pan(entry.pan),
            color: entry.color,
        }
    }

    /// The record that persists the clip: handle and latch are left out.
    pub open spec fn entry(self) -> EntryView {
        EntryView {
            sound_path: self.source.path,
            controller: self.kind,
            volume: self.volume,
            pan: self.pan,
            color: self.color,
        }
    }

    /// The transition that an event makes on the clip as it stands.
    pub open spec fn step(self, event: Event) -> Step {
        transition(self.kind, event, self.latch, self.handle.is_empty(), self.volume as u16)
    }

    /// The audio action that an event calls for.
    pub open spec fn action(self, event: Event) -> Action {
        self.step(event).action
    }

    /// The clip after an event: the latch as the transition leaves it, the
    /// handle after the action, nothing else touched.
    pub open spec fn after(self, event: Event) -> SoundView {
        SoundView {
            latch: self.step(event).latch,
            handle: self.action(event).effect(self.handle),
            ..self
        }
    }

    /// The clip once the device has played its handle empty.
    pub open spec fn drained(self) -> SoundView {
        SoundView { handle: self.handle.emptied(), ..self }
    }

    /// The clip at another volume, brought into range; its handle follows.
    pub open spec fn at_volume(self, volume: int) -> SoundView {
        SoundView {
            volume: clamped_volume(volume),
            handle: HandleView { volume: clamped_volume(volume), ..self.handle },
            ..self
        }
    }
}

impl View for Sound {
    type V = SoundView;

    closed spec fn view(&self) -> SoundView {
        SoundView {
            kind: self.kind,
            source: self.source@,
            handle: self.handle@,
            latch: self.state,
            volume: self.volume as int,
            pan: self.pan as int,
            color: self.color,
        }
    }
}

impl Sound {
    /// A clip with the defaults: fire mode, volume 1.0, centred, gray,
    /// nothing playing.
    pub fn new(source: SoundSource) -> (sound: Sound)
        ensures
            sound@ == SoundView::fresh(source@),
            sound@.valid(),
    {
        Sound {
            kind: SoundKind::Fire,
            source,
            handle: PlaybackHandle::new(),
            state: false,
            volume: DEFAULT_VOLUME,
            pan: DEFAULT_PAN,
            color: DEFAULT_COLOR,
        }
    }

    /// The clip that a record describes, with its asset.
    pub fn from_entry(entry: &SceneEntry, source: SoundSource) -> (sound: Sound)
        ensures
            sound@ == SoundView::of_entry(entry@, source@),
            sound@.valid(),
    {
        let volume = clamp_volume(entry.volume);
        let mut handle = PlaybackHandle::new();
        handle.set_volume(volume);
        Sound {
            kind: entry.controller,
            source,
            handle,
            state: false,
            volume,
            pan: clamp_pan(entry.pan),
            color: entry.color,
        }
    }

    /// The record that persists the clip.
    pub fn entry(&self) -> (entry: SceneEntry)
        ensures
            entry@ == self@.entry(),
    {
        SceneEntry {
            sound_path: self.source.path().clone(),
            controller: self.kind,
            volume: self.volume,
            pan: self.pan,
            color: self.color,
        }
    }

    /// The clip's mode.
    pub fn kind(&self) -> (kind: SoundKind)
        ensures
            kind == self@.kind,
    {
        self.kind
    }

    /// The clip's asset.
    pub fn source(&self) -> (source: &SoundSource)
        ensures
            source@ == self@.source,
    {
        &self.source
    }

    /// The clip's handle.
    pub fn handle(&self) -> (handle: &PlaybackHandle)
        ensures
            handle@ == self@.handle,
    {
        &self.handle
    }

    /// The latch of the toggle modes.
    pub fn state(&self) -> (latch: bool)
        ensures
            latch == self@.latch,
    {
        self.state
    }

    /// The volume, in thousandths.
    pub fn volume(&self) -> (volume: u16)
        ensures
            volume == self@.volume,
    {
        self.volume
    }

    /// The pan, in thousandths.
    pub fn pan(&self) -> (pan: i16)
        ensures
            pan == self@.pan,
    {
        self.pan
    }

    /// The display colour, as red, green and blue.
    pub fn color(&self) -> (color: [u8; 3])
        ensures
            color == self@.color,
    {
        self.color
    }

    /// Whether the clip is audibly active: its handle holds something.
    pub fn is_active(&self) -> (active: bool)
        ensures
            active == !self@.handle.is_empty(),
    {
        !self.handle.is_empty()
    }

    /// Gives the clip another mode. Latch and handle stay as they are.
    pub fn set_kind(&mut self, kind: SoundKind)
        ensures
            final(self)@ == (SoundView { kind, ..old(self)@ }),
            old(self)@.valid() ==> final(self)@.valid(),
    {
        self.kind = kind;
    }

    /// Sets the volume, brought into range, of the clip and of its handle.
    pub fn set_volume(&mut self, volume: u16)
        ensures
            final(self)@ == old(self)@.at_volume(volume as int),
            old(self)@.valid() ==> final(self)@.valid(),
    {
        self.volume = clamp_volume(volume);
        self.handle.set_volume(self.volume);
    }

    /// Sets the pan, brought into range.
    pub fn set_pan(&mut self, pan: i16)
        ensures
            final(self)@ == (SoundView { pan: clamped_pan(pan as int), ..old(self)@ }),
            old(self)@.valid() ==> final(self)@.valid(),
    {
        self.pan = clamp_pan(pan);
    }

    /// Sets the display colour.
    pub fn set_color(&mut self, color: [u8; 3])
        ensures
            final(self)@ == (SoundView { color, ..old(self)@ }),
            old(self)@.valid() ==> final(self)@.valid(),
    {
        self.color = color;
    }

    /// Delivers an event to the clip and says what to do with the audio
    /// output.
    pub fn trigger(&mut self, event: Event) -> (action: Action)
        ensures
            action == old(self)@.action(event),
            final(self)@ == old(self)@.after(event),
            old(self)@.valid() ==> final(self)@.valid(),
    {
        let step = self.kind.transition(event, self.state, self.handle.is_empty(), self.volume);
        self.state = step.latch;
        self.handle.perform(step.action);
        step.action
    }

    /// Records that the device has played the clip's handle empty.
    pub fn drained(&mut self)
        ensures
            final(self)@ == old(self)@.drained(),
            old(self)@.valid() ==> final(self)@.valid(),
    {
        self.handle.drained();
    }
}

/// An activation in cut-retrigger mode restarts the clip: whatever the
/// handle held, it then holds exactly one fresh stream, unpaused, so no two
/// renditions of the clip ever overlap.
pub proof fn cut_retrigger_restarts(sound: SoundView)
    requires
        sound.kind == SoundKind::CutRetrigger,
    ensures
        sound.action(Event::Activate) == Action::Restart(Stream::Once),
        sound.after(Event::Activate).handle == (HandleView {
            queue: seq![Stream::Once],
            paused: false,
            volume: sound.handle.volume,
        }),
        sound.after(Event::Activate).latch == sound.latch,
{
}

/// In the two toggle modes, two activations in a row on a clip whose latch
/// is off leave the latch off again and the handle empty.
pub proof fn toggle_twice_returns(sound: SoundView)
    requires
        sound.kind.latching(),
        !sound.latch,
    ensures
        sound.after(Event::Activate).after(Event::Activate).latch == sound.latch,
        sound.after(Event::Activate).after(Event::Activate).handle.is_empty(),
{
    let once = sound.after(Event::Activate);
    assert(once.latch);
    assert(once.handle.queue.len() == 1);
}

/// Two activations in a row give the latch back as it was, on or off, in
/// the looping toggle mode always, and in the plain toggle mode unless the
/// latch is on over an empty handle.
pub proof fn toggle_twice_restores_latch(sound: SoundView)
    requires
        sound.kind.latching(),
        sound.kind == SoundKind::ToggleLatch && sound.latch ==> !sound.handle.is_empty(),
    ensures
        sound.after(Event::Activate).after(Event::Activate).latch == sound.latch,
{
    let once = sound.after(Event::Activate);
    assert(once.latch ==> once.handle.queue.len() == 1);
}

/// In the two hold modes, a release on a clip whose handle is empty, as it
/// is without a hold before, changes nothing.
pub proof fn release_without_hold_changes_nothing(sound: SoundView)
    requires
        sound.kind == SoundKind::HoldSustain || sound.kind == SoundKind::HoldLoop,
        sound.handle.is_empty(),
    ensures
        sound.after(Event::HoldEnd) == sound,
{
    assert(sound.after(Event::HoldEnd).handle.queue =~= sound.handle.queue);
}

/// A hold followed by a release leaves the handle empty and the latch as
/// it was.
pub proof fn hold_then_release_ends_empty(sound: SoundView)
    requires
        sound.kind == SoundKind::HoldSustain || sound.kind == SoundKind::HoldLoop,
    ensures
        sound.after(Event::HoldBegin).after(Event::HoldEnd).handle.is_empty(),
        sound.after(Event::HoldBegin).after(Event::HoldEnd).latch == sound.latch,
{
}

/// Hold and release mean nothing to the modes that are not hold modes:
/// the clip stays as it is and no audio action is taken.
pub proof fn hold_events_ignored_elsewhere(sound: SoundView, event: Event)
    requires
        sound.kind != SoundKind::HoldSustain,
        sound.kind != SoundKind::HoldLoop,
        event == Event::HoldBegin || event == Event::HoldEnd,
    ensures
        sound.action(event) == Action::Idle,
        sound.after(event) == sound,
{
}

/// A secondary activation never touches audio, in any mode.
pub proof fn secondary_activation_is_silent(sound: SoundView)
    ensures
        sound.action(Event::SecondaryActivate) == Action::Idle,
        sound.after(Event::SecondaryActivate) == sound,
{
}

/// Only the two toggle modes ever change the latch.
pub proof fn latch_moves_only_in_toggle_modes(sound: SoundView, event: Event)
    requires
        !sound.kind.latching(),
    ensures
        sound.after(event).latch == sound.latch,
{
}

/// Firing plays at the clip's volume and leaves the clip's own handle
/// alone, so firings can overlap.
pub proof fn fire_leaves_handle_alone(sound: SoundView, event: Event)
    requires
        sound.kind == SoundKind::Fire,
        sound.valid(),
    ensures
        sound.after(event) == sound,
        sound.action(event) == if event == Event::Activate {
            Action::Fire(sound.volume as u16)
        } else {
            Action::Idle
        },
        sound.action(event) matches Action::Fire(volume) ==> volume == sound.volume,
{
}

/// No event makes a valid clip invalid: afterwards its handle still holds
/// at most one stream, and mode, asset, volume, pan and colour are as
/// before.
pub proof fn events_keep_clips_valid(sound: SoundView, event: Event)
    requires
        sound.valid(),
    ensures
        sound.after(event).valid(),
        sound.after(event).entry() == sound.entry(),
        sound.after(event).source == sound.source,
{
}

} // verus!
