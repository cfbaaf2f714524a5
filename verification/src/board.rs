//! The board: the clips in display order, and which of them the inspector
//! shows.

use crate::error::{texts, HibikiError, SourceFault, ToastyError};
use crate::handle::HandleView;
use crate::probe::Probe;
use crate::scene::{EntryView, Scene, SceneEntry};
use crate::sound::{Audio, Sound, SoundSource, SoundView, SourceView};
use crate::trigger::{Action, Event};
use vstd::prelude::*;

verus! {

/// The registry of clips.
#[derive(Debug)]
pub struct Board {
    sounds: Vec<Sound>,
    selected_controller: Option<usize>,
    scene_path: String,
}

/// A board as values.
pub struct BoardView {
    pub sounds: Seq<SoundView>,
    pub selected: Option<int>,
    pub scene_path: Seq<char>,
}

/// The clips of a list, as values.
pub open spec fn sound_views(sounds: Seq<Sound>) -> Seq<SoundView> {
    sounds.map_values(|sound: Sound| sound@)
}

/// Whether every clip of a list is valid.
pub open spec fn all_valid(sounds: Seq<SoundView>) -> bool {
    forall|i: int| 0 <= i < sounds.len() ==> (#[trigger] sounds[i]).valid()
}

/// The records that persist a list of clips, in order.
pub open spec fn snapshot(sounds: Seq<SoundView>) -> Seq<EntryView> {
    sounds.map_values(|sound: SoundView| sound.entry())
}

/// The selection after a secondary activation of the clip at `index`: a
/// second one on the selected clip clears it, one on another clip moves it.
pub open spec fn toggled(selected: Option<int>, index: int) -> Option<int> {
    if selected == Some(index) {
        None
    } else {
        Some(index)
    }
}

/// The selection after the clip at `index` left the list: cleared if it was
/// that clip, moved down by one if it was a later one.
pub open spec fn shifted(selected: Option<int>, index: int) -> Option<int> {
    match selected {
        Some(at) => if at == index {
            None
        } else if at > index {
            Some(at - 1)
        } else {
            Some(at)
        },
        None => None,
    }
}

/// One record of a scene with the outcome of loading its sound file.
pub type Attempt = (EntryView, Result<SourceView, HibikiError>);

/// The attempts that a scene's records make, each with what was found at
/// its sound file's path.
pub open spec fn attempts(found: Seq<(SceneEntry, Probe<Audio>)>) -> Seq<Attempt> {
    found.map_values(
        |pair: (SceneEntry, Probe<Audio>)|
            (pair.0@, SoundSource::loaded(pair.0.sound_path, pair.1)),
    )
}

/// The attempts that picked sound files make: each stands for a record
/// with the defaults.
pub open spec fn picked_attempts(picked: Seq<(String, Probe<Audio>)>) -> Seq<Attempt> {
    picked.map_values(
        |pair: (String, Probe<Audio>)|
            (EntryView::fresh(pair.0@), SoundSource::loaded(pair.0, pair.1)),
    )
}

/// The clip that an attempt puts on the board, if its sound file loaded.
pub open spec fn placed(attempt: Attempt) -> Option<SoundView> {
    match attempt.1 {
        Ok(source) => Some(SoundView::of_entry(attempt.0, source)),
        Err(_) => None,
    }
}

/// The message that an attempt leaves, if its sound file did not load.
pub open spec fn reported(attempt: Attempt) -> Option<Seq<char>> {
    match attempt.1 {
        Ok(_) => None,
        Err(error) => Some(error.message_text()),
    }
}

/// The clips of a scene: one for each record whose sound file loaded, in
/// the order of the records. The other records are skipped.
pub open spec fn loaded_sounds(attempts: Seq<Attempt>) -> Seq<SoundView> {
    attempts.filter_map(|attempt: Attempt| placed(attempt))
}

/// The messages of the records that were skipped, in the order of the
/// records.
pub open spec fn load_reports(attempts: Seq<Attempt>) -> Seq<Seq<char>> {
    attempts.filter_map(|attempt: Attempt| reported(attempt))
}

impl BoardView {
    /// The selection, if any, names a clip, and every clip is valid.
    pub open spec fn valid(self) -> bool {
        &&& self.selected matches Some(at) ==> 0 <= at < self.sounds.len()
        &&& all_valid(self.sounds)
    }

    /// Whether `index` names a clip.
    pub open spec fn holds(self, index: int) -> bool {
        0 <= index < self.sounds.len()
    }

    /// The board with all clips exchanged and nothing selected.
    pub open spec fn replaced(self, sounds: Seq<SoundView>) -> BoardView {
        BoardView { sounds, selected: None, ..self }
    }

    /// The board after an attempt to load its scene: with the clips that
    /// were loaded, or unchanged where loading failed.
    pub open spec fn reloaded(self, loaded: Option<Vec<Sound>>) -> BoardView {
        match loaded {
            Some(sounds) => self.replaced(sound_views(sounds@)),
            None => self,
        }
    }

    /// The board with one more clip at the end.
    pub open spec fn added(self, sound: SoundView) -> BoardView {
        BoardView { sounds: self.sounds.push(sound), ..self }
    }

    /// The board without the clip at `index`; unchanged where there is none.
    pub open spec fn removed(self, index: int) -> BoardView {
        if self.holds(index) {
            BoardView {
                sounds: self.sounds.remove(index),
                selected: shifted(self.selected, index),
                ..self
            }
        } else {
            self
        }
    }

    /// The board after an event on the clip at `index`; unchanged where
    /// there is none.
    pub open spec fn dispatched(self, index: int, event: Event) -> BoardView {
        if self.holds(index) {
            BoardView {
                sounds: self.sounds.update(index, self.sounds[index].after(event)),
                selected: if event == Event::SecondaryActivate {
                    toggled(self.selected, index)
                } else {
                    self.selected
                },
                ..self
            }
        } else {
            self
        }
    }

    /// The audio action of an event on the clip at `index`.
    pub open spec fn action(self, index: int, event: Event) -> Action {
        if self.holds(index) {
            self.sounds[index].action(event)
        } else {
            Action::Idle
        }
    }

    /// The board once the device has played the handle of the clip at
    /// `index` empty.
    pub open spec fn drained(self, index: int) -> BoardView {
        if self.holds(index) {
            BoardView { sounds: self.sounds.update(index, self.sounds[index].drained()), ..self }
        } else {
            self
        }
    }
}

impl View for Board {
    type V = BoardView;

    closed spec fn view(&self) -> BoardView {
        BoardView {
            sounds: sound_views(self.sounds@),
            selected: match self.selected_controller {
                Some(at) => Some(at as int),
                None => None,
            },
            scene_path: self.scene_path@,
        }
    }
}

impl Board {
    /// A board for the scene at `scene_path`, with the clips that were
    /// loaded from it, or none where loading failed. Nothing is selected.
    pub fn new(scene_path: String, sounds: Option<Vec<Sound>>) -> (board: Board)
        ensures
            board@ == (BoardView {
                sounds: match sounds {
                    Some(loaded) => sound_views(loaded@),
                    None => Seq::empty(),
                },
                selected: None,
                scene_path: scene_path@,
            }),
            sounds matches Some(loaded) ==> all_valid(sound_views(loaded@)) ==> board@.valid(),
            sounds.is_none() ==> board@.valid(),
    {
        let sounds = match sounds {
            Some(loaded) => loaded,
            None => {
                assert(sound_views(Seq::empty()) =~= Seq::empty());
                Vec::new()
            },
        };
        Board { sounds, selected_controller: None, scene_path }
    }

    /// The clips, in display order.
    pub fn sounds(&self) -> (sounds: &Vec<Sound>)
        ensures
            sound_views(sounds@) == self@.sounds,
    {
        &self.sounds
    }

    /// The index of the clip that the inspector shows.
    pub fn selected(&self) -> (selected: Option<usize>)
        ensures
            match selected {
                Some(at) => self@.selected == Some(at as int),
                None => self@.selected.is_none(),
            },
    {
        self.selected_controller
    }

    /// Where the scene is kept.
    pub fn scene_path(&self) -> (path: &String)
        ensures
            path@ == self@.scene_path,
    {
        &self.scene_path
    }

    /// Names another place to keep the scene. The clips stay.
    pub fn set_scene_path(&mut self, scene_path: String)
        ensures
            final(self)@ == (BoardView { scene_path: scene_path@, ..old(self)@ }),
    {
        self.scene_path = scene_path;
    }

    /// Takes up the scene at `scene_path`. The clips that were loaded from
    /// it replace the board's and the selection is cleared; where loading
    /// failed, the clips and the selection stay as they are. The board is
    /// kept at `scene_path` from now on either way.
    pub fn open(&mut self, scene_path: String, loaded: Option<Vec<Sound>>)
        ensures
            final(self)@ == (BoardView { scene_path: scene_path@, ..old(self)@.reloaded(loaded) }),
    {
        self.reload(loaded);
        self.scene_path = scene_path;
    }

    /// Takes up the board's scene again. The clips that were loaded replace
    /// the board's and the selection is cleared; where loading failed, the
    /// board stays as it is.
    pub fn reload(&mut self, loaded: Option<Vec<Sound>>)
        ensures
            final(self)@ == old(self)@.reloaded(loaded),
    {
        match loaded {
            Some(sounds) => self.replace_all(sounds),
            None => {},
        }
    }

    /// Exchanges all clips at once and clears the selection.
    pub fn replace_all(&mut self, sounds: Vec<Sound>)
        ensures
            final(self)@ == old(self)@.replaced(sound_views(sounds@)),
            all_valid(sound_views(sounds@)) ==> final(self)@.valid(),
    {
        self.sounds = sounds;
        self.selected_controller = None;
    }

    /// Delivers an event to a clip. Says what to do with the audio output,
    /// and whether the event asks to toggle the selection.
    pub fn sound_trigger(sound: &mut Sound, event: Event) -> (outcome: (Action, bool))
        ensures
            outcome.0 == old(sound)@.action(event),
            outcome.1 == (event == Event::SecondaryActivate),
            final(sound)@ == old(sound)@.after(event),
            old(sound)@.valid() ==> final(sound)@.valid(),
    {
        let action = sound.trigger(event);
        let select = match event {
            Event::SecondaryActivate => true,
            _ => false,
        };
        (action, select)
    }

    /// Delivers an event to the clip at `index` and says what to do with
    /// the audio output. Only that clip's latch and handle and the selection
    /// can change. Where `index` names no clip, nothing happens.
    pub fn dispatch(&mut self, index: usize, event: Event) -> (action: Action)
        ensures
            action == old(self)@.action(index as int, event),
            final(self)@ == old(self)@.dispatched(index as int, event),
            old(self)@.valid() ==> final(self)@.valid(),
    {
        if index >= self.sounds.len() {
            return Action::Idle;
        }
        let (action, select) = Self::sound_trigger(&mut self.sounds[index], event);
        if select {
            self.selected_controller = match self.selected_controller {
                Some(at) if at == index => None,
                _ => Some(index),
            };
        }
        assert(self@.sounds =~= old(self)@.sounds.update(
            index as int,
            old(self)@.sounds[index as int].after(event),
        ));
        action
    }

    /// Records that the device has played the handle of the clip at `index`
    /// empty. Where `index` names no clip, nothing happens.
    pub fn drained(&mut self, index: usize)
        ensures
            final(self)@ == old(self)@.drained(index as int),
            old(self)@.valid() ==> final(self)@.valid(),
    {
        if index < self.sounds.len() {
            self.sounds[index].drained();
            assert(self@.sounds =~= old(self)@.sounds.update(
                index as int,
                old(self)@.sounds[index as int].drained(),
            ));
        }
    }

    /// Appends a clip for the sound file at `path`, with the defaults, and
    /// gives its index. Where the file is no valid source, the board stays
    /// as it is.
    pub fn add(&mut self, path: String, found: Probe<Audio>) -> (result: Result<
        usize,
        HibikiError,
    >)
        ensures
            match SoundSource::loaded(path, found) {
                Ok(source) => result == Ok::<usize, HibikiError>(old(self)@.sounds.len() as usize)
                    && final(self)@ == old(self)@.added(SoundView::fresh(source)),
                Err(error) => result == Err::<usize, HibikiError>(error) && final(self)@ == old(
                    self,
                )@,
            },
            old(self)@.valid() ==> final(self)@.valid(),
    {
        match SoundSource::from_file(path, found) {
            Ok(source) => {
                let index = self.sounds.len();
                self.sounds.push(Sound::new(source));
                assert(self@.sounds =~= old(self)@.sounds.push(SoundView::fresh(source@)));
                Ok(index)
            },
            Err(error) => Err(error),
        }
    }

    /// Takes the clip at `index` out of the board. The selection is cleared
    /// if it was that clip, and follows a later clip down by one. Where
    /// `index` names no clip, nothing happens.
    pub fn remove_at(&mut self, index: usize) -> (removed: Option<Sound>)
        ensures
            final(self)@ == old(self)@.removed(index as int),
            match removed {
                Some(sound) => {
                    &&& old(self)@.holds(index as int)
                    &&& sound@ == old(self)@.sounds[index as int]
                },
                None => !old(self)@.holds(index as int),
            },
            old(self)@.valid() ==> final(self)@.valid(),
    {
        if index >= self.sounds.len() {
            return None;
        }
        let sound = self.sounds.remove(index);
        self.selected_controller = match self.selected_controller {
            Some(at) => if at == index {
                None
            } else if at > index {
                Some(at - 1)
            } else {
                Some(at)
            },
            None => None,
        };
        assert(self@.sounds =~= old(self)@.sounds.remove(index as int));
        Some(sound)
    }

    /// Builds the clips of a scene from its records and from what was found
    /// at each record's sound file. A record whose file is no valid source
    /// is skipped and its failure told in `toasts`; the others keep their
    /// order.
    pub fn load_sounds(
        found: Vec<(SceneEntry, Probe<Audio>)>,
        toasts: &mut Vec<String>,
    ) -> (sounds: Vec<Sound>)
        ensures
            sound_views(sounds@) == loaded_sounds(attempts(found@)),
            texts(final(toasts)@) == texts(old(toasts)@) + load_reports(attempts(found@)),
            all_valid(sound_views(sounds@)),
    {
        let ghost all = attempts(found@);
        let mut sounds: Vec<Sound> = Vec::new();
        assert(sound_views(sounds@) =~= loaded_sounds(all.take(0)));
        assert(texts(toasts@) =~= texts(old(toasts)@) + load_reports(all.take(0)));
        for pair in it: found.into_iter()
            invariant
                all == attempts(it.seq()),
                sound_views(sounds@) == loaded_sounds(all.take(it.index() as int)),
                all_valid(sound_views(sounds@)),
                texts(toasts@) == texts(old(toasts)@) + load_reports(all.take(it.index() as int)),
        {
            let ghost at = it.index() as int;
            let ghost before = sounds@;
            proof {
                all.lemma_filter_map_take_succ(|attempt: Attempt| placed(attempt), at);
                all.lemma_filter_map_take_succ(|attempt: Attempt| reported(attempt), at);
            }
            let (entry, probe) = pair;
            let outcome = SoundSource::from_file(entry.sound_path.clone(), probe);
            match outcome.handle_toasty(toasts) {
                Some(source) => {
                    sounds.push(Sound::from_entry(&entry, source));
                    assert(sound_views(sounds@) =~= sound_views(before).push(
                        SoundView::of_entry(entry@, source@),
                    ));
                },
                None => {},
            }
            assert(sound_views(sounds@) =~= loaded_sounds(all.take(at + 1)));
            assert(texts(toasts@) =~= texts(old(toasts)@) + load_reports(all.take(at + 1)));
        }
        assert(all.take(all.len() as int) =~= all);
        sounds
    }

    /// Appends a clip with the defaults for each picked sound file that is
    /// a valid source, in the order picked. The others are skipped and
    /// their failures told in `toasts`. The selection stays.
    pub fn add_sounds(&mut self, picked: Vec<(String, Probe<Audio>)>, toasts: &mut Vec<String>)
        ensures
            final(self)@ == (BoardView {
                sounds: old(self)@.sounds + loaded_sounds(picked_attempts(picked@)),
                ..old(self)@
            }),
            texts(final(toasts)@) == texts(old(toasts)@) + load_reports(picked_attempts(picked@)),
            old(self)@.valid() ==> final(self)@.valid(),
    {
        let ghost all = picked_attempts(picked@);
        assert(self@.sounds =~= old(self)@.sounds + loaded_sounds(all.take(0)));
        assert(texts(toasts@) =~= texts(old(toasts)@) + load_reports(all.take(0)));
        for pair in it: picked.into_iter()
            invariant
                all == picked_attempts(it.seq()),
                self@.sounds == old(self)@.sounds + loaded_sounds(all.take(it.index() as int)),
                self@.selected == old(self)@.selected,
                self@.scene_path == old(self)@.scene_path,
                old(self)@.valid() ==> self@.valid(),
                texts(toasts@) == texts(old(toasts)@) + load_reports(all.take(it.index() as int)),
        {
            let ghost at = it.index() as int;
            let ghost before = self@.sounds;
            proof {
                all.lemma_filter_map_take_succ(|attempt: Attempt| placed(attempt), at);
                all.lemma_filter_map_take_succ(|attempt: Attempt| reported(attempt), at);
            }
            let (path, probe) = pair;
            let outcome = SoundSource::from_file(path, probe);
            match outcome.handle_toasty(toasts) {
                Some(source) => {
                    self.sounds.push(Sound::new(source));
                    assert(self@.sounds =~= before.push(SoundView::fresh(source@)));
                },
                None => {},
            }
            assert(self@.sounds =~= old(self)@.sounds + loaded_sounds(all.take(at + 1)));
            assert(texts(toasts@) =~= texts(old(toasts)@) + load_reports(all.take(at + 1)));
        }
        assert(all.take(all.len() as int) =~= all);
    }

    /// The clip that the inspector shows, for editing. An edit changes that
    /// clip and nothing else.
    pub fn selected_controller_mut(&mut self) -> (selected: Option<&mut Sound>)
        ensures
            match selected {
                Some(sound) => {
                    &&& old(self)@.selected matches Some(at)
                    &&& old(self)@.holds(at)
                    &&& sound@ == old(self)@.sounds[at]
                    &&& final(self)@.sounds =~= old(self)@.sounds.update(at, final(sound)@)
                    &&& final(self)@.selected == old(self)@.selected
                    &&& final(self)@.scene_path == old(self)@.scene_path
                },
                None => {
                    &&& final(self)@ == old(self)@
                    &&& old(self)@.selected matches Some(at) ==> !old(self)@.holds(at)
                },
            },
    {
        match self.selected_controller {
            Some(index) => if index < self.sounds.len() {
                Some(&mut self.sounds[index])
            } else {
                None
            },
            None => None,
        }
    }

    /// The scene that persists the board: one record per clip, in order,
    /// without handle and latch.
    pub fn pack_scene(&self) -> (scene: Scene)
        ensures
            scene@ == snapshot(self@.sounds),
    {
        let mut entries: Vec<SceneEntry> = Vec::new();
        let mut i: usize = 0;
        while i < self.sounds.len()
            invariant
                i <= self.sounds.len(),
                entries.len() == i,
                forall|j: int| 0 <= j < i ==> (#[trigger] entries[j])@ == self.sounds[j]@.entry(),
            decreases self.sounds.len() - i,
        {
            entries.push(self.sounds[i].entry());
            i += 1;
        }
        let scene = Scene { entries };
        assert(scene@ =~= snapshot(self@.sounds));
        scene
    }
}

/// Removing a clip keeps the selection on the clip it was on: removing
/// the selected clip clears the selection, removing an earlier one moves
/// the selection down by one, removing a later one leaves it alone.
pub proof fn removal_tracks_selection(board: BoardView, index: int, at: int)
    requires
        board.holds(index),
        board.selected == Some(at),
    ensures
        at == index ==> board.removed(index).selected.is_none(),
        index < at ==> board.removed(index).selected == Some(at - 1),
        index > at ==> board.removed(index).selected == Some(at),
        at != index && board.holds(at) ==> board.removed(index).sounds[board.removed(
            index,
        ).selected.unwrap()] == board.sounds[at],
{
}

/// Removing a clip keeps the others, in their order, and keeps a valid
/// board valid.
pub proof fn removal_keeps_the_rest(board: BoardView, index: int)
    requires
        board.holds(index),
    ensures
        board.removed(index).sounds.len() == board.sounds.len() - 1,
        forall|i: int| 0 <= i < index ==> board.removed(index).sounds[i] == board.sounds[i],
        forall|i: int|
            index <= i < board.sounds.len() - 1 ==> board.removed(index).sounds[i]
                == board.sounds[i + 1],
        board.valid() ==> board.removed(index).valid(),
{
}

/// An event changes nothing but the latch and the handle of the clip it
/// is addressed to, and the selection; the selection moves only on a
/// secondary activation.
pub proof fn dispatch_touches_one_clip(board: BoardView, index: int, event: Event)
    ensures
        board.dispatched(index, event).sounds.len() == board.sounds.len(),
        forall|i: int|
            0 <= i < board.sounds.len() && i != index ==> board.dispatched(index, event).sounds[i]
                == board.sounds[i],
        snapshot(board.dispatched(index, event).sounds) == snapshot(board.sounds),
        event != Event::SecondaryActivate ==> board.dispatched(index, event).selected
            == board.selected,
        board.dispatched(index, event).scene_path == board.scene_path,
{
    assert(snapshot(board.dispatched(index, event).sounds) =~= snapshot(board.sounds));
}

/// A secondary activation selects the clip it is addressed to, unless that
/// clip is selected already: then nothing is selected. It leaves every clip
/// as it is.
pub proof fn secondary_activation_toggles_selection(board: BoardView, index: int)
    requires
        board.holds(index),
    ensures
        board.selected == Some(index) ==> board.dispatched(
            index,
            Event::SecondaryActivate,
        ).selected.is_none(),
        board.selected != Some(index) ==> board.dispatched(
            index,
            Event::SecondaryActivate,
        ).selected == Some(index),
        board.dispatched(index, Event::SecondaryActivate).sounds == board.sounds,
        board.action(index, Event::SecondaryActivate) == Action::Idle,
{
    assert(board.dispatched(index, Event::SecondaryActivate).sounds =~= board.sounds);
}

/// Every operation keeps a valid board valid: the selection never names a
/// position outside the clips, and no clip's handle holds two streams.
pub proof fn operations_keep_boards_valid(
    board: BoardView,
    index: int,
    event: Event,
    sound: SoundView,
    sounds: Seq<SoundView>,
)
    requires
        board.valid(),
    ensures
        board.dispatched(index, event).valid(),
        board.drained(index).valid(),
        board.removed(index).valid(),
        sound.valid() ==> board.added(sound).valid(),
        all_valid(sounds) ==> board.replaced(sounds).valid(),
{
}

/// Filtering and mapping a concatenation is the same as doing so to both
/// parts.
proof fn lemma_filter_map_add<A, B>(a: Seq<A>, b: Seq<A>, f: spec_fn(A) -> Option<B>)
    ensures
        (a + b).filter_map(f) == a.filter_map(f) + b.filter_map(f),
    decreases b.len(),
{
    if b.len() == 0 {
        assert(a + b =~= a);
        assert(a.filter_map(f) + b.filter_map(f) =~= a.filter_map(f));
    } else {
        lemma_filter_map_add(a, b.drop_last(), f);
        assert((a + b).drop_last() =~= a + b.drop_last());
        assert((a + b).last() == b.last());
        match f(b.last()) {
            Some(x) => {
                assert((a + b).filter_map(f) =~= a.filter_map(f) + b.filter_map(f));
            },
            None => {},
        }
    }
}

/// Where every sound file loaded, every record has its clip, at its own
/// position, and nothing is reported.
pub proof fn all_good_records_are_placed(attempts: Seq<Attempt>)
    requires
        forall|i: int| 0 <= i < attempts.len() ==> (#[trigger] attempts[i]).1 is Ok,
    ensures
        loaded_sounds(attempts).len() == attempts.len(),
        forall|i: int|
            0 <= i < attempts.len() ==> Some(#[trigger] loaded_sounds(attempts)[i]) == placed(
                attempts[i],
            ),
        load_reports(attempts) == Seq::<Seq<char>>::empty(),
    decreases attempts.len(),
{
    if attempts.len() > 0 {
        all_good_records_are_placed(attempts.drop_last());
        assert(attempts.last().1 is Ok);
    }
}

/// Where exactly one record's sound file did not load, that record is
/// skipped, every other record has its clip, in the order of the records,
/// and the one failure is reported.
pub proof fn one_bad_record_is_skipped(attempts: Seq<Attempt>, bad: int)
    requires
        0 <= bad < attempts.len(),
        attempts[bad].1 is Err,
        forall|i: int| 0 <= i < attempts.len() && i != bad ==> (#[trigger] attempts[i]).1 is Ok,
    ensures
        loaded_sounds(attempts) == loaded_sounds(attempts.remove(bad)),
        loaded_sounds(attempts).len() == attempts.len() - 1,
        forall|i: int|
            0 <= i < bad ==> Some(#[trigger] loaded_sounds(attempts)[i]) == placed(attempts[i]),
        forall|i: int|
            bad <= i < attempts.len() - 1 ==> Some(#[trigger] loaded_sounds(attempts)[i])
                == placed(attempts[i + 1]),
        load_reports(attempts) == seq![attempts[bad].1->Err_0.message_text()],
{
    let head = attempts.take(bad);
    let one = seq![attempts[bad]];
    let tail = attempts.skip(bad + 1);
    let rest = attempts.remove(bad);
    let place = |attempt: Attempt| placed(attempt);
    let report = |attempt: Attempt| reported(attempt);
    assert(attempts =~= head + one + tail);
    assert(rest =~= head + tail);
    assert(loaded_sounds(attempts) == loaded_sounds(rest)) by {
        lemma_filter_map_add(head + one, tail, place);
        lemma_filter_map_add(head, one, place);
        lemma_filter_map_add(head, tail, place);
        Seq::lemma_filter_map_singleton(attempts[bad], place);
        assert(one.filter_map(place) =~= Seq::empty());
        assert(head.filter_map(place) + one.filter_map(place) =~= head.filter_map(place));
    }
    assert(load_reports(attempts) == seq![attempts[bad].1->Err_0.message_text()]) by {
        lemma_filter_map_add(head + one, tail, report);
        lemma_filter_map_add(head, one, report);
        Seq::lemma_filter_map_singleton(attempts[bad], report);
        all_good_records_are_placed(head);
        all_good_records_are_placed(tail);
        assert(head.filter_map(report) =~= Seq::empty());
        assert(tail.filter_map(report) =~= Seq::empty());
        assert(one.filter_map(report) =~= seq![attempts[bad].1->Err_0.message_text()]);
        assert(head.filter_map(report) + one.filter_map(report) + tail.filter_map(report)
            =~= seq![attempts[bad].1->Err_0.message_text()]);
    }
    all_good_records_are_placed(rest);
    assert forall|i: int| 0 <= i < bad implies Some(#[trigger] loaded_sounds(attempts)[i])
        == placed(attempts[i]) by {
        assert(rest[i] == attempts[i]);
    }
    assert forall|i: int| bad <= i < attempts.len() - 1 implies Some(
        #[trigger] loaded_sounds(attempts)[i],
    ) == placed(attempts[i + 1]) by {
        assert(rest[i] == attempts[i + 1]);
    }
}

/// Packing what was loaded gives the records back: where every record
/// names the file its asset came from and keeps volume and pan within
/// range, the scene of the loaded clips is the scene that was loaded,
/// record for record.
pub proof fn pack_after_load_gives_records_back(attempts: Seq<Attempt>)
    requires
        forall|i: int|
            0 <= i < attempts.len() ==> {
                &&& (#[trigger] attempts[i]).1 matches Ok(source)
                &&& source.path == attempts[i].0.sound_path
                &&& attempts[i].0.in_range()
            },
    ensures
        snapshot(loaded_sounds(attempts)).len() == attempts.len(),
        forall|i: int|
            0 <= i < attempts.len() ==> (#[trigger] snapshot(loaded_sounds(attempts))[i])
                == attempts[i].0,
        load_reports(attempts) == Seq::<Seq<char>>::empty(),
{
    all_good_records_are_placed(attempts);
    assert forall|i: int| 0 <= i < attempts.len() implies (#[trigger] snapshot(
        loaded_sounds(attempts),
    )[i]) == attempts[i].0 by {
        assert(Some(loaded_sounds(attempts)[i]) == placed(attempts[i]));
    }
}

/// Loading what was packed gives the clips back, but for what a scene
/// does not keep: every handle is empty and unpaused and every latch off.
pub proof fn load_after_pack_gives_clips_back(sounds: Seq<SoundView>)
    requires
        all_valid(sounds),
    ensures
        loaded_sounds(Seq::new(sounds.len(), |i: int| (sounds[i].entry(), Ok(sounds[i].source))))
            == sounds.map_values(
            |sound: SoundView|
                SoundView {
                    handle: HandleView { paused: false, ..sound.handle.emptied() },
                    latch: false,
                    ..sound
                },
        ),
{
    let attempts = Seq::new(
        sounds.len(),
        |i: int| (sounds[i].entry(), Ok::<SourceView, HibikiError>(sounds[i].source)),
    );
    all_good_records_are_placed(attempts);
    assert forall|i: int| 0 <= i < sounds.len() implies loaded_sounds(attempts)[i] == (SoundView {
        handle: HandleView { paused: false, ..sounds[i].handle.emptied() },
        latch: false,
        ..sounds[i]
    }) by {
        assert(Some(loaded_sounds(attempts)[i]) == placed(attempts[i]));
        assert(sounds[i].valid());
    }
    assert(loaded_sounds(attempts) =~= sounds.map_values(
        |sound: SoundView|
            SoundView {
                handle: HandleView { paused: false, ..sound.handle.emptied() },
                latch: false,
                ..sound
            },
    ));
}

/// A scene round-trips: where every record's sound file was found and is
/// playable, and every record keeps volume and pan within
/// range, the scene of the loaded clips is the scene that was loaded, record
/// for record, and nothing is reported.
pub proof fn scene_round_trips(found: Seq<(SceneEntry, Probe<Audio>)>)
    requires
        forall|i: int|
            0 <= i < found.len() ==> {
                &&& (#[trigger] found[i]).1 matches Probe::Found(audio)
                &&& audio.playable()
                &&& found[i].0@.in_range()
            },
    ensures
        snapshot(loaded_sounds(attempts(found))).len() == found.len(),
        forall|i: int|
            0 <= i < found.len() ==> (#[trigger] snapshot(loaded_sounds(attempts(found)))[i])
                == found[i].0@,
        load_reports(attempts(found)) == Seq::<Seq<char>>::empty(),
{
    let tried = attempts(found);
    assert forall|i: int| 0 <= i < tried.len() implies {
        &&& (#[trigger] tried[i]).1 matches Ok(source)
        &&& source.path == tried[i].0.sound_path
        &&& tried[i].0.in_range()
    } by {
        assert(found[i].1 is Found);
    }
    pack_after_load_gives_records_back(tried);
    assert forall|i: int| 0 <= i < found.len() implies (#[trigger] snapshot(
        loaded_sounds(attempts(found)),
    )[i]) == found[i].0@ by {
        assert(tried[i].0 == found[i].0@);
    }
}

/// A scene with one record whose sound file is missing loads without that
/// record: every other record, its file found and playable, has its clip,
/// in the order of the records, and the missing file is reported as an
/// invalid source.
pub proof fn missing_sound_file_is_skipped(found: Seq<(SceneEntry, Probe<Audio>)>, bad: int)
    requires
        0 <= bad < found.len(),
        found[bad].1 is Missing,
        forall|i: int|
            0 <= i < found.len() && i != bad ==> {
                &&& (#[trigger] found[i]).1 matches Probe::Found(audio)
                &&& audio.playable()
            },
    ensures
        loaded_sounds(attempts(found)) == loaded_sounds(attempts(found.remove(bad))),
        loaded_sounds(attempts(found)).len() == found.len() - 1,
        forall|i: int|
            0 <= i < bad ==> Some(#[trigger] loaded_sounds(attempts(found))[i]) == placed(
                attempts(found)[i],
            ),
        forall|i: int|
            bad <= i < found.len() - 1 ==> Some(#[trigger] loaded_sounds(attempts(found))[i])
                == placed(attempts(found)[i + 1]),
        load_reports(attempts(found)) == seq![
            HibikiError::InvalidSource(
                found[bad].0.sound_path,
                SourceFault::DoesNotExist,
            ).message_text(),
        ],
{
    let tried = attempts(found);
    assert forall|i: int| 0 <= i < tried.len() && i != bad implies (#[trigger] tried[i]).1
        is Ok by {
        assert(found[i].1 is Found);
    }
    one_bad_record_is_skipped(tried, bad);
    assert(attempts(found.remove(bad)) =~= tried.remove(bad));
}

/// A missing scene loads as an empty board, not as a failure.
pub proof fn missing_scene_is_empty(scene_path: String)
    ensures
        Scene::loaded(scene_path, Probe::Missing) == Ok::<Seq<EntryView>, HibikiError>(Seq::empty()),
        loaded_sounds(attempts(Seq::empty())) == Seq::<SoundView>::empty(),
        load_reports(attempts(Seq::empty())) == Seq::<Seq<char>>::empty(),
{
    assert(attempts(Seq::empty()) =~= Seq::<Attempt>::empty());
}

} // verus!
