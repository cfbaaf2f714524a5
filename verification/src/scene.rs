//! Scenes: the ordered records that persist a board.

use crate::error::{HibikiError, SceneFault};
use crate::probe::Probe;
use crate::sound::{SoundKind, DEFAULT_COLOR, DEFAULT_PAN, DEFAULT_VOLUME, PAN_MAX, VOLUME_MAX};
use vstd::prelude::*;

verus! {

/// One persisted clip. Volume and pan are in thousandths.
#[derive(Clone, Debug, PartialEq, Eq)]
pub struct SceneEntry {
    pub sound_path: String,
    pub controller: SoundKind,
    pub volume: u16,
    pub pan: i16,
    pub color: [u8; 3],
}

/// A record as values.
pub struct EntryView {
    pub sound_path: Seq<char>,
    pub controller: SoundKind,
    pub volume: int,
    pub pan: int,
    pub color: [u8; 3],
}

impl EntryView {
    /// The record of a new clip for the sound file at `sound_path`: fire
    /// mode and the default volume, pan and colour.
    pub open spec fn fresh(sound_path: Seq<char>) -> EntryView {
        EntryView {
            sound_path,
            controller: SoundKind::Fire,
            volume: DEFAULT_VOLUME as int,
            pan: DEFAULT_PAN as int,
            color: DEFAULT_COLOR,
        }
    }

    /// Volume and pan are within their range.
    pub open spec fn in_range(self) -> bool {
        &&& 0 <= self.volume <= VOLUME_MAX
        &&& -PAN_MAX <= self.pan <= PAN_MAX
    }
}

impl View for SceneEntry {
    type V = EntryView;

    open spec fn view(&self) -> EntryView {
        EntryView {
            sound_path: self.sound_path@,
            controller: self.controller,
            volume: self.volume as int,
            pan: self.pan as int,
            color: self.color,
        }
    }
}

/// The records of a list of entries.
pub open spec fn entry_views(entries: Seq<SceneEntry>) -> Seq<EntryView> {
    entries.map_values(|entry: SceneEntry| entry@)
}

/// A scene document: the clips of a board, in display order.
#[derive(Clone, Debug, PartialEq, Eq)]
pub struct Scene {
    pub entries: Vec<SceneEntry>,
}

impl View for Scene {
    type V = Seq<EntryView>;

    open spec fn view(&self) -> Seq<EntryView> {
        entry_views(self.entries@)
    }
}

/// A loading outcome as values.
pub open spec fn scene_outcome(result: Result<Scene, HibikiError>) -> Result<
    Seq<EntryView>,
    HibikiError,
> {
    match result {
        Ok(scene) => Ok(scene@),
        Err(error) => Err(error),
    }
}

impl Scene {
    /// What `load` makes of a path and of what was found there.
    pub open spec fn loaded(
        scene_path: String,
        found: Probe<Result<Vec<SceneEntry>, String>>,
    ) -> Result<Seq<EntryView>, HibikiError> {
        match found {
            Probe::Missing => Ok(Seq::empty()),
            Probe::NotAFile => Err(HibikiError::NotAFile(scene_path)),
            Probe::Unreadable(cause) => Err(HibikiError::Corrupt(cause, SceneFault::Unreadable)),
            Probe::Found(Err(diagnostic)) => Err(
                HibikiError::Corrupt(diagnostic, SceneFault::Broken),
            ),
            Probe::Found(Ok(entries)) => Ok(entry_views(entries@)),
        }
    }

    /// Makes a scene of what was found at `scene_path`: `Found` holds the
    /// parsed entries, or the parser's diagnostic. A missing scene is an
    /// empty one, not a failure.
    pub fn load(scene_path: &String, found: Probe<Result<Vec<SceneEntry>, String>>) -> (result:
        Result<Scene, HibikiError>)
        ensures
            scene_outcome(result) == Self::loaded(*scene_path, found),
    {
        match found {
            Probe::Missing => {
                let scene = Scene { entries: Vec::new() };
                assert(scene@ =~= Seq::empty());
                Ok(scene)
            },
            Probe::NotAFile => Err(HibikiError::NotAFile(scene_path.clone())),
            Probe::Unreadable(cause) => Err(HibikiError::Corrupt(cause, SceneFault::Unreadable)),
            Probe::Found(parsed) => match parsed {
                Ok(entries) => Ok(Scene { entries }),
                Err(diagnostic) => Err(HibikiError::Corrupt(diagnostic, SceneFault::Broken)),
            },
        }
    }
}

} // verus!
