//! The options that outlast a session: the volumes that the player chose.
use vstd::prelude::*;
use crate::audio::{MAX_MUSIC_VOLUME, MAX_SOUND_VOLUME};

verus! {

#[derive(Clone, Copy, Debug, PartialEq, Eq, Structural)]
pub struct SavedOptions {
    pub music_volume: u8,
    pub sound_volume: u8,
}

impl SavedOptions {
    /// The options of a first start: everything at full volume.
    pub fn new() -> (o: SavedOptions)
        ensures
            o.music_volume == MAX_MUSIC_VOLUME,
            o.sound_volume == MAX_SOUND_VOLUME,
    {
        SavedOptions { music_volume: MAX_MUSIC_VOLUME, sound_volume: MAX_SOUND_VOLUME }
    }

    /// The options that a start goes by: the saved ones where reading them
    /// gave any, else those of a first start.
    pub fn load(saved: Option<SavedOptions>) -> (o: SavedOptions)
        ensures
            o == match saved {
                Some(s) => s,
                None => SavedOptions {
                    music_volume: MAX_MUSIC_VOLUME,
                    sound_volume: MAX_SOUND_VOLUME,
                },
            },
    {
        match saved {
            Some(s) => s,
            None => SavedOptions::new(),
        }
    }
}

} // verus!
