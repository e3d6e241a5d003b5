//! Music and sound effects: what is playing at which volume, and the
//! commands for the sound device that follow from it.
use vstd::prelude::*;
use crate::strings::str_eq;

verus! {

#[derive(Clone, Copy, Debug, PartialEq, Eq, Structural)]
pub enum Music {
    Battle,
    Boss,
    Dungeon,
    Ending,
    Intro,
    Overworld,
    Town,
}

#[derive(Clone, Copy, Debug, PartialEq, Eq, Structural)]
pub enum Sfx {
    Attack,
    Cancel,
    Chime,
    Confirm,
    Cursor,
    Heal,
    Hurt,
    Magic,
}

/// Largest volume that the player can set for music.
pub const MAX_MUSIC_VOLUME: u8 = 100;

/// Largest volume that the player can set for sound effects.
pub const MAX_SOUND_VOLUME: u8 = 100;

/// The volume at which a sound is played in full.
pub const FULL_VOLUME: u32 = 10_000_000;

/// What the sound device is to do.
#[derive(Clone, Copy, Debug, PartialEq, Eq, Structural)]
pub enum AudioCommand {
    /// Stop the music and let go of it.
    StopMusic,
    /// Load a piece of music and play it in a loop.
    PlayMusic { music: Music, volume: u32 },
    /// Change the volume of the music that is playing.
    SetMusicVolume { volume: u32 },
    /// Stop a sound effect.
    StopSfx { sfx: Sfx },
    /// Play a sound effect once.
    PlaySfx { sfx: Sfx, volume: u32 },
}

pub struct Audio {
    music: Option<Music>,
    music_volume_custom: u8,
    sound_volume_custom: u8,
    music_volume_scripted: u8,
    music_volume_scripted_target: u8,
    commands: Vec<AudioCommand>,
}

impl Music {
    /// Volume of the piece by itself, in thousandths.
    pub open spec fn spec_base_volume(self) -> u32 {
        match self {
            Music::Boss => 544u32,
            _ => 1000u32,
        }
    }

    #[verifier::when_used_as_spec(spec_base_volume)]
    pub fn base_volume(self) -> (v: u32)
        ensures
            v == self.spec_base_volume(),
    {
        match self {
            Music::Boss => 544,
            _ => 1000,
        }
    }

    /// Name of the file that holds the piece.
    pub open spec fn spec_sound_file(self) -> Seq<char> {
        match self {
            Music::Battle => "battle.ogg"@,
            Music::Boss => "boss.ogg"@,
            Music::Dungeon => "dungeon.ogg"@,
            Music::Ending => "ending.ogg"@,
            Music::Intro => "intro.ogg"@,
            Music::Overworld => "overworld.ogg"@,
            Music::Town => "town.ogg"@,
        }
    }

    pub fn sound_file(self) -> (s: &'static str)
        ensures
            s@ == self.spec_sound_file(),
    {
        match self {
            Music::Battle => "battle.ogg",
            Music::Boss => "boss.ogg",
            Music::Dungeon => "dungeon.ogg",
            Music::Ending => "ending.ogg",
            Music::Intro => "intro.ogg",
            Music::Overworld => "overworld.ogg",
            Music::Town => "town.ogg",
        }
    }

    /// The piece with the given name in level data.
    pub open spec fn named(s: Seq<char>) -> Option<Music> {
        if s == "Battle"@ {
            Some(Music::Battle)
        } else if s == "Boss"@ {
            Some(Music::Boss)
        } else if s == "Dungeon"@ {
            Some(Music::Dungeon)
        } else if s == "Ending"@ {
            Some(Music::Ending)
        } else if s == "Intro"@ {
            Some(Music::Intro)
        } else if s == "Overworld"@ {
            Some(Music::Overworld)
        } else if s == "Town"@ {
            Some(Music::Town)
        } else {
            None
        }
    }

    /// The piece that level data names, `None` for a name that is none.
    pub fn from(s: &str) -> (m: Option<Music>)
        ensures
            m == Music::named(s@),
    {
        if str_eq(s, "Battle") {
            Some(Music::Battle)
        } else if str_eq(s, "Boss") {
            Some(Music::Boss)
        } else if str_eq(s, "Dungeon") {
            Some(Music::Dungeon)
        } else if str_eq(s, "Ending") {
            Some(Music::Ending)
        } else if str_eq(s, "Intro") {
            Some(Music::Intro)
        } else if str_eq(s, "Overworld") {
            Some(Music::Overworld)
        } else if str_eq(s, "Town") {
            Some(Music::Town)
        } else {
            None
        }
    }
}

impl Sfx {
    /// Volume of the effect by itself, in thousandths.
    pub open spec fn spec_base_volume(self) -> u32 {
        match self {
            Sfx::Cursor => 800u32,
            Sfx::Chime => 600u32,
            Sfx::Heal => 500u32,
            Sfx::Hurt => 500u32,
            Sfx::Magic => 600u32,
            _ => 1000u32,
        }
    }

    #[verifier::when_used_as_spec(spec_base_volume)]
    pub fn base_volume(self) -> (v: u32)
        ensures
            v == self.spec_base_volume(),
    {
        match self {
            Sfx::Cursor => 800,
            Sfx::Chime => 600,
            Sfx::Heal => 500,
            Sfx::Hurt => 500,
            Sfx::Magic => 600,
            _ => 1000,
        }
    }

    /// Sounds of moving through menus. They cut each other off.
    pub open spec fn is_cursor_sound(self) -> bool {
        self == Sfx::Cancel || self == Sfx::Chime || self == Sfx::Confirm || self == Sfx::Cursor
    }
}

/// The sound as contracts see it.
pub struct AudioView {
    /// The music that is playing.
    pub music: Option<Music>,
    /// Volume of the music as the player set it, at most [`MAX_MUSIC_VOLUME`].
    pub music_volume_custom: u8,
    /// Volume of sound effects as the player set it, at most [`MAX_SOUND_VOLUME`].
    pub sound_volume_custom: u8,
    /// Volume of the music as the story has it now.
    pub music_volume_scripted: u8,
    /// Volume of the music that the story is moving to.
    pub music_volume_scripted_target: u8,
    /// Commands that the sound device has not been given yet, oldest first.
    pub commands: Seq<AudioCommand>,
}

impl View for Audio {
    type V = AudioView;

    closed spec fn view(&self) -> AudioView {
        AudioView {
            music: self.music,
            music_volume_custom: self.music_volume_custom,
            sound_volume_custom: self.sound_volume_custom,
            music_volume_scripted: self.music_volume_scripted,
            music_volume_scripted_target: self.music_volume_scripted_target,
            commands: self.commands@,
        }
    }
}

impl AudioView {
    /// No volume is above its largest value.
    pub open spec fn wf(self) -> bool {
        &&& self.music_volume_custom <= MAX_MUSIC_VOLUME
        &&& self.sound_volume_custom <= MAX_SOUND_VOLUME
        &&& self.music_volume_scripted <= MAX_MUSIC_VOLUME
        &&& self.music_volume_scripted_target <= MAX_MUSIC_VOLUME
    }

    /// Volume at which `music` plays: its own volume times the player's
    /// and the story's, where [`FULL_VOLUME`] is full volume.
    pub open spec fn music_volume(self, music: Music) -> u32 {
        (music.base_volume() * self.music_volume_custom * self.music_volume_scripted) as u32
    }

    /// Volume at which `sfx` plays: its own volume times the player's.
    pub open spec fn sfx_volume(self, sfx: Sfx) -> u32 {
        (sfx.base_volume() * self.sound_volume_custom * MAX_SOUND_VOLUME) as u32
    }

    /// The commands that follow a change of volume: the new volume for the
    /// music that is playing, nothing in silence.
    pub open spec fn volume_commands(self) -> Seq<AudioCommand> {
        match self.music {
            Some(music) => seq![AudioCommand::SetMusicVolume { volume: self.music_volume(music) }],
            None => Seq::empty(),
        }
    }

    /// The commands by which `music` takes the place of what is playing:
    /// other music is stopped first, and music that is playing already
    /// just goes on.
    pub open spec fn music_commands(self, music: Option<Music>) -> Seq<AudioCommand> {
        let stop = if self.music is Some && self.music != music {
            seq![AudioCommand::StopMusic]
        } else {
            Seq::empty()
        };
        let play = match music {
            Some(m) => if self.music == music {
                Seq::empty()
            } else {
                seq![AudioCommand::PlayMusic { music: m, volume: self.music_volume(m) }]
            },
            None => Seq::empty(),
        };
        stop + play
    }

    /// The commands that play `sfx`: a sound of the menus first stops the
    /// three of them that linger, any other sound first stops itself.
    pub open spec fn sfx_commands(self, sfx: Sfx) -> Seq<AudioCommand> {
        let play = AudioCommand::PlaySfx { sfx, volume: self.sfx_volume(sfx) };
        if sfx.is_cursor_sound() {
            seq![
                AudioCommand::StopSfx { sfx: Sfx::Cancel },
                AudioCommand::StopSfx { sfx: Sfx::Confirm },
                AudioCommand::StopSfx { sfx: Sfx::Cursor },
                play,
            ]
        } else {
            seq![AudioCommand::StopSfx { sfx }, play]
        }
    }

    /// The sound after `sfx` was played.
    pub open spec fn with_sfx(self, sfx: Sfx) -> AudioView {
        AudioView { commands: self.commands + self.sfx_commands(sfx), ..self }
    }

    /// The sound after `music` took the place of what was playing.
    pub open spec fn with_music(self, music: Option<Music>) -> AudioView {
        AudioView { music, commands: self.commands + self.music_commands(music), ..self }
    }

    /// The sound after the player set the volume of the music.
    pub open spec fn with_music_volume(self, volume: u8) -> AudioView {
        let set = AudioView {
            music_volume_custom: if volume > MAX_MUSIC_VOLUME {
                MAX_MUSIC_VOLUME
            } else {
                volume
            },
            ..self
        };
        AudioView { commands: set.commands + set.volume_commands(), ..set }
    }

    /// The sound after the player set the volume of sound effects.
    pub open spec fn with_sound_volume(self, volume: u8) -> AudioView {
        AudioView {
            sound_volume_custom: if volume > MAX_SOUND_VOLUME {
                MAX_SOUND_VOLUME
            } else {
                volume
            },
            ..self
        }
    }

    /// The sound after the story set the volume that the music moves to.
    pub open spec fn with_scripted_target(self, volume: u8) -> AudioView {
        AudioView { music_volume_scripted_target: volume, ..self }
    }

    /// The sound one tick later: the story's volume is one step closer to
    /// its target, and the music that is playing follows.
    pub open spec fn adjusted(self) -> AudioView {
        if self.music_volume_scripted == self.music_volume_scripted_target {
            self
        } else {
            let moved = AudioView {
                music_volume_scripted: if self.music_volume_scripted
                    < self.music_volume_scripted_target {
                    (self.music_volume_scripted + 1) as u8
                } else {
                    (self.music_volume_scripted - 1) as u8
                },
                ..self
            };
            AudioView { commands: moved.commands + moved.volume_commands(), ..moved }
        }
    }
}

impl Audio {
    /// The music that is playing.
    pub open spec fn music(&self) -> Option<Music> {
        self@.music
    }

    pub open spec fn music_volume_custom(&self) -> u8 {
        self@.music_volume_custom
    }

    pub open spec fn sound_volume_custom(&self) -> u8 {
        self@.sound_volume_custom
    }

    pub open spec fn music_volume_scripted(&self) -> u8 {
        self@.music_volume_scripted
    }

    pub open spec fn music_volume_scripted_target(&self) -> u8 {
        self@.music_volume_scripted_target
    }

    /// Commands that the sound device has not been given yet, oldest first.
    pub open spec fn commands(&self) -> Seq<AudioCommand> {
        self@.commands
    }

    pub open spec fn wf(&self) -> bool {
        self@.wf()
    }

    /// Everything but the commands is the same.
    pub open spec fn same_state(&self, other: &Audio) -> bool {
        self@ == (AudioView { commands: self@.commands, ..other@ })
    }

    pub open spec fn spec_music_volume(&self, music: Music) -> u32 {
        self@.music_volume(music)
    }

    pub open spec fn spec_sfx_volume(&self, sfx: Sfx) -> u32 {
        self@.sfx_volume(sfx)
    }

    pub open spec fn volume_commands(&self) -> Seq<AudioCommand> {
        self@.volume_commands()
    }

    pub open spec fn music_commands(&self, music: Option<Music>) -> Seq<AudioCommand> {
        self@.music_commands(music)
    }

    pub open spec fn sfx_commands(&self, sfx: Sfx) -> Seq<AudioCommand> {
        self@.sfx_commands(sfx)
    }

    /// Silence, with the volumes that the player chose.
    pub open spec fn spec_new(music_volume: u8, sound_volume: u8) -> AudioView {
        AudioView {
            music: None,
            music_volume_custom: if music_volume > MAX_MUSIC_VOLUME {
                MAX_MUSIC_VOLUME
            } else {
                music_volume
            },
            sound_volume_custom: if sound_volume > MAX_SOUND_VOLUME {
                MAX_SOUND_VOLUME
            } else {
                sound_volume
            },
            music_volume_scripted: MAX_MUSIC_VOLUME,
            music_volume_scripted_target: MAX_MUSIC_VOLUME,
            commands: Seq::empty(),
        }
    }

    /// Silence, with the volumes that the player chose; volumes above the
    /// largest count as the largest.
    pub fn new(music_volume: u8, sound_volume: u8) -> (a: Audio)
        ensures
            a.wf(),
            a@ == Audio::spec_new(music_volume, sound_volume),
    {
        Audio {
            music: None,
            music_volume_custom: if music_volume > MAX_MUSIC_VOLUME {
                MAX_MUSIC_VOLUME
            } else {
                music_volume
            },
            sound_volume_custom: if sound_volume > MAX_SOUND_VOLUME {
                MAX_SOUND_VOLUME
            } else {
                sound_volume
            },
            music_volume_scripted: MAX_MUSIC_VOLUME,
            music_volume_scripted_target: MAX_MUSIC_VOLUME,
            commands: Vec::new(),
        }
    }

    fn push_volume(&mut self)
        requires
            old(self).wf(),
        ensures
            final(self)@ == (AudioView {
                commands: old(self)@.commands + old(self)@.volume_commands(),
                ..old(self)@
            }),
    {
        match self.music {
            Some(music) => {
                let volume = self.calc_music_volume(music);
                self.commands.push(AudioCommand::SetMusicVolume { volume });
                assert(self.commands@ =~= old(self).commands@ + old(self)@.volume_commands());
            },
            None => {
                assert(self.commands@ =~= old(self).commands@ + old(self)@.volume_commands());
            },
        }
    }

    /// Moves the story's volume one step towards its target; the music
    /// that is playing follows. Nothing happens at the target.
    pub fn adjust_music_volume_scripted(&mut self)
        requires
            old(self).wf(),
        ensures
            final(self).wf(),
            final(self)@ == old(self)@.adjusted(),
    {
        if self.music_volume_scripted < self.music_volume_scripted_target {
            self.music_volume_scripted = self.music_volume_scripted + 1;
        } else if self.music_volume_scripted > self.music_volume_scripted_target {
            self.music_volume_scripted = self.music_volume_scripted - 1;
        } else {
            return ;
        }
        self.push_volume();
    }

    pub fn calc_music_volume(&self, music: Music) -> (v: u32)
        requires
            self.wf(),
        ensures
            v == self.spec_music_volume(music),
            v <= FULL_VOLUME,
    {
        let base = music.base_volume();
        let custom = self.music_volume_custom as u32;
        let scripted = self.music_volume_scripted as u32;
        assert(base * custom * scripted <= 1000 * 100 * 100) by (nonlinear_arith)
            requires
                0 <= base <= 1000,
                0 <= custom <= 100,
                0 <= scripted <= 100,
        ;
        assert(base * custom <= 1000 * 100) by (nonlinear_arith)
            requires
                0 <= base <= 1000,
                0 <= custom <= 100,
        ;
        base * custom * scripted
    }

    pub fn calc_sfx_volume(&self, sfx: Sfx) -> (v: u32)
        requires
            self.wf(),
        ensures
            v == self.spec_sfx_volume(sfx),
            v <= FULL_VOLUME,
    {
        let base = sfx.base_volume();
        let custom = self.sound_volume_custom as u32;
        assert(base * custom <= 1000 * 100) by (nonlinear_arith)
            requires
                0 <= base <= 1000,
                0 <= custom <= 100,
        ;
        assert(base * custom * 100 <= 1000 * 100 * 100) by (nonlinear_arith)
            requires
                0 <= base * custom <= 1000 * 100,
        ;
        base * custom * (MAX_SOUND_VOLUME as u32)
    }

    pub fn get_music_volume_custom(&self) -> (v: u8)
        ensures
            v == self.music_volume_custom(),
    {
        self.music_volume_custom
    }

    pub fn get_sound_volume_custom(&self) -> (v: u8)
        ensures
            v == self.sound_volume_custom(),
    {
        self.sound_volume_custom
    }

    /// Plays `music` from now on, or nothing for `None`.
    pub fn play_music(&mut self, music: Option<Music>)
        requires
            old(self).wf(),
        ensures
            final(self).wf(),
            final(self)@ == old(self)@.with_music(music),
    {
        let same = match (self.music, music) {
            (Some(current), Some(wanted)) => current == wanted,
            (None, None) => true,
            _ => false,
        };
        if same {
            assert(self.commands@ + old(self)@.music_commands(music) =~= self.commands@);
            return ;
        }
        if self.music.is_some() {
            self.commands.push(AudioCommand::StopMusic);
            self.music = None;
        }
        if let Some(m) = music {
            let volume = self.calc_music_volume(m);
            self.commands.push(AudioCommand::PlayMusic { music: m, volume });
            self.music = Some(m);
        }
        assert(self.commands@ =~= old(self).commands@ + old(self)@.music_commands(music));
    }

    pub fn play_sfx(&mut self, sfx: Sfx)
        requires
            old(self).wf(),
        ensures
            final(self).wf(),
            final(self)@ == old(self)@.with_sfx(sfx),
    {
        let is_cursor_sound = match sfx {
            Sfx::Cancel | Sfx::Chime | Sfx::Confirm | Sfx::Cursor => true,
            _ => false,
        };
        if is_cursor_sound {
            self.commands.push(AudioCommand::StopSfx { sfx: Sfx::Cancel });
            self.commands.push(AudioCommand::StopSfx { sfx: Sfx::Confirm });
            self.commands.push(AudioCommand::StopSfx { sfx: Sfx::Cursor });
        } else {
            self.commands.push(AudioCommand::StopSfx { sfx });
        }
        let volume = self.calc_sfx_volume(sfx);
        self.commands.push(AudioCommand::PlaySfx { sfx, volume });
        assert(self.commands@ =~= old(self).commands@ + old(self)@.sfx_commands(sfx));
    }

    /// Sets the player's volume for music, at most the largest; the music
    /// that is playing follows.
    pub fn set_music_volume_custom(&mut self, volume: u8)
        requires
            old(self).wf(),
        ensures
            final(self).wf(),
            final(self)@ == old(self)@.with_music_volume(volume),
    {
        self.music_volume_custom = if volume > MAX_MUSIC_VOLUME {
            MAX_MUSIC_VOLUME
        } else {
            volume
        };
        self.push_volume();
    }

    /// Sets the player's volume for sound effects, at most the largest.
    pub fn set_sound_volume_custom(&mut self, volume: u8)
        requires
            old(self).wf(),
        ensures
            final(self).wf(),
            final(self)@ == old(self)@.with_sound_volume(volume),
    {
        self.sound_volume_custom = if volume > MAX_SOUND_VOLUME {
            MAX_SOUND_VOLUME
        } else {
            volume
        };
    }

    /// Sets the volume that the story moves the music to, one step a tick.
    pub fn set_music_volume_scripted(&mut self, volume: u8)
        requires
            old(self).wf(),
            volume <= MAX_MUSIC_VOLUME,
        ensures
            final(self).wf(),
            final(self)@ == old(self)@.with_scripted_target(volume),
    {
        self.music_volume_scripted_target = volume;
    }

    /// Hands over the commands for the sound device and forgets them.
    pub fn take_commands(&mut self) -> (commands: Vec<AudioCommand>)
        ensures
            commands@ == old(self).commands(),
            final(self)@ == (AudioView { commands: Seq::empty(), ..old(self)@ }),
    {
        let mut commands: Vec<AudioCommand> = Vec::new();
        core::mem::swap(&mut self.commands, &mut commands);
        commands
    }
}

} // verus!
