//! The options: the volumes of music and sound, the credits, and the way out.
use vstd::prelude::*;
use crate::async_utils::Poll;
use crate::audio::{AudioView, Music, Sfx, MAX_MUSIC_VOLUME, MAX_SOUND_VOLUME};
use crate::contexts::ModeContext;
use crate::draw::{lemma_concat_assoc, views, DrawCommand, DrawCommandView};
use crate::input::GameKey;
use crate::meter::Meter;
use crate::modes::battle::cursor_str;
use crate::modes::menu::{entry_moved, move_entry};
use crate::numeric::add_clamped;
use crate::resources::Resources;
use crate::saved_options::SavedOptions;
use crate::strings::{push_decimal_right_aligned, push_str, string_from_chars};
use crate::text::Text;

verus! {

/// Number of entries: back, music, sound, credits and quit.
pub const NUM_ENTRIES: i32 = 5;

/// By how much a key changes a volume.
pub const VOLUME_STEP: u8 = 10;

/// Where an update of the options stands.
#[derive(Clone, Copy, Debug, PartialEq, Eq, Structural)]
pub enum OptionsPhase {
    /// No update is in progress.
    Start,
    /// The menu is open.
    Menu,
}

pub struct Options {
    pub base_x: i32,
    pub base_y: i32,
    /// Music plays while its volume is set.
    pub preview_music: bool,
    pub selection: i32,
    pub cursor: Text,
    pub back_text: Text,
    pub music_text: Text,
    pub music_meter: Meter,
    pub sound_text: Text,
    pub sound_meter: Meter,
    pub credits_text: Text,
    pub quit_text: Text,
    /// A volume was changed since the options were saved.
    pub options_changed: bool,
    pub phase: OptionsPhase,
}

#[derive(Clone, Copy, Debug, PartialEq, Eq, Structural)]
pub enum OptionsEvent {
    Credits,
    Done,
    Quit,
}

/// The line of a volume: its name, and the volume in tenths in four columns.
pub open spec fn volume_line(name: Seq<char>, volume: u8) -> Seq<char> {
    name + crate::strings::pad_left(crate::strings::decimal(volume as int / 10), 4)
}

fn make_volume_line(name: &str, volume: u8) -> (s: String)
    ensures
        s@ == volume_line(name@, volume),
{
    let mut out: Vec<char> = Vec::new();
    push_str(&mut out, name);
    push_decimal_right_aligned(&mut out, (volume / 10) as i64, 4);
    string_from_chars(&out)
}

/// `volume` less a step, not below 0.
pub open spec fn volume_down(volume: u8) -> u8 {
    if volume < VOLUME_STEP {
        0
    } else {
        (volume - VOLUME_STEP) as u8
    }
}

/// `volume` and a step, not above the largest `u8`.
pub open spec fn volume_up(volume: u8) -> u8 {
    if volume > u8::MAX - VOLUME_STEP {
        u8::MAX
    } else {
        (volume + VOLUME_STEP) as u8
    }
}

impl Options {
    pub open spec fn wf(&self) -> bool {
        &&& self.cursor.wf()
        &&& self.back_text.wf()
        &&& self.music_text.wf()
        &&& self.music_meter.wf()
        &&& self.sound_text.wf()
        &&& self.sound_meter.wf()
        &&& self.credits_text.wf()
        &&& self.quit_text.wf()
        &&& 0 <= self.selection < NUM_ENTRIES
        &&& -0x1000_0000 < self.base_x < 0x1000_0000
        &&& -0x1000_0000 < self.base_y < 0x1000_0000
    }

    /// What options hold that have not been updated: the entries at
    /// their places below each other, the lines of the volumes empty, and
    /// the meters full.
    pub open spec fn fresh(&self, res: &Resources) -> bool {
        let font = &res.font;
        let x = self.base_x;
        let y = self.base_y;
        let gray = seq![192u8, 192u8, 192u8];
        &&& self.phase == OptionsPhase::Start
        &&& self.selection == 0
        &&& !self.options_changed
        &&& self.cursor.written(font, 0, 0, seq![crate::text::CURSOR_CHAR])
        &&& self.back_text.written(font, (x + 6) as i32, y, "Back"@)
        &&& self.music_text.written(font, (x + 6) as i32, (y + 16) as i32, Seq::empty())
        &&& self.music_meter.set_up((x + 78) as i32, (y + 18) as i32, 72, gray, 100, 100)
        &&& self.sound_text.written(font, (x + 6) as i32, (y + 24) as i32, Seq::empty())
        &&& self.sound_meter.set_up((x + 78) as i32, (y + 26) as i32, 72, gray, 100, 100)
        &&& self.credits_text.written(font, (x + 6) as i32, (y + 32) as i32, "Credits"@)
        &&& self.quit_text.written(font, (x + 6) as i32, (y + 40) as i32, "Quit"@)
    }

    /// The open menu shows the volumes as they are set, and the cursor
    /// beside the entry that is selected.
    pub open spec fn shows(&self, audio: AudioView) -> bool {
        self.phase == OptionsPhase::Menu ==> {
            &&& self.cursor.offset() == (self.base_x, Options::cursor_y(self.base_y, self.selection))
            &&& self.music_text.reads(volume_line("Music"@, audio.music_volume_custom))
            &&& self.sound_text.reads(volume_line("Sound"@, audio.sound_volume_custom))
            &&& self.music_meter.value() == crate::numeric::clamp(
                audio.music_volume_custom as int,
                0,
                self.music_meter.max_value() as int,
            )
            &&& self.sound_meter.value() == crate::numeric::clamp(
                audio.sound_volume_custom as int,
                0,
                self.sound_meter.max_value() as int,
            )
        }
    }

    /// What no update changes: the entries but the lines of the volumes,
    /// the places of those and of the meters, and the mark of the cursor.
    pub open spec fn same_frame(&self, before: &Options) -> bool {
        &&& self.base_x == before.base_x
        &&& self.base_y == before.base_y
        &&& self.preview_music == before.preview_music
        &&& self.back_text == before.back_text
        &&& self.credits_text == before.credits_text
        &&& self.quit_text == before.quit_text
        &&& self.music_text.offset() == before.music_text.offset()
        &&& self.music_text.cell() == before.music_text.cell()
        &&& self.sound_text.offset() == before.sound_text.offset()
        &&& self.sound_text.cell() == before.sound_text.cell()
        &&& self.music_meter.same_place(&before.music_meter)
        &&& self.music_meter.max_value() == before.music_meter.max_value()
        &&& self.sound_meter.same_place(&before.sound_meter)
        &&& self.sound_meter.max_value() == before.sound_meter.max_value()
        &&& self.cursor.glyphs() == before.cursor.glyphs()
        &&& self.cursor.cell() == before.cursor.cell()
        &&& self.cursor.size() == before.cursor.size()
        &&& self.cursor.shown() == before.cursor.shown()
    }

    /// The options at a place of the screen; `None` for a place far off the screen.
    pub fn new(res: &Resources, base_x: i32, base_y: i32, preview_music: bool) -> (r: Option<
        Options,
    >)
        ensures
            r is Some == (-0x1000_0000 < base_x < 0x1000_0000 && -0x1000_0000 < base_y
                < 0x1000_0000),
            r matches Some(o) ==> {
                &&& o.wf()
                &&& o.phase == OptionsPhase::Start
                &&& o.base_x == base_x
                &&& o.base_y == base_y
                &&& o.preview_music == preview_music
                &&& o.selection == 0
                &&& !o.options_changed
                &&& o.fresh(res)
            },
    {
        if !(-0x1000_0000 < base_x && base_x < 0x1000_0000 && -0x1000_0000 < base_y && base_y
            < 0x1000_0000) {
            return None;
        }
        Some(
            Options {
                base_x,
                base_y,
                preview_music,
                selection: 0,
                cursor: Text::from_str(&res.font, 0, 0, cursor_str()),
                back_text: Text::from_str(&res.font, base_x + 6, base_y, "Back"),
                music_text: Text::new(&res.font, base_x + 6, base_y + 2 * 8),
                music_meter: Meter::new(
                    base_x + 13 * 6,
                    base_y + 2 * 8 + 2,
                    12 * 6,
                    [192, 192, 192],
                    MAX_MUSIC_VOLUME as i32,
                ),
                sound_text: Text::new(&res.font, base_x + 6, base_y + 3 * 8),
                sound_meter: Meter::new(
                    base_x + 13 * 6,
                    base_y + 3 * 8 + 2,
                    12 * 6,
                    [192, 192, 192],
                    MAX_SOUND_VOLUME as i32,
                ),
                credits_text: Text::from_str(&res.font, base_x + 6, base_y + 4 * 8, "Credits"),
                quit_text: Text::from_str(&res.font, base_x + 6, base_y + 5 * 8, "Quit"),
                options_changed: false,
                phase: OptionsPhase::Start,
            },
        )
    }

    pub open spec fn volumes_drawn(&self) -> Seq<DrawCommandView> {
        self.music_text.drawn() + self.music_meter.drawn() + self.sound_text.drawn()
            + self.sound_meter.drawn()
    }

    pub open spec fn drawn(&self) -> Seq<DrawCommandView> {
        self.cursor.drawn() + self.back_text.drawn() + self.volumes_drawn()
            + self.credits_text.drawn() + self.quit_text.drawn()
    }

    fn draw_volumes(&self, out: &mut Vec<DrawCommand>)
        requires
            self.wf(),
        ensures
            views(final(out)@) == views(old(out)@) + self.volumes_drawn(),
    {
        self.music_text.draw(out);
        self.music_meter.draw(out);
        self.sound_text.draw(out);
        self.sound_meter.draw(out);
        assert(views(final(out)@) =~= views(old(out)@) + self.volumes_drawn());
    }

    pub fn draw(&self, out: &mut Vec<DrawCommand>)
        requires
            self.wf(),
        ensures
            views(final(out)@) == views(old(out)@) + self.drawn(),
    {
        let ghost start = views(out@);
        self.cursor.draw(out);
        self.back_text.draw(out);
        proof {
            lemma_concat_assoc(start, self.cursor.drawn(), self.back_text.drawn());
        }
        self.draw_volumes(out);
        proof {
            lemma_concat_assoc(
                start,
                self.cursor.drawn() + self.back_text.drawn(),
                self.volumes_drawn(),
            );
        }
        self.credits_text.draw(out);
        proof {
            lemma_concat_assoc(
                start,
                self.cursor.drawn() + self.back_text.drawn() + self.volumes_drawn(),
                self.credits_text.drawn(),
            );
        }
        self.quit_text.draw(out);
        proof {
            lemma_concat_assoc(
                start,
                self.cursor.drawn() + self.back_text.drawn() + self.volumes_drawn()
                    + self.credits_text.drawn(),
                self.quit_text.drawn(),
            );
        }
    }

    /// What the player has set the options to is the same.
    pub open spec fn same_choice(&self, before: &Options) -> bool {
        &&& self.base_x == before.base_x
        &&& self.base_y == before.base_y
        &&& self.preview_music == before.preview_music
        &&& self.selection == before.selection
        &&& self.options_changed == before.options_changed
        &&& self.phase == before.phase
    }

    /// Row of the cursor for an entry: a row is left out below the first entry.
    pub open spec fn cursor_y(base_y: i32, selection: i32) -> i32 {
        if selection == 0 {
            base_y
        } else {
            (base_y + (selection + 1) * 8) as i32
        }
    }

    fn update_cursor_pos(&mut self)
        requires
            old(self).wf(),
        ensures
            final(self).wf(),
            final(self).same_choice(old(self)),
            final(self).cursor.offset() == (
                old(self).base_x,
                Options::cursor_y(old(self).base_y, old(self).selection),
            ),
            final(self).same_frame(old(self)),
            *final(self) == (Options { cursor: final(self).cursor, ..*old(self) }),
    {
        let y = if self.selection == 0 {
            self.base_y
        } else {
            self.base_y + (self.selection + 1) * 8
        };
        self.cursor.set_offset(self.base_x, y);
    }

    fn update_volumes(&mut self, music_volume: u8, sound_volume: u8)
        requires
            old(self).wf(),
        ensures
            final(self).wf(),
            final(self).same_choice(old(self)),
            final(self).cursor == old(self).cursor,
            final(self).music_meter.value() == crate::numeric::clamp(
                music_volume as int,
                0,
                final(self).music_meter.max_value() as int,
            ),
            final(self).sound_meter.value() == crate::numeric::clamp(
                sound_volume as int,
                0,
                final(self).sound_meter.max_value() as int,
            ),
            final(self).music_text.reads(volume_line("Music"@, music_volume)),
            final(self).sound_text.reads(volume_line("Sound"@, sound_volume)),
            final(self).same_frame(old(self)),
            *final(self) == (Options {
                music_text: final(self).music_text,
                music_meter: final(self).music_meter,
                sound_text: final(self).sound_text,
                sound_meter: final(self).sound_meter,
                ..*old(self)
            }),
    {
        let line = make_volume_line("Music", music_volume);
        self.music_text.set_text(line.as_str());
        self.music_meter.set_value(music_volume as i32);
        let line = make_volume_line("Sound", sound_volume);
        self.sound_text.set_text(line.as_str());
        self.sound_meter.set_value(sound_volume as i32);
    }

    /// The options that are to be written once the menu is left: the
    /// volumes of the sound, where one was changed.
    pub open spec fn options_saved(changed: bool, audio: AudioView, pending: Option<SavedOptions>) -> Option<
        SavedOptions,
    > {
        if changed {
            Some(
                SavedOptions {
                    music_volume: audio.music_volume_custom,
                    sound_volume: audio.sound_volume_custom,
                },
            )
        } else {
            pending
        }
    }

    fn save_changed_options(&mut self, mctx: &mut ModeContext)
        ensures
            *final(self) == (Options { options_changed: false, ..*old(self) }),
            *final(mctx) == (ModeContext {
                options_to_save: Options::options_saved(
                    old(self).options_changed,
                    old(mctx).audio@,
                    old(mctx).options_to_save,
                ),
                ..*old(mctx)
            }),
    {
        if self.options_changed {
            mctx.options_to_save = Some(
                SavedOptions {
                    music_volume: mctx.audio.get_music_volume_custom(),
                    sound_volume: mctx.audio.get_sound_volume_custom(),
                },
            );
            self.options_changed = false;
        }
    }

    /// The sound after the music for trying out a volume was started or
    /// stopped, where the options play music at all.
    pub open spec fn previewed(audio: AudioView, preview_music: bool, music: Option<Music>) -> AudioView {
        if preview_music {
            audio.with_music(music)
        } else {
            audio
        }
    }

    /// The volume of the entry after the left or the right key, left first.
    pub open spec fn volume_set(volume: u8, left: bool) -> u8 {
        if left {
            volume_down(volume)
        } else {
            volume_up(volume)
        }
    }

    /// What a poll makes of the open menu.
    ///
    /// Cancel leaves the options, and so does confirm at back; confirm at
    /// credits and at quit gives their events. Up and down move through
    /// the entries. At the volumes, left and right change the volume by
    /// a step. Volumes that were changed are handed on to be saved when
    /// the options are left for good.
    pub open spec fn step_menu(
        &self,
        before: &Options,
        ctx: &ModeContext,
        ctx_before: &ModeContext,
        r: Poll<OptionsEvent>,
    ) -> bool {
        let input = &ctx_before.input;
        let a = ctx_before.audio@;
        let left = input.key_pressed(GameKey::Left);
        let right = input.key_pressed(GameKey::Right);
        &&& self.base_x == before.base_x
        &&& self.base_y == before.base_y
        &&& self.preview_music == before.preview_music
        &&& *ctx == (ModeContext {
            audio: ctx.audio,
            options_to_save: ctx.options_to_save,
            ..*ctx_before
        })
        &&& if input.key_pressed(GameKey::Cancel) || (input.key_pressed(GameKey::Confirm)
            && before.selection == 0) {
            &&& r == Poll::Ready(OptionsEvent::Done)
            &&& self.phase == OptionsPhase::Start
            &&& self.selection == before.selection
            &&& !self.options_changed
            &&& ctx.audio@ == a.with_sfx(Sfx::Cancel)
            &&& ctx.options_to_save == Options::options_saved(
                before.options_changed,
                a,
                ctx_before.options_to_save,
            )
        } else if input.key_pressed(GameKey::Confirm) {
            &&& self.selection == before.selection
            &&& if before.selection == 3 {
                &&& r == Poll::Ready(OptionsEvent::Credits)
                &&& self.phase == OptionsPhase::Start
                &&& self.options_changed == before.options_changed
                &&& ctx.audio == ctx_before.audio
                &&& ctx.options_to_save == ctx_before.options_to_save
            } else if before.selection == 4 {
                &&& r == Poll::Ready(OptionsEvent::Quit)
                &&& self.phase == OptionsPhase::Start
                &&& !self.options_changed
                &&& ctx.audio == ctx_before.audio
                &&& ctx.options_to_save == Options::options_saved(
                    before.options_changed,
                    a,
                    ctx_before.options_to_save,
                )
            } else {
                &&& r is Pending
                &&& self.phase == OptionsPhase::Menu
                &&& self.options_changed == before.options_changed
                &&& ctx.options_to_save == ctx_before.options_to_save
                &&& ctx.audio@ == if before.selection == 1 {
                    Options::previewed(a, before.preview_music, Some(Music::Overworld))
                } else {
                    a.with_sfx(Sfx::Confirm)
                }
            }
        } else if input.key_pressed(GameKey::Up) || input.key_pressed(GameKey::Down) {
            &&& r is Pending
            &&& self.phase == OptionsPhase::Menu
            &&& self.options_changed == before.options_changed
            &&& ctx.options_to_save == ctx_before.options_to_save
            &&& self.selection == entry_moved(
                before.selection as int,
                NUM_ENTRIES as int,
                input.key_pressed(GameKey::Up),
                input.key_pressed(GameKey::Down),
            )
            &&& ctx.audio@ == Options::previewed(a.with_sfx(Sfx::Cursor), before.preview_music, None)
        } else if before.selection == 1 && (left || right) {
            let set = a.with_music_volume(Options::volume_set(a.music_volume_custom, left));
            &&& r is Pending
            &&& self.phase == OptionsPhase::Menu
            &&& self.selection == before.selection
            &&& ctx.options_to_save == ctx_before.options_to_save
            &&& self.options_changed == (before.options_changed || set.music_volume_custom
                != a.music_volume_custom)
            &&& ctx.audio@ == Options::previewed(set, before.preview_music, Some(Music::Overworld))
        } else if before.selection == 2 && (left || right) {
            let set = a.with_sound_volume(Options::volume_set(a.sound_volume_custom, left));
            &&& r is Pending
            &&& self.phase == OptionsPhase::Menu
            &&& self.selection == before.selection
            &&& ctx.options_to_save == ctx_before.options_to_save
            &&& self.options_changed == (before.options_changed || set.sound_volume_custom
                != a.sound_volume_custom)
            &&& ctx.audio@ == set.with_sfx(Sfx::Confirm)
        } else {
            &&& r is Pending
            &&& self.phase == OptionsPhase::Menu
            &&& self.selection == before.selection
            &&& self.options_changed == before.options_changed
            &&& ctx.audio == ctx_before.audio
            &&& ctx.options_to_save == ctx_before.options_to_save
        }
    }

    /// What one poll makes of the options and their context.
    pub open spec fn step(
        &self,
        before: &Options,
        ctx: &ModeContext,
        ctx_before: &ModeContext,
        r: Poll<OptionsEvent>,
    ) -> bool {
        &&& self.wf()
        &&& self.same_frame(before)
        &&& before.phase == OptionsPhase::Start || before.shows(ctx_before.audio@) ==> self.shows(
            ctx.audio@,
        )
        &&& match before.phase {
            OptionsPhase::Start => {
                &&& r is Pending
                &&& self.base_x == before.base_x
                &&& self.base_y == before.base_y
                &&& self.preview_music == before.preview_music
                &&& self.selection == before.selection
                &&& self.options_changed == before.options_changed
                &&& self.phase == OptionsPhase::Menu
                &&& self.cursor.offset() == (
                    before.base_x,
                    Options::cursor_y(before.base_y, before.selection),
                )
                &&& *ctx == *ctx_before
            },
            OptionsPhase::Menu => self.step_menu(before, ctx, ctx_before, r),
        }
    }

    fn poll_menu(&mut self, mctx: &mut ModeContext) -> (r: Poll<OptionsEvent>)
        requires
            old(self).wf(),
            old(self).phase == OptionsPhase::Menu,
            old(mctx).audio.wf(),
        ensures
            final(self).wf(),
            final(self).step_menu(old(self), final(mctx), old(mctx), r),
            final(self).same_frame(old(self)),
            old(self).shows(old(mctx).audio@) ==> final(self).shows(final(mctx).audio@),
            final(mctx).audio.wf(),
    {
        let confirm = mctx.input.is_key_pressed(GameKey::Confirm);
        let left = mctx.input.is_key_pressed(GameKey::Left);
        let right = mctx.input.is_key_pressed(GameKey::Right);
        if mctx.input.is_key_pressed(GameKey::Cancel) || (confirm && self.selection == 0) {
            mctx.audio.play_sfx(Sfx::Cancel);
            self.save_changed_options(mctx);
            self.phase = OptionsPhase::Start;
            Poll::Ready(OptionsEvent::Done)
        } else if confirm {
            if self.selection == 3 {
                self.phase = OptionsPhase::Start;
                Poll::Ready(OptionsEvent::Credits)
            } else if self.selection == 4 {
                self.save_changed_options(mctx);
                self.phase = OptionsPhase::Start;
                Poll::Ready(OptionsEvent::Quit)
            } else {
                if self.selection == 1 {
                    if self.preview_music {
                        mctx.audio.play_music(Some(Music::Overworld));
                    }
                } else {
                    mctx.audio.play_sfx(Sfx::Confirm);
                }
                Poll::Pending
            }
        } else if mctx.input.is_key_pressed(GameKey::Up) || mctx.input.is_key_pressed(
            GameKey::Down,
        ) {
            mctx.audio.play_sfx(Sfx::Cursor);
            self.selection = move_entry(
                self.selection,
                NUM_ENTRIES,
                mctx.input.is_key_pressed(GameKey::Up),
                mctx.input.is_key_pressed(GameKey::Down),
            );
            self.update_cursor_pos();
            if self.preview_music {
                mctx.audio.play_music(None);
            }
            Poll::Pending
        } else if self.selection == 1 && (left || right) {
            let old_volume = mctx.audio.get_music_volume_custom();
            let volume = if left {
                old_volume.saturating_sub(VOLUME_STEP)
            } else {
                old_volume.saturating_add(VOLUME_STEP)
            };
            mctx.audio.set_music_volume_custom(volume);
            let changed = mctx.audio.get_music_volume_custom() != old_volume;
            self.options_changed = self.options_changed || changed;
            self.update_volumes(
                mctx.audio.get_music_volume_custom(),
                mctx.audio.get_sound_volume_custom(),
            );
            if self.preview_music {
                mctx.audio.play_music(Some(Music::Overworld));
            }
            Poll::Pending
        } else if self.selection == 2 && (left || right) {
            let old_volume = mctx.audio.get_sound_volume_custom();
            let volume = if left {
                old_volume.saturating_sub(VOLUME_STEP)
            } else {
                old_volume.saturating_add(VOLUME_STEP)
            };
            mctx.audio.set_sound_volume_custom(volume);
            let changed = mctx.audio.get_sound_volume_custom() != old_volume;
            self.options_changed = self.options_changed || changed;
            self.update_volumes(
                mctx.audio.get_music_volume_custom(),
                mctx.audio.get_sound_volume_custom(),
            );
            mctx.audio.play_sfx(Sfx::Confirm);
            Poll::Pending
        } else {
            Poll::Pending
        }
    }

    /// Runs the options up to their next suspension point or to their end.
    pub fn update(&mut self, mctx: &mut ModeContext) -> (r: Poll<OptionsEvent>)
        requires
            old(self).wf(),
            old(mctx).audio.wf(),
        ensures
            final(self).step(old(self), final(mctx), old(mctx), r),
            final(mctx).audio.wf(),
    {
        match self.phase {
            OptionsPhase::Start => {
                self.update_volumes(
                    mctx.audio.get_music_volume_custom(),
                    mctx.audio.get_sound_volume_custom(),
                );
                self.update_cursor_pos();
                self.phase = OptionsPhase::Menu;
                Poll::Pending
            },
            OptionsPhase::Menu => self.poll_menu(mctx),
        }
    }
}

} // verus!
