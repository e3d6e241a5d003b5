//! The title screen: it waits for a key, then offers a new game, to
//! continue a saved one, and the options.
use vstd::prelude::*;
use crate::async_utils::Poll;
use crate::audio::Sfx;
use crate::contexts::ModeContext;
use crate::draw::{views, DrawCommand, DrawCommandView};
use crate::input::GameKey;
use crate::modes::battle::cursor_str;
use crate::modes::credits::{faded_on, FADE_FRAMES};
use crate::modes::menu::{entry_moved, move_entry};
use crate::resources::Resources;
use crate::sprite::{Playback, Sprite};
use crate::text::Text;

verus! {

pub const TITLE_X: i32 = 120;

pub const TITLE_Y: i32 = 38;

pub const CONFIRM_X: i32 = 127;

pub const CONFIRM_Y: i32 = 120;

pub const MENU_X: i32 = 136;

pub const MENU_Y: i32 = 112;

pub const CURSOR_X: i32 = 128;

pub const CURSOR_Y: i32 = 112;

/// Where an update of the title screen stands.
#[derive(Clone, Copy, Debug, PartialEq, Eq, Structural)]
pub enum TitlePhase {
    /// No update is in progress.
    Start,
    FadeIn,
    /// The call to press a key is being revealed.
    RevealConfirm,
    /// The screen waits for the key.
    WaitConfirm,
    /// The menu is open.
    Menu,
}

pub struct Title {
    pub title: Sprite,
    pub confirm_text: Text,
    pub menu_text: Text,
    pub cursor: Text,
    /// There is a saved game to continue.
    pub can_continue: bool,
    /// The key was pressed once; the menu opens at once from now on.
    pub confirm_pressed: bool,
    pub selection: i32,
    pub phase: TitlePhase,
}

#[derive(Clone, Copy, Debug, PartialEq, Eq, Structural)]
pub enum TitleEvent {
    /// A new game, with the opening where the flag is set.
    NewGame(bool),
    Continue,
    Options,
}

impl Title {
    /// Number of entries of the menu: continue is one only where a game is saved.
    pub open spec fn num_menu_entries(&self) -> int {
        if self.can_continue {
            3
        } else {
            2
        }
    }

    /// The picture and the texts are sound, and an entry is selected.
    pub open spec fn widgets_wf(&self) -> bool {
        &&& self.title.wf()
        &&& self.confirm_text.wf()
        &&& self.menu_text.wf()
        &&& self.cursor.wf()
        &&& 0 <= self.selection < self.num_menu_entries()
    }

    pub open spec fn wf(&self) -> bool {
        &&& self.widgets_wf()
        &&& self.shows()
    }

    /// The entries of the menu, one a line.
    pub open spec fn menu_entries(can_continue: bool) -> Seq<char> {
        if can_continue {
            "New Game\nContinue\nOptions"@
        } else {
            "New Game\nOptions"@
        }
    }

    /// The screen shows what goes with its phase: the call to press a key
    /// while it is revealed and waited for, and the menu with the cursor
    /// beside the entry that is selected once it is open.
    pub open spec fn shows(&self) -> bool {
        match self.phase {
            TitlePhase::Start | TitlePhase::FadeIn => true,
            TitlePhase::RevealConfirm | TitlePhase::WaitConfirm => self.confirm_text.holds(
                "Press Space"@,
                self.confirm_text.shown(),
            ),
            TitlePhase::Menu => {
                &&& self.menu_text.reads(Title::menu_entries(self.can_continue))
                &&& self.cursor.reads(seq![crate::text::CURSOR_CHAR])
                &&& self.cursor.offset() == (CURSOR_X, (CURSOR_Y + 8 * self.selection) as i32)
            },
        }
    }

    /// What a screen holds that has not been updated: the picture of the
    /// title at its first frame, and the texts empty at their places.
    pub open spec fn fresh(&self, res: &Resources) -> bool {
        let font = &res.font;
        &&& self.phase == TitlePhase::Start
        &&& !self.confirm_pressed
        &&& self.title.made_of(&res.sheet_named("title.png"@))
        &&& self.title.playback() == (Playback { tag: 0, frame: 0, t: 0, forward: true })
        &&& self.confirm_text.written(font, CONFIRM_X, CONFIRM_Y, Seq::empty())
        &&& self.menu_text.written(font, MENU_X, MENU_Y, Seq::empty())
        &&& self.cursor.written(font, CURSOR_X, CURSOR_Y, Seq::empty())
    }

    /// What no update changes: the sheet of the title's picture, and the
    /// places of the texts.
    pub open spec fn same_frame(&self, before: &Title) -> bool {
        &&& self.can_continue == before.can_continue
        &&& self.title.same_sheet(&before.title)
        &&& self.confirm_text.offset() == before.confirm_text.offset()
        &&& self.confirm_text.cell() == before.confirm_text.cell()
        &&& self.menu_text.offset() == before.menu_text.offset()
        &&& self.menu_text.cell() == before.menu_text.cell()
        &&& self.cursor.cell() == before.cursor.cell()
    }

    /// The title screen, with the cursor at continue where a game is
    /// saved; `None` where its picture has no usable sprite sheet.
    pub fn new(res: &Resources, can_continue: bool) -> (r: Option<Title>)
        ensures
            r is Some == res.sprite_sheet_usable("title.png"@),
            r matches Some(t) ==> {
                &&& t.wf()
                &&& t.phase == TitlePhase::Start
                &&& t.can_continue == can_continue
                &&& !t.confirm_pressed
                &&& t.selection == if can_continue {
                    1i32
                } else {
                    0i32
                }
                &&& t.fresh(res)
            },
    {
        let title = match res.sprite_sheet("title.png") {
            Some(sheet) => match Sprite::new(sheet) {
                Some(sprite) => sprite,
                None => {
                    return None;
                },
            },
            None => {
                return None;
            },
        };
        Some(
            Title {
                title,
                confirm_text: Text::new(&res.font, CONFIRM_X, CONFIRM_Y),
                menu_text: Text::new(&res.font, MENU_X, MENU_Y),
                cursor: Text::new(&res.font, CURSOR_X, CURSOR_Y),
                can_continue,
                confirm_pressed: false,
                selection: if can_continue {
                    1
                } else {
                    0
                },
                phase: TitlePhase::Start,
            },
        )
    }

    pub open spec fn drawn(&self) -> Seq<DrawCommandView> {
        self.title.drawn(TITLE_X, TITLE_Y) + self.confirm_text.drawn()
            + self.menu_text.drawn() + self.cursor.drawn()
    }

    pub fn draw(&self, out: &mut Vec<DrawCommand>)
        requires
            self.wf(),
        ensures
            views(final(out)@) == views(old(out)@) + self.drawn(),
    {
        self.title.draw(out, TITLE_X, TITLE_Y);
        self.confirm_text.draw(out);
        self.menu_text.draw(out);
        self.cursor.draw(out);
        assert(views(final(out)@) =~= views(old(out)@) + self.drawn());
    }

    /// What the player has set the screen to is the same.
    pub open spec fn same_choice(&self, before: &Title) -> bool {
        &&& self.can_continue == before.can_continue
        &&& self.confirm_pressed == before.confirm_pressed
        &&& self.selection == before.selection
    }

    fn update_cursor_pos(&mut self)
        requires
            old(self).widgets_wf(),
        ensures
            final(self).widgets_wf(),
            final(self).same_choice(old(self)),
            final(self).phase == old(self).phase,
            final(self).confirm_text == old(self).confirm_text,
            final(self).cursor.offset() == (CURSOR_X, (CURSOR_Y + 8 * old(self).selection) as i32),
            *final(self) == (Title { cursor: final(self).cursor, ..*old(self) }),
            final(self).cursor.glyphs() == old(self).cursor.glyphs(),
            final(self).cursor.size() == old(self).cursor.size(),
            final(self).cursor.shown() == old(self).cursor.shown(),
            final(self).cursor.cell() == old(self).cursor.cell(),
    {
        self.cursor.set_offset(CURSOR_X, CURSOR_Y + 8 * self.selection);
    }

    fn open_menu(&mut self)
        requires
            old(self).widgets_wf(),
        ensures
            final(self).wf(),
            final(self).same_choice(old(self)),
            final(self).same_frame(old(self)),
            final(self).title == old(self).title,
            final(self).confirm_text == old(self).confirm_text,
            final(self).phase == TitlePhase::Menu,
            final(self).cursor.offset() == (CURSOR_X, (CURSOR_Y + 8 * old(self).selection) as i32),
    {
        self.menu_text.set_text(
            if self.can_continue {
                "New Game\nContinue\nOptions"
            } else {
                "New Game\nOptions"
            },
        );
        self.cursor.set_text(cursor_str());
        self.update_cursor_pos();
        self.phase = TitlePhase::Menu;
    }

    /// The call to press a key is put up, still hidden.
    fn begin_confirm(&mut self)
        requires
            old(self).widgets_wf(),
        ensures
            final(self).wf(),
            final(self).same_choice(old(self)),
            final(self).same_frame(old(self)),
            *final(self) == (Title {
                confirm_text: final(self).confirm_text,
                phase: final(self).phase,
                ..*old(self)
            }),
            final(self).confirm_text.shown() == 0,
            final(self).phase == if final(self).confirm_text.glyphs().len() == 0 {
                TitlePhase::WaitConfirm
            } else {
                TitlePhase::RevealConfirm
            },
    {
        self.confirm_text.set_text("Press Space");
        self.confirm_text.hide_all_chars();
        self.phase = if self.confirm_text.all_chars_shown() {
            TitlePhase::WaitConfirm
        } else {
            TitlePhase::RevealConfirm
        };
    }

    /// The event that confirm gives at an entry of the menu.
    pub open spec fn chosen(&self) -> TitleEvent {
        let real_selection = if !self.can_continue && self.selection >= 1 {
            self.selection + 1
        } else {
            self.selection as int
        };
        if real_selection == 0 {
            TitleEvent::NewGame(true)
        } else if real_selection == 1 {
            TitleEvent::Continue
        } else {
            TitleEvent::Options
        }
    }

    /// What a poll makes of the open menu. Confirm gives the event of the
    /// entry, with the sound of confirming. Up and down move through the
    /// entries, with the cursor sound. The debug key at the first entry
    /// gives a new game without the opening.
    pub open spec fn step_menu(
        &self,
        before: &Title,
        ctx: &ModeContext,
        ctx_before: &ModeContext,
        r: Poll<TitleEvent>,
    ) -> bool {
        let input = &ctx_before.input;
        &&& self.can_continue == before.can_continue
        &&& self.confirm_pressed == before.confirm_pressed
        &&& self.confirm_text == before.confirm_text
        &&& if r == Poll::Ready(TitleEvent::Options) {
            self.menu_text.reads(""@) && self.cursor.reads(""@) && self.cursor.offset()
                == before.cursor.offset()
        } else {
            &&& self.menu_text == before.menu_text
            &&& self.cursor.glyphs() == before.cursor.glyphs()
            &&& self.cursor.size() == before.cursor.size()
            &&& self.cursor.shown() == before.cursor.shown()
            &&& self.cursor.offset() == (CURSOR_X, (CURSOR_Y + 8 * self.selection) as i32)
        }
        &&& *ctx == (ModeContext { audio: ctx.audio, ..*ctx_before })
        &&& if input.key_pressed(GameKey::Confirm) {
            &&& r == Poll::Ready(before.chosen())
            &&& self.phase == TitlePhase::Start
            &&& self.selection == before.selection
            &&& ctx.audio@ == ctx_before.audio@.with_sfx(Sfx::Confirm)
        } else if input.key_pressed(GameKey::Up) || input.key_pressed(GameKey::Down) {
            &&& r is Pending
            &&& self.phase == TitlePhase::Menu
            &&& self.selection == entry_moved(
                before.selection as int,
                before.num_menu_entries(),
                input.key_pressed(GameKey::Up),
                input.key_pressed(GameKey::Down),
            )
            &&& ctx.audio@ == ctx_before.audio@.with_sfx(Sfx::Cursor)
        } else if input.key_pressed(GameKey::DebugMenu) && before.selection == 0 {
            &&& r == Poll::Ready(TitleEvent::NewGame(false))
            &&& self.phase == TitlePhase::Start
            &&& self.selection == before.selection
            &&& ctx.audio@ == ctx_before.audio@.with_sfx(Sfx::Confirm)
        } else {
            &&& r is Pending
            &&& self.phase == TitlePhase::Menu
            &&& self.selection == before.selection
            &&& ctx.audio == ctx_before.audio
        }
    }

    /// What one poll makes of the title screen and its context.
    ///
    /// The first update fades the screen in, reveals the call to press a
    /// key and waits for confirm; then, and at once in later updates, the
    /// menu opens.
    pub open spec fn step(
        &self,
        before: &Title,
        ctx: &ModeContext,
        ctx_before: &ModeContext,
        r: Poll<TitleEvent>,
    ) -> bool {
        &&& self.wf()
        &&& self.same_frame(before)
        &&& self.title.playback() == if before.phase == TitlePhase::Menu && r is Pending {
            before.title.after_tick()
        } else {
            before.title.playback()
        }
        &&& match before.phase {
            TitlePhase::Start => {
                &&& r is Pending
                &&& self.same_choice(before)
                &&& if before.confirm_pressed {
                    self.phase == TitlePhase::Menu && *ctx == *ctx_before
                } else {
                    &&& self.phase == TitlePhase::FadeIn
                    &&& *ctx == (ModeContext { fade: ctx.fade, ..*ctx_before })
                    &&& ctx.fade.frames() == FADE_FRAMES
                    &&& ctx.fade.frame() == 1
                }
            },
            TitlePhase::FadeIn => {
                &&& r is Pending
                &&& self.same_choice(before)
                &&& *ctx == (ModeContext { fade: ctx.fade, ..*ctx_before })
                &&& faded_on(ctx, ctx_before)
                &&& if ctx_before.fade.frame() + 1 < ctx_before.fade.frames() {
                    self.phase == TitlePhase::FadeIn
                } else {
                    &&& self.confirm_text.shown() == 0
                    &&& self.phase == if self.confirm_text.glyphs().len() == 0 {
                        TitlePhase::WaitConfirm
                    } else {
                        TitlePhase::RevealConfirm
                    }
                }
            },
            TitlePhase::RevealConfirm => {
                &&& r is Pending
                &&& self.same_choice(before)
                &&& *ctx == *ctx_before
                &&& self.confirm_text.same_text(&before.confirm_text)
                &&& self.confirm_text.shown() == if before.confirm_text.shown()
                    < before.confirm_text.glyphs().len() {
                    before.confirm_text.shown() + 1
                } else {
                    before.confirm_text.shown()
                }
                &&& self.phase == if self.confirm_text.shown()
                    == self.confirm_text.glyphs().len() {
                    TitlePhase::WaitConfirm
                } else {
                    TitlePhase::RevealConfirm
                }
            },
            TitlePhase::WaitConfirm => {
                &&& r is Pending
                &&& self.can_continue == before.can_continue
                &&& self.selection == before.selection
                &&& if ctx_before.input.key_pressed(GameKey::Confirm) {
                    &&& self.confirm_pressed
                    &&& self.confirm_text.reads(""@)
                    &&& self.phase == TitlePhase::Menu
                    &&& *ctx == (ModeContext { audio: ctx.audio, ..*ctx_before })
                    &&& ctx.audio@ == ctx_before.audio@.with_sfx(Sfx::Confirm)
                } else {
                    &&& self.confirm_pressed == before.confirm_pressed
                    &&& self.confirm_text == before.confirm_text
                    &&& self.phase == TitlePhase::WaitConfirm
                    &&& *ctx == *ctx_before
                }
            },
            TitlePhase::Menu => self.step_menu(before, ctx, ctx_before, r),
        }
    }

    fn poll_menu(&mut self, mctx: &mut ModeContext) -> (r: Poll<TitleEvent>)
        requires
            old(self).wf(),
            old(self).phase == TitlePhase::Menu,
            old(mctx).audio.wf(),
        ensures
            final(self).wf(),
            final(self).step_menu(old(self), final(mctx), old(mctx), r),
            final(self).same_frame(old(self)),
            final(self).title.playback() == if r is Pending {
                old(self).title.after_tick()
            } else {
                old(self).title.playback()
            },
            final(mctx).audio.wf(),
    {
        let entries: i32 = if self.can_continue {
            3
        } else {
            2
        };
        if mctx.input.is_key_pressed(GameKey::Confirm) {
            mctx.audio.play_sfx(Sfx::Confirm);
            let real_selection = if !self.can_continue && self.selection >= 1 {
                self.selection + 1
            } else {
                self.selection
            };
            self.phase = TitlePhase::Start;
            if real_selection == 0 {
                Poll::Ready(TitleEvent::NewGame(true))
            } else if real_selection == 1 {
                Poll::Ready(TitleEvent::Continue)
            } else {
                self.menu_text.set_text("");
                self.cursor.set_text("");
                Poll::Ready(TitleEvent::Options)
            }
        } else if mctx.input.is_key_pressed(GameKey::Up) || mctx.input.is_key_pressed(
            GameKey::Down,
        ) {
            mctx.audio.play_sfx(Sfx::Cursor);
            self.selection = move_entry(
                self.selection,
                entries,
                mctx.input.is_key_pressed(GameKey::Up),
                mctx.input.is_key_pressed(GameKey::Down),
            );
            self.update_cursor_pos();
            self.title.animate();
            Poll::Pending
        } else if mctx.input.is_key_pressed(GameKey::DebugMenu) && self.selection == 0 {
            mctx.audio.play_sfx(Sfx::Confirm);
            self.phase = TitlePhase::Start;
            Poll::Ready(TitleEvent::NewGame(false))
        } else {
            self.title.animate();
            Poll::Pending
        }
    }

    /// Runs the title screen up to its next suspension point or to its end.
    pub fn update(&mut self, mctx: &mut ModeContext) -> (r: Poll<TitleEvent>)
        requires
            old(self).wf(),
            old(mctx).audio.wf(),
        ensures
            final(self).step(old(self), final(mctx), old(mctx), r),
            final(mctx).audio.wf(),
    {
        match self.phase {
            TitlePhase::Start => {
                if self.confirm_pressed {
                    self.open_menu();
                } else {
                    mctx.fade.in_from_black(FADE_FRAMES);
                    let _ = mctx.fade.to_color();
                    self.phase = TitlePhase::FadeIn;
                }
                Poll::Pending
            },
            TitlePhase::FadeIn => {
                match mctx.fade.to_color() {
                    Poll::Pending => {},
                    Poll::Ready(_) => {
                        self.begin_confirm();
                    },
                }
                Poll::Pending
            },
            TitlePhase::RevealConfirm => {
                self.confirm_text.show_one_char();
                if self.confirm_text.all_chars_shown() {
                    self.phase = TitlePhase::WaitConfirm;
                }
                Poll::Pending
            },
            TitlePhase::WaitConfirm => {
                if mctx.input.is_key_pressed(GameKey::Confirm) {
                    self.confirm_pressed = true;
                    self.confirm_text.set_text("");
                    mctx.audio.play_sfx(Sfx::Confirm);
                    self.open_menu();
                }
                Poll::Pending
            },
            TitlePhase::Menu => self.poll_menu(mctx),
        }
    }
}

} // verus!
