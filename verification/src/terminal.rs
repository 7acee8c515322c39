//! The terminal session: lifecycle, configuration, input retrieval and
//! output, specified against a mathematical model of the session.

use vstd::prelude::*;
use crate::color::Color;
use crate::color::ColorString;
use crate::curses;
use crate::key::Key;
use crate::key::RawInput;
use crate::key::spec_translate;

verus! {

/// The model of one terminal session: the session-wide flags, the display
/// size last requested of the backend as (rows, columns), the color pairs
/// registered so far (pair index to (foreground, background)), the active
/// display attribute, the configured input timeout (`None` blocks
/// indefinitely), the stream of text handed to the window by the print
/// operations, and the characters placed by positioned prints as
/// (column, row, character) triples.
#[verifier::ext_equal]
pub ghost struct Session {
    pub echo: bool,
    pub cursor_visible: bool,
    pub scrolling: bool,
    pub raw_mode: bool,
    pub keypad: bool,
    pub colors_ready: bool,
    pub active: bool,
    pub size: (i32, i32),
    pub pairs: Map<i16, (i16, i16)>,
    pub attribute: Option<Color>,
    pub timeout: Option<u32>,
    pub written: Seq<char>,
    pub cells: Seq<(int, int, char)>,
}

/// Text that can be handed to the backend: the backend terminates its
/// strings with NUL, so the text itself may not contain one.
pub open spec fn no_nul(s: Seq<char>) -> bool {
    forall|i: int| 0 <= i < s.len() ==> s[i] != '\0'
}

/// The color pairs a color-enabled session registers: one pair per color
/// number, each with foreground that color and background black.
pub open spec fn spec_color_pairs() -> Map<i16, (i16, i16)> {
    Map::<i16, (i16, i16)>::empty().insert(0, (0, 0)).insert(1, (1, 0)).insert(2, (2, 0)).insert(
        3,
        (3, 0),
    ).insert(4, (4, 0)).insert(5, (5, 0)).insert(6, (6, 0)).insert(7, (7, 0))
}

/// The color-pair index each color is registered under, following the
/// curses numbering; untagged (default) text falls back to the white pair.
pub open spec fn spec_pair_index(c: Color) -> i16 {
    match c {
        Color::Black => 0,
        Color::Red => 1,
        Color::Green => 2,
        Color::Yellow => 3,
        Color::Blue => 4,
        Color::Magenta => 5,
        Color::Cyan => 6,
        Color::White => 7,
        Color::Default => 7,
    }
}

/// The color-pair index used for text tagged with `c`.
pub fn pair_index(c: Color) -> (i: i16)
    ensures
        i == spec_pair_index(c),
{
    match c {
        Color::Black => 0,
        Color::Red => 1,
        Color::Green => 2,
        Color::Yellow => 3,
        Color::Blue => 4,
        Color::Magenta => 5,
        Color::Cyan => 6,
        Color::White => 7,
        Color::Default => 7,
    }
}

/// The cells a positioned print fills: starting at column `x` and row `y`
/// with per-call left margin `x0`, each character is placed at the current
/// position and the column then advances, and a newline advances to the
/// next row and returns to the margin without placing anything.
pub open spec fn spec_layout(x0: int, x: int, y: int, s: Seq<char>) -> Seq<(int, int, char)>
    decreases s.len(),
{
    if s.len() == 0 {
        Seq::empty()
    } else if s[0] == '\n' {
        spec_layout(x0, x0, y + 1, s.drop_first())
    } else {
        seq![(x, y, s[0])] + spec_layout(x0, x + 1, y, s.drop_first())
    }
}

/// One terminal session. The handle owns the backend window; the ghost
/// model records the session state that the contracts speak of.
pub struct Terminal {
    win: pancurses::Window,
    model: Ghost<Session>,
}

impl Terminal {
    /// The model of this session.
    pub closed spec fn sess(self) -> Session {
        self.model@
    }

    /// Acquire the terminal: enter raw input mode, fix the display to the
    /// 24-row, 80-column baseline, enable special-key decoding, and leave
    /// the session with echo disabled, scrolling disabled and the cursor
    /// hidden. If no terminal can be acquired the process terminates.
    pub fn new() -> (t: Terminal)
        ensures
            t.sess() == (Session {
                echo: false,
                cursor_visible: false,
                scrolling: false,
                raw_mode: true,
                keypad: true,
                colors_ready: false,
                active: true,
                size: (24i32, 80i32),
                pairs: Map::<i16, (i16, i16)>::empty(),
                attribute: None::<Color>,
                timeout: None::<u32>,
                written: Seq::<char>::empty(),
                cells: Seq::<(int, int, char)>::empty(),
            }),
    {
        let win = curses::win_initscr();
        curses::enter_raw_mode();
        curses::resize_screen(24, 80);
        curses::win_keypad(&win, true);
        let mut t = Terminal {
            win,
            model: Ghost(
                Session {
                    echo: true,
                    cursor_visible: true,
                    scrolling: true,
                    raw_mode: true,
                    keypad: true,
                    colors_ready: false,
                    active: true,
                    size: (24, 80),
                    pairs: Map::empty(),
                    attribute: None,
                    timeout: None,
                    written: Seq::empty(),
                    cells: Seq::empty(),
                },
            ),
        };
        t.disable_echo();
        t.disable_scrolling();
        t.hide_cursor();
        t
    }

    /// Acquire the terminal as `new` does, then enable color output and
    /// register one color pair per color, each mapped to itself on a black
    /// background: the resulting session holds exactly `spec_color_pairs`.
    pub fn with_color() -> (t: Terminal)
        ensures
            t.sess() == (Session {
                echo: false,
                cursor_visible: false,
                scrolling: false,
                raw_mode: true,
                keypad: true,
                colors_ready: true,
                active: true,
                size: (24i32, 80i32),
                pairs: spec_color_pairs(),
                attribute: None::<Color>,
                timeout: None::<u32>,
                written: Seq::<char>::empty(),
                cells: Seq::<(int, int, char)>::empty(),
            }),
    {
        let mut t = Terminal::new();
        curses::enable_color_support();
        let black = pair_index(Color::Black);
        t.register_pair(pair_index(Color::White), black);
        t.register_pair(pair_index(Color::Red), black);
        t.register_pair(pair_index(Color::Blue), black);
        t.register_pair(pair_index(Color::Green), black);
        t.register_pair(pair_index(Color::Cyan), black);
        t.register_pair(pair_index(Color::Yellow), black);
        t.register_pair(pair_index(Color::Magenta), black);
        t.register_pair(black, black);
        t.model = Ghost(Session { colors_ready: true, ..t.model@ });
        proof {
            assert(t.model@.pairs =~= spec_color_pairs());
            assert(t.sess() =~= (Session {
                echo: false,
                cursor_visible: false,
                scrolling: false,
                raw_mode: true,
                keypad: true,
                colors_ready: true,
                active: true,
                size: (24i32, 80i32),
                pairs: spec_color_pairs(),
                attribute: None::<Color>,
                timeout: None::<u32>,
                written: Seq::<char>::empty(),
                cells: Seq::<(int, int, char)>::empty(),
            }));
        }
        t
    }

    /// Register one color pair with the backend, under the pair index of
    /// its foreground color, and record the registration in the model.
    fn register_pair(&mut self, pair: i16, background: i16)
        ensures
            final(self).sess() == (Session {
                pairs: old(self).sess().pairs.insert(pair, (pair, background)),
                ..old(self).sess()
            }),
    {
        curses::register_color_pair(pair, pair, background);
        self.model = Ghost(
            Session { pairs: self.model@.pairs.insert(pair, (pair, background)), ..self.model@ },
        );
    }

    /// Hide the cursor; its position is not affected.
    pub fn hide_cursor(&mut self)
        ensures
            final(self).sess() == (Session { cursor_visible: false, ..old(self).sess() }),
    {
        curses::set_cursor_visibility(0);
        self.model = Ghost(Session { cursor_visible: false, ..self.model@ });
    }

    /// Show the cursor; its position is not affected.
    pub fn show_cursor(&mut self)
        ensures
            final(self).sess() == (Session { cursor_visible: true, ..old(self).sess() }),
    {
        curses::set_cursor_visibility(1);
        self.model = Ghost(Session { cursor_visible: true, ..self.model@ });
    }

    /// Make the backend draw raw input characters automatically.
    pub fn enable_echo(&mut self)
        ensures
            final(self).sess() == (Session { echo: true, ..old(self).sess() }),
    {
        curses::echo_input();
        self.model = Ghost(Session { echo: true, ..self.model@ });
    }

    /// Stop the backend from drawing raw input characters automatically.
    pub fn disable_echo(&mut self)
        ensures
            final(self).sess() == (Session { echo: false, ..old(self).sess() }),
    {
        curses::no_echo_input();
        self.model = Ghost(Session { echo: false, ..self.model@ });
    }

    /// Expand the addressable region to the maximum representable extent
    /// and turn on automatic scroll-on-overflow.
    pub fn enable_scrolling(&mut self)
        ensures
            final(self).sess() == (Session {
                scrolling: true,
                size: (i32::MAX, i32::MAX),
                ..old(self).sess()
            }),
    {
        curses::resize_screen(i32::MAX, i32::MAX);
        curses::win_setscrreg(&self.win, i32::MIN, i32::MAX);
        curses::win_scrollok(&self.win, true);
        self.model = Ghost(
            Session { scrolling: true, size: (i32::MAX, i32::MAX), ..self.model@ },
        );
    }

    /// Turn automatic scroll-on-overflow off without changing the region
    /// size.
    pub fn disable_scrolling(&mut self)
        ensures
            final(self).sess() == (Session { scrolling: false, ..old(self).sess() }),
    {
        curses::win_scrollok(&self.win, false);
        self.model = Ghost(Session { scrolling: false, ..self.model@ });
    }

    /// Read the next key. `None` only when a finite timeout is configured
    /// and expires with no pending input; otherwise the raw event, whatever
    /// it was, decodes to exactly one logical key.
    pub fn get_key(&self) -> (r: Option<Key>)
        ensures
            r matches Some(k) ==> exists|raw: RawInput| k == spec_translate(raw),
    {
        match curses::win_read(&self.win) {
            Some(raw) => Some(Key::translate(raw)),
            None => None,
        }
    }

    /// Configure how long `get_key` blocks: 0 polls without blocking and
    /// any other value blocks up to that many milliseconds. The backend
    /// takes a signed count, so a value beyond its positive range wraps to
    /// a negative one and blocks indefinitely, which the model records as
    /// no timeout.
    pub fn set_input_timeout(&mut self, milliseconds: u32)
        ensures
            final(self).sess() == (Session {
                timeout: if milliseconds <= i32::MAX as u32 {
                    Some(milliseconds)
                } else {
                    None::<u32>
                },
                ..old(self).sess()
            }),
    {
        curses::win_timeout(&self.win, #[verifier::truncate] (milliseconds as i32));
        let ghost recorded: Option<u32> = if milliseconds <= i32::MAX as u32 {
            Some(milliseconds)
        } else {
            None
        };
        self.model = Ghost(Session { timeout: recorded, ..self.model@ });
    }

    /// Save the program-mode display state, leave raw mode, restore the
    /// shell's own terminal mode and tear the window down, for shelling out
    /// to another program. Must be paired with `resume`.
    pub fn pause(&mut self)
        requires
            old(self).sess().active,
        ensures
            final(self).sess() == (Session {
                active: false,
                raw_mode: false,
                ..old(self).sess()
            }),
    {
        curses::save_program_mode();
        curses::leave_raw_mode();
        curses::restore_shell_mode();
        curses::end_win();
        self.model = Ghost(Session { active: false, raw_mode: false, ..self.model@ });
    }

    /// Re-establish the session after `pause`: save the shell mode,
    /// re-enter raw mode, restore the saved program state and force a full
    /// redraw. Every session flag and output record is exactly as before
    /// the pause.
    pub fn resume(&mut self)
        requires
            !old(self).sess().active,
        ensures
            final(self).sess() == (Session {
                active: true,
                raw_mode: true,
                ..old(self).sess()
            }),
    {
        curses::save_shell_mode();
        curses::enter_raw_mode();
        curses::restore_program_mode();
        curses::win_refresh(&self.win);
        curses::screen_update();
        self.model = Ghost(Session { active: true, raw_mode: true, ..self.model@ });
    }

    /// Mark the whole display dirty and flush it.
    pub fn refresh(&self) {
        curses::win_touch(&self.win);
        curses::win_refresh(&self.win);
    }

    /// Erase the display buffer; the change shows at the next flush.
    pub fn clear(&self) {
        curses::win_clear(&self.win);
    }

    /// Set the active display attribute to the pair registered for the
    /// content's color and write exactly its text, nothing more. The
    /// backend cannot carry an interior NUL, so such text is excluded.
    pub fn print(&mut self, s: ColorString)
        requires
            no_nul(s.1@),
        ensures
            final(self).sess() == (Session {
                written: old(self).sess().written + s.1@,
                attribute: Some(s.0),
                ..old(self).sess()
            }),
    {
        let pair = pair_index(s.to_color());
        let attribute = curses::pair_attribute(pair);
        curses::win_attrset(&self.win, attribute);
        let text = s.text();
        curses::win_addstr(&self.win, text.as_str());
        self.model = Ghost(
            Session { written: self.model@.written + s.1@, attribute: Some(s.0), ..self.model@ },
        );
    }

    /// Like `print`, but append one newline and one carriage return after
    /// the content's text, so the next write starts at the left margin.
    pub fn println(&mut self, s: ColorString)
        requires
            no_nul(s.1@),
        ensures
            final(self).sess() == (Session {
                written: old(self).sess().written + s.1@ + "\n\r"@,
                attribute: Some(s.0),
                ..old(self).sess()
            }),
    {
        let color = s.to_color();
        let mut text = s.text();
        text.append("\n\r");
        proof {
            reveal_strlit("\n\r");
            assert forall|i: int| 0 <= i < text@.len() implies text@[i] != '\0' by {
                if i < s.1@.len() {
                    assert(text@[i] == s.1@[i]);
                } else {
                    assert(text@[i] == ("\n\r")@[i - s.1@.len()]);
                }
            }
        }
        self.print(ColorString(color, text));
        proof {
            assert(final(self).sess().written =~= old(self).sess().written + s.1@ + "\n\r"@);
            assert(final(self).sess() =~= (Session {
                written: old(self).sess().written + s.1@ + "\n\r"@,
                attribute: Some(s.0),
                ..old(self).sess()
            }));
        }
    }

    /// Like `print`, but place the text character by character starting at
    /// display coordinate (x, y): each character is placed at the current
    /// position and the column then advances, and an embedded newline
    /// advances to the next row and returns to the initial x, a per-call
    /// left margin.
    pub fn move_print(&mut self, x: i32, y: i32, s: ColorString)
        requires
            x + s.1@.len() <= i32::MAX,
            y + s.1@.len() <= i32::MAX,
        ensures
            final(self).sess() == (Session {
                cells: old(self).sess().cells + spec_layout(x as int, x as int, y as int, s.1@),
                attribute: Some(s.0),
                ..old(self).sess()
            }),
    {
        let pair = pair_index(s.to_color());
        let attribute = curses::pair_attribute(pair);
        curses::win_attrset(&self.win, attribute);
        self.model = Ghost(Session { attribute: Some(s.0), ..self.model@ });
        let ghost mid: Session = self.model@;
        let text = s.text();
        let n = text.as_str().unicode_len();
        let mut cur_x = x;
        let mut cur_y = y;
        let mut i: usize = 0;
        proof {
            assert(s.1@.skip(0) =~= s.1@);
        }
        while i < n
            invariant
                text@ == s.1@,
                n == s.1@.len(),
                i <= n,
                x + n <= i32::MAX,
                y + n <= i32::MAX,
                x <= cur_x <= x + i,
                y <= cur_y <= y + i,
                self.sess() == (Session { cells: self.sess().cells, ..mid }),
                mid.cells + spec_layout(x as int, x as int, y as int, s.1@) == self.sess().cells
                    + spec_layout(x as int, cur_x as int, cur_y as int, s.1@.skip(i as int)),
            decreases n - i,
        {
            let ghost rest: Seq<char> = s.1@.skip(i as int);
            proof {
                assert(rest.len() == n - i);
                assert(rest[0] == s.1@[i as int]);
                assert(rest.drop_first() =~= s.1@.skip(i as int + 1));
            }
            let ch = text.as_str().get_char(i);
            if ch == '\n' {
                cur_y = cur_y + 1;
                cur_x = x;
            } else {
                curses::win_put_char(&self.win, cur_y, cur_x, ch);
                let ghost prev_cells: Seq<(int, int, char)> = self.model@.cells;
                self.model = Ghost(
                    Session {
                        cells: self.model@.cells + seq![(cur_x as int, cur_y as int, ch)],
                        ..self.model@
                    },
                );
                proof {
                    assert(prev_cells + (seq![(cur_x as int, cur_y as int, ch)] + spec_layout(
                        x as int,
                        cur_x as int + 1,
                        cur_y as int,
                        rest.drop_first(),
                    )) =~= (prev_cells + seq![(cur_x as int, cur_y as int, ch)]) + spec_layout(
                        x as int,
                        cur_x as int + 1,
                        cur_y as int,
                        rest.drop_first(),
                    ));
                }
                cur_x = cur_x + 1;
            }
            i = i + 1;
        }
        proof {
            assert(s.1@.skip(n as int) =~= Seq::<char>::empty());
            assert(self.sess().cells =~= mid.cells + spec_layout(
                x as int,
                x as int,
                y as int,
                s.1@,
            ));
            assert(self.sess() =~= (Session {
                cells: old(self).sess().cells + spec_layout(x as int, x as int, y as int, s.1@),
                attribute: Some(s.0),
                ..old(self).sess()
            }));
        }
    }

    /// Return to column 0 of the current row and erase to the end of the
    /// line.
    pub fn clear_current_line(&mut self)
        ensures
            final(self).sess() == (Session {
                written: old(self).sess().written + "\r"@,
                attribute: Some(Color::Default),
                ..old(self).sess()
            }),
    {
        let text = "\r".to_owned();
        proof {
            reveal_strlit("\r");
            assert(no_nul(text@));
        }
        self.print(ColorString(Color::Default, text));
        curses::win_clrtoeol(&self.win);
    }

    /// Move the cursor to display coordinate (x, y). Out-of-range
    /// coordinates are passed through to the backend's own behavior.
    pub fn move_cursor(&self, x: i32, y: i32) {
        curses::win_move(&self.win, y, x);
    }

    /// The addressable region's (width, height).
    pub fn get_size(&self) -> (i32, i32) {
        (self.get_width(), self.get_height())
    }

    /// The addressable region's width.
    pub fn get_width(&self) -> i32 {
        curses::win_max_x(&self.win)
    }

    /// The addressable region's height.
    pub fn get_height(&self) -> i32 {
        curses::win_max_y(&self.win)
    }

    /// The cursor's current (column, row).
    pub fn get_cursor(&self) -> (i32, i32) {
        (self.get_cursor_x(), self.get_cursor_y())
    }

    /// The cursor's current column.
    pub fn get_cursor_x(&self) -> i32 {
        curses::win_cur_x(&self.win)
    }

    /// The cursor's current row.
    pub fn get_cursor_y(&self) -> i32 {
        curses::win_cur_y(&self.win)
    }

    /// Restore the terminal to normal mode. The session must still be
    /// active: calling it twice, or using the session afterwards, is not
    /// supported.
    pub fn quit(&mut self)
        requires
            old(self).sess().active,
        ensures
            final(self).sess() == (Session {
                active: false,
                raw_mode: false,
                ..old(self).sess()
            }),
    {
        curses::end_win();
        self.model = Ghost(Session { active: false, raw_mode: false, ..self.model@ });
    }
}

impl Clone for Terminal {
    /// Duplicate the handle to the same underlying session; no terminal
    /// mode is re-acquired and no color pair is re-registered.
    fn clone(&self) -> (r: Self)
        ensures
            r.sess() == self.sess(),
    {
        let win = curses::win_duplicate(&self.win);
        Terminal { win, model: Ghost(self.model@) }
    }
}

impl Drop for Terminal {
    /// Dropping the handle always restores the terminal to normal mode,
    /// exactly once per handle, on every exit path.
    fn drop(&mut self)
        opens_invariants none
        no_unwind
    {
        curses::end_win();
    }
}

/// Pausing and then resuming a session returns it to exactly the state it
/// had before: with `pause` clearing the active and raw-mode flags and
/// touching nothing else, and `resume` setting them back, every flag, the
/// registered pairs, the attribute, the timeout and both output records
/// round-trip unchanged. An active session always has raw mode on, so the
/// requirement covers every state `pause` accepts.
pub proof fn lemma_pause_resume_round_trip(before: Session, paused: Session, after: Session)
    requires
        before.active,
        before.raw_mode,
        paused == (Session { active: false, raw_mode: false, ..before }),
        after == (Session { active: true, raw_mode: true, ..paused }),
    ensures
        after == before,
{
}

} // verus!
