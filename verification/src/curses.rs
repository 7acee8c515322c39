//! Trusted boundary to the curses backend. Every function here is an
//! `external_body` wrapper around exactly one pancurses call; nothing else
//! in the crate touches the backend directly.

use vstd::prelude::*;
use crate::key::RawInput;

verus! {

#[verifier::external_type_specification]
#[verifier::external_body]
pub struct ExWindow(pancurses::Window);

/// Relies on pancurses::initscr: acquires the one screen/session handle.
/// If no terminal can be acquired, the underlying library terminates the
/// process rather than returning.
#[verifier::external_body]
pub(crate) fn win_initscr() -> pancurses::Window {
    pancurses::initscr()
}

/// Relies on pancurses::raw: puts the controlling process into raw
/// (non-cooked) input mode.
#[verifier::external_body]
pub(crate) fn enter_raw_mode() {
    pancurses::raw();
}

/// Relies on pancurses::noraw: leaves raw input mode.
#[verifier::external_body]
pub(crate) fn leave_raw_mode() {
    pancurses::noraw();
}

/// Relies on pancurses::resize_term: fixes the addressable display region
/// to the given number of lines and columns.
#[verifier::external_body]
pub(crate) fn resize_screen(lines: i32, cols: i32) {
    pancurses::resize_term(lines, cols);
}

/// Relies on pancurses::Window::keypad: toggles decoding of special keys
/// (arrows, home, end, ...) into dedicated input events.
#[verifier::external_body]
pub(crate) fn win_keypad(w: &pancurses::Window, on: bool) {
    w.keypad(on);
}

/// Relies on pancurses::echo: makes the backend draw raw input characters
/// automatically.
#[verifier::external_body]
pub(crate) fn echo_input() {
    pancurses::echo();
}

/// Relies on pancurses::noecho: stops the backend from drawing raw input
/// characters automatically.
#[verifier::external_body]
pub(crate) fn no_echo_input() {
    pancurses::noecho();
}

/// Relies on pancurses::curs_set: sets cursor visibility, 0 for hidden and
/// 1 for visible.
#[verifier::external_body]
pub(crate) fn set_cursor_visibility(visibility: i32) {
    pancurses::curs_set(visibility);
}

/// Relies on pancurses::Window::scrollok: toggles scroll-on-overflow for
/// the window.
#[verifier::external_body]
pub(crate) fn win_scrollok(w: &pancurses::Window, on: bool) {
    w.scrollok(on);
}

/// Relies on pancurses::Window::setscrreg: configures the vertical scroll
/// region of the window.
#[verifier::external_body]
pub(crate) fn win_setscrreg(w: &pancurses::Window, top: i32, bottom: i32) {
    w.setscrreg(top, bottom);
}

/// Relies on pancurses::start_color: enables color output for the session.
#[verifier::external_body]
pub(crate) fn enable_color_support() {
    pancurses::start_color();
}

/// Relies on pancurses::init_pair: registers the (foreground, background)
/// color pair under the given pair index.
#[verifier::external_body]
pub(crate) fn register_color_pair(pair: i16, foreground: i16, background: i16) {
    pancurses::init_pair(pair, foreground, background);
}

/// Relies on pancurses::COLOR_PAIR, which on this backend shifts the pair
/// index into the attribute's color field.
#[verifier::external_body]
pub(crate) fn pair_attribute(pair: i16) -> (a: u32)
    requires
        pair >= 0,
    ensures
        a == (pair as u32) << 8,
{
    pancurses::COLOR_PAIR(pair as pancurses::chtype)
}

/// Relies on pancurses::Window::attrset: sets the active display attribute
/// applied to subsequently written text.
#[verifier::external_body]
pub(crate) fn win_attrset(w: &pancurses::Window, attribute: u32) {
    w.attrset(attribute);
}

/// Relies on pancurses::Window::addstr: writes the string verbatim at the
/// current cursor position, advancing the cursor. The backend hands the
/// text to C as a NUL-terminated string and panics on an interior NUL, so
/// such text is excluded.
#[verifier::external_body]
pub(crate) fn win_addstr(w: &pancurses::Window, s: &str)
    requires
        crate::terminal::no_nul(s@),
{
    w.addstr(s);
}

/// Relies on pancurses::Window::mvaddch: writes one character at display
/// coordinate (y, x).
#[verifier::external_body]
pub(crate) fn win_put_char(w: &pancurses::Window, y: i32, x: i32, ch: char) {
    w.mvaddch(y, x, ch);
}

/// Relies on pancurses::Window::getch: reads the next input event, blocking
/// according to the configured timeout. What comes back depends on the user
/// and on the timing, so nothing is promised of the result; each backend
/// event variant is passed on one for one.
#[verifier::external_body]
pub(crate) fn win_read(w: &pancurses::Window) -> Option<RawInput> {
    match w.getch() {
        None => None,
        Some(pancurses::Input::Character(ch)) => Some(RawInput::Character(ch)),
        Some(pancurses::Input::KeyBackspace) => Some(RawInput::BackspaceKey),
        Some(pancurses::Input::KeyLeft) => Some(RawInput::LeftKey),
        Some(pancurses::Input::KeyRight) => Some(RawInput::RightKey),
        Some(pancurses::Input::KeyUp) => Some(RawInput::UpKey),
        Some(pancurses::Input::KeyDown) => Some(RawInput::DownKey),
        Some(pancurses::Input::KeyHome) => Some(RawInput::HomeKey),
        Some(pancurses::Input::KeyEnd) => Some(RawInput::EndKey),
        Some(pancurses::Input::Unknown(code)) => Some(RawInput::Unrecognized(code)),
        Some(_) => Some(RawInput::OtherKey),
    }
}

/// Relies on pancurses::Window::timeout: configures how long a read blocks,
/// 0 for a non-blocking poll and a negative value for blocking indefinitely.
#[verifier::external_body]
pub(crate) fn win_timeout(w: &pancurses::Window, milliseconds: i32) {
    w.timeout(milliseconds);
}

/// Relies on pancurses::def_prog_mode: saves the current program-mode
/// display state.
#[verifier::external_body]
pub(crate) fn save_program_mode() {
    pancurses::def_prog_mode();
}

/// Relies on pancurses::def_shell_mode: saves the current shell-mode
/// display state.
#[verifier::external_body]
pub(crate) fn save_shell_mode() {
    pancurses::def_shell_mode();
}

/// Relies on pancurses::reset_prog_mode: restores the saved program-mode
/// display state.
#[verifier::external_body]
pub(crate) fn restore_program_mode() {
    pancurses::reset_prog_mode();
}

/// Relies on pancurses::reset_shell_mode: restores the saved shell-mode
/// display state.
#[verifier::external_body]
pub(crate) fn restore_shell_mode() {
    pancurses::reset_shell_mode();
}

/// Relies on pancurses::endwin: restores the terminal to normal (cooked,
/// windowed) mode. Does not panic, so it is safe to call while unwinding.
#[verifier::external_body]
pub(crate) fn end_win()
    opens_invariants none
    no_unwind
{
    pancurses::endwin();
}

/// Relies on pancurses::doupdate: flushes all pending display changes to
/// the physical screen.
#[verifier::external_body]
pub(crate) fn screen_update() {
    pancurses::doupdate();
}

/// Relies on pancurses::Window::refresh: flushes the window's buffered
/// content to the display.
#[verifier::external_body]
pub(crate) fn win_refresh(w: &pancurses::Window) {
    w.refresh();
}

/// Relies on pancurses::Window::touch: marks the whole window dirty so the
/// next refresh redraws it entirely.
#[verifier::external_body]
pub(crate) fn win_touch(w: &pancurses::Window) {
    w.touch();
}

/// Relies on pancurses::Window::clear: erases the display buffer.
#[verifier::external_body]
pub(crate) fn win_clear(w: &pancurses::Window) {
    w.clear();
}

/// Relies on pancurses::Window::clrtoeol: erases from the cursor to the end
/// of the current line.
#[verifier::external_body]
pub(crate) fn win_clrtoeol(w: &pancurses::Window) {
    w.clrtoeol();
}

/// Relies on pancurses::Window::mv: moves the cursor to display coordinate
/// (y, x).
#[verifier::external_body]
pub(crate) fn win_move(w: &pancurses::Window, y: i32, x: i32) {
    w.mv(y, x);
}

/// Relies on pancurses::Window::get_max_x: the width of the addressable
/// region. Depends on the terminal the process runs in, so nothing is
/// promised of the result.
#[verifier::external_body]
pub(crate) fn win_max_x(w: &pancurses::Window) -> i32 {
    w.get_max_x()
}

/// Relies on pancurses::Window::get_max_y: the height of the addressable
/// region. Depends on the terminal the process runs in, so nothing is
/// promised of the result.
#[verifier::external_body]
pub(crate) fn win_max_y(w: &pancurses::Window) -> i32 {
    w.get_max_y()
}

/// Relies on pancurses::Window::get_cur_x: the cursor's current column.
/// Depends on the session's drawing history, so nothing is promised of the
/// result.
#[verifier::external_body]
pub(crate) fn win_cur_x(w: &pancurses::Window) -> i32 {
    w.get_cur_x()
}

/// Relies on pancurses::Window::get_cur_y: the cursor's current row.
/// Depends on the session's drawing history, so nothing is promised of the
/// result.
#[verifier::external_body]
pub(crate) fn win_cur_y(w: &pancurses::Window) -> i32 {
    w.get_cur_y()
}

/// Relies on pancurses::Window::dupwin: duplicates the window handle
/// without re-acquiring any terminal mode.
#[verifier::external_body]
pub(crate) fn win_duplicate(w: &pancurses::Window) -> pancurses::Window {
    w.dupwin()
}

} // verus!
