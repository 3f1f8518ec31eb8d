//! The editing engine of a small terminal text editor: a line buffer, a
//! cursor and viewport over it, the renderer that turns both into the bytes
//! of one terminal frame, and the decoder that turns key bytes into actions.

pub mod ansi;
pub mod buffer;
pub mod cursor;
pub mod editor;
pub mod input;
pub mod render;
pub mod screen;
pub mod session;
pub mod text;

pub use ansi::{refresh_screen, send_esc_seq, CtrlSeq, CursorPosition};
pub use editor::{Editor, StartupFailure, SystemMessage};
pub use input::{ctrl_key, handle_escape_seq, Action, EscapeKey, InvalidEscapeSequence, NavigationKey};
pub use render::{render_row, render_width, TAB_SIZE};
pub use session::Command;
pub use text::{join_lines, split_lines};
