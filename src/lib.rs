//! Host capability bridge: the decisions behind the commands that an embedded
//! web UI issues to learn about the desktop (cursor position, clipboard text,
//! foreground window title) and to run shell commands.
//!
//! Each command is a pure function of what the host reported. The host's
//! own work (reading the cursor, spawning a process) is handed in by the
//! caller, either as a plain value or as a function that performs it.
mod clipboard;
mod cursor;
mod host;
mod shell;
mod text;
mod window;

pub use clipboard::{clipboard_outcome, get_clipboard_text, ClipboardRead};
pub use cursor::{cursor_of, get_mouse_position, CursorPosition, MouseReading};
pub use host::{text_result, CommandOutput, Invocation, Platform};
pub use shell::{
    execute_shell_command, shell_failures_carry_a_message, shell_for, shell_invocation,
    shell_outcome, shell_result, successful_run_never_fails,
};
pub use text::{
    between_outer_quotes, framed_text_between_outer_quotes, has_two_quotes, is_first_quote,
    is_last_quote, quoted_span, trimmed, unquoted_text_has_no_span, utf16_lossy, utf8_lossy,
};
pub use window::{
    fallback_takes_quoted_title, fallback_without_quotes_fails, foreground_title,
    foreground_window_title, frontmost_app_query, frontmost_app_result, frontmost_app_title,
    get_active_window_title, linux_title, primary_query, primary_result, primary_title,
    secondary_query, secondary_result, secondary_title,
};
