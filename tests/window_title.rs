use host_bridge::{get_active_window_title, CommandOutput, Invocation, Platform};
use std::cell::RefCell;

fn completed(success: bool, stdout: &[u8]) -> CommandOutput {
    CommandOutput::Completed { success, stdout: stdout.to_vec(), stderr: Vec::new() }
}

fn no_window() -> Option<Vec<u16>> {
    None
}

fn never_run(_inv: Invocation) -> CommandOutput {
    panic!("no process should be started")
}

#[test]
fn windows_title_from_foreground_window() {
    let units: Vec<u16> = "Untitled - Notepad".encode_utf16().collect();
    let r = get_active_window_title(Platform::Windows, move || Some(units), never_run);
    assert_eq!(r, Ok("Untitled - Notepad".to_string()));
}

#[test]
fn windows_title_replaces_unpaired_surrogates() {
    let units: Vec<u16> = vec![0x0041, 0xD800, 0x0042];
    let r = get_active_window_title(Platform::Windows, move || Some(units), never_run);
    assert_eq!(r, Ok("A\u{FFFD}B".to_string()));
}

#[test]
fn windows_without_foreground_window() {
    let r = get_active_window_title(Platform::Windows, no_window, never_run);
    assert_eq!(r, Err("No active window found".to_string()));
}

#[test]
fn windows_empty_title_is_a_failure() {
    let r = get_active_window_title(Platform::Windows, || Some(Vec::new()), never_run);
    assert_eq!(r, Err("Failed to get window title".to_string()));
}

#[test]
fn macos_frontmost_application_is_trimmed() {
    let seen = RefCell::new(Vec::new());
    let r = get_active_window_title(Platform::MacOs, no_window, |inv: Invocation| {
        seen.borrow_mut().push((inv.program.clone(), inv.args.clone()));
        completed(true, b"  Finder\n")
    });
    assert_eq!(r, Ok("Finder".to_string()));
    let seen = seen.into_inner();
    assert_eq!(seen.len(), 1);
    assert_eq!(seen[0].0, "osascript");
    assert_eq!(
        seen[0].1,
        vec![
            "-e".to_string(),
            "tell application \"System Events\" to get name of first application process whose frontmost is true"
                .to_string()
        ]
    );
}

#[test]
fn macos_spawn_failure() {
    let r = get_active_window_title(Platform::MacOs, no_window, |_inv: Invocation| {
        CommandOutput::SpawnFailed { message: "not found".to_string() }
    });
    assert_eq!(r, Err("Failed to get active window: not found".to_string()));
}

#[test]
fn linux_primary_title_is_used() {
    let seen = RefCell::new(Vec::new());
    let r = get_active_window_title(Platform::Linux, no_window, |inv: Invocation| {
        seen.borrow_mut().push(inv.program.clone());
        completed(true, b"Terminal - ~/src\n")
    });
    assert_eq!(r, Ok("Terminal - ~/src".to_string()));
    assert_eq!(seen.into_inner(), vec!["xdotool".to_string()]);
}

#[test]
fn linux_falls_back_to_quoted_output() {
    let seen = RefCell::new(Vec::new());
    let r = get_active_window_title(Platform::Linux, no_window, |inv: Invocation| {
        seen.borrow_mut().push((inv.program.clone(), inv.args.clone()));
        if inv.program == "xdotool" {
            completed(false, b"")
        } else {
            completed(true, b"WM_NAME(STRING) = \"My Window\"\n")
        }
    });
    assert_eq!(r, Ok("My Window".to_string()));
    let seen = seen.into_inner();
    assert_eq!(seen.len(), 2);
    assert_eq!(seen[0].0, "xdotool");
    assert_eq!(seen[0].1, vec!["getactivewindow".to_string(), "getwindowname".to_string()]);
    assert_eq!(seen[1].0, "xprop");
    assert_eq!(seen[1].1[0], "-id");
    assert_eq!(seen[1].1[2], "WM_NAME");
}

#[test]
fn linux_fallback_after_spawn_failure() {
    let r = get_active_window_title(Platform::Linux, no_window, |inv: Invocation| {
        if inv.program == "xdotool" {
            CommandOutput::SpawnFailed { message: "No such file or directory".to_string() }
        } else {
            completed(true, b"WM_NAME(UTF8_STRING) = \"caf\xc3\xa9\"")
        }
    });
    assert_eq!(r, Ok("café".to_string()));
}

#[test]
fn linux_fallback_without_quotes_fails() {
    let r = get_active_window_title(Platform::Linux, no_window, |inv: Invocation| {
        if inv.program == "xdotool" {
            completed(false, b"")
        } else {
            completed(true, b"WM_NAME:  not found.\n")
        }
    });
    assert_eq!(r, Err("Failed to get active window on Linux".to_string()));
}

#[test]
fn linux_both_queries_fail() {
    let r = get_active_window_title(Platform::Linux, no_window, |_inv: Invocation| {
        completed(false, b"\"quoted\" but failed")
    });
    assert_eq!(r, Err("Failed to get active window on Linux".to_string()));
}

#[test]
fn other_platform_is_unsupported() {
    let r = get_active_window_title(Platform::Other, no_window, never_run);
    assert_eq!(r, Err("Window detection not supported on this platform".to_string()));
}
