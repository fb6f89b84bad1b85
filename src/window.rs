use vstd::prelude::*;
use crate::host::{text_result, CommandOutput, Invocation, Platform};
use crate::text::{
    between_outer_quotes, decode_utf16_lossy, framed_text_between_outer_quotes,
    unquoted_text_has_no_span, decode_utf8_lossy, prefixed_message, quoted_span,
    trim_text, trimmed, utf16_lossy, utf8_lossy,
};

verus! {

/// The macOS query: ask System Events for the frontmost application's name.
pub open spec fn frontmost_app_query() -> (Seq<char>, Seq<Seq<char>>) {
    (
        "osascript"@,
        seq![
            "-e"@,
            "tell application \"System Events\" to get name of first application process whose frontmost is true"@,
        ],
    )
}

/// The first Linux query: xdotool names the active window.
pub open spec fn primary_query() -> (Seq<char>, Seq<Seq<char>>) {
    ("xdotool"@, seq!["getactivewindow"@, "getwindowname"@])
}

/// The Linux fallback: xprop prints the `WM_NAME` property.
pub open spec fn secondary_query() -> (Seq<char>, Seq<Seq<char>>) {
    ("xprop"@, seq!["-id"@, "$(xprop -root _NET_ACTIVE_WINDOW | cut -d' ' -f5)"@, "WM_NAME"@])
}

/// The title on Windows, given the text of the foreground window (`None`
/// where there is no foreground window).
pub open spec fn foreground_title(window: Option<Vec<u16>>) -> Result<Seq<char>, Seq<char>> {
    match window {
        None => Err("No active window found"@),
        Some(units) => if units@.len() == 0 {
            Err("Failed to get window title"@)
        } else {
            Ok(utf16_lossy(units@))
        },
    }
}

/// The title on macOS, given what the frontmost-application query produced.
/// Whatever the query printed is taken, trimmed, once it ran at all.
pub open spec fn frontmost_app_title(out: CommandOutput) -> Result<Seq<char>, Seq<char>> {
    match out {
        CommandOutput::Completed { stdout, .. } => Ok(trimmed(utf8_lossy(stdout@))),
        CommandOutput::SpawnFailed { message } => Err("Failed to get active window: "@ + message@),
    }
}

/// The title that the first Linux query gives: its trimmed output, where it
/// exited with success.
pub open spec fn primary_title(out: CommandOutput) -> Option<Seq<char>> {
    match out {
        CommandOutput::Completed { success: true, stdout, .. } => Some(
            trimmed(utf8_lossy(stdout@)),
        ),
        _ => None,
    }
}

/// The title that the Linux fallback gives: the text between the outer quotes
/// of its output, where it exited with success and printed two quotes.
pub open spec fn secondary_title(out: CommandOutput) -> Option<Seq<char>> {
    match out {
        CommandOutput::Completed { success: true, stdout, .. } => between_outer_quotes(
            utf8_lossy(stdout@),
        ),
        _ => None,
    }
}

/// The title on Linux: the first query's, else the fallback's, else a failure.
pub open spec fn linux_title(primary: CommandOutput, secondary: CommandOutput) -> Result<
    Seq<char>,
    Seq<char>,
> {
    match primary_title(primary) {
        Some(t) => Ok(t),
        None => match secondary_title(secondary) {
            Some(t) => Ok(t),
            None => Err("Failed to get active window on Linux"@),
        },
    }
}

/// Where the first Linux query gives no title and the fallback exits with
/// success printing `p"t"q`, with no quote in `p` or `q`, the title is `t`.
pub proof fn fallback_takes_quoted_title(
    primary: CommandOutput,
    stdout: Vec<u8>,
    stderr: Vec<u8>,
    p: Seq<char>,
    t: Seq<char>,
    q: Seq<char>,
)
    requires
        primary_title(primary) is None,
        utf8_lossy(stdout@) == p + seq!['"'] + t + seq!['"'] + q,
        forall|k: int| 0 <= k < p.len() ==> p[k] != '"',
        forall|k: int| 0 <= k < q.len() ==> q[k] != '"',
    ensures
        linux_title(primary, (CommandOutput::Completed { success: true, stdout, stderr }))
            == Ok::<Seq<char>, Seq<char>>(t),
{
    framed_text_between_outer_quotes(p, t, q);
}

/// Where the first Linux query gives no title and the fallback prints no
/// quote character, the detector fails: there is nothing to extract.
pub proof fn fallback_without_quotes_fails(
    primary: CommandOutput,
    success: bool,
    stdout: Vec<u8>,
    stderr: Vec<u8>,
)
    requires
        primary_title(primary) is None,
        forall|k: int|
            0 <= k < utf8_lossy(stdout@).len() ==> #[trigger] utf8_lossy(stdout@)[k] != '"',
    ensures
        linux_title(primary, (CommandOutput::Completed { success, stdout, stderr })) == Err::<
            Seq<char>,
            Seq<char>,
        >("Failed to get active window on Linux"@),
{
    unquoted_text_has_no_span(utf8_lossy(stdout@));
}

/// The Windows title from the foreground window's text.
pub fn foreground_window_title(window: Option<Vec<u16>>) -> (r: Result<String, String>)
    ensures
        text_result(r) == foreground_title(window),
{
    match window {
        None => Err(String::from_str("No active window found")),
        Some(units) => {
            if units.len() == 0 {
                Err(String::from_str("Failed to get window title"))
            } else {
                Ok(decode_utf16_lossy(&units))
            }
        },
    }
}

/// The macOS title from what the frontmost-application query produced.
pub fn frontmost_app_result(out: CommandOutput) -> (r: Result<String, String>)
    ensures
        text_result(r) == frontmost_app_title(out),
{
    match out {
        CommandOutput::Completed { stdout, .. } => {
            let raw = decode_utf8_lossy(&stdout);
            Ok(trim_text(raw.as_str()))
        },
        CommandOutput::SpawnFailed { message } => {
            Err(prefixed_message("Failed to get active window: ", message.as_str()))
        },
    }
}

/// The title that the first Linux query's output gives, if any.
pub fn primary_result(out: &CommandOutput) -> (r: Option<String>)
    ensures
        match r {
            Some(t) => primary_title(*out) == Some(t@),
            None => primary_title(*out).is_none(),
        },
{
    match out {
        CommandOutput::Completed { success, stdout, .. } => {
            if *success {
                let raw = decode_utf8_lossy(stdout);
                Some(trim_text(raw.as_str()))
            } else {
                None
            }
        },
        CommandOutput::SpawnFailed { .. } => None,
    }
}

/// The title that the Linux fallback's output gives, if any. Output without
/// two quote characters gives none.
pub fn secondary_result(out: &CommandOutput) -> (r: Option<String>)
    ensures
        match r {
            Some(t) => secondary_title(*out) == Some(t@),
            None => secondary_title(*out).is_none(),
        },
{
    match out {
        CommandOutput::Completed { success, stdout, .. } => {
            if *success {
                let raw = decode_utf8_lossy(stdout);
                quoted_span(raw.as_str())
            } else {
                None
            }
        },
        CommandOutput::SpawnFailed { .. } => None,
    }
}

/// The title of the foreground window. On Windows `foreground` reads the
/// foreground window's text; on macOS and Linux `run` spawns the queries and
/// waits for them. On Linux the fallback query runs only where the first one
/// gave no title. On any other platform nothing is queried.
pub fn get_active_window_title<
    Q: FnOnce() -> Option<Vec<u16>>,
    R: Fn(Invocation) -> CommandOutput,
>(platform: Platform, foreground: Q, run: R) -> (r: Result<String, String>)
    requires
        call_requires(foreground, ()),
        forall|inv: Invocation| call_requires(run, (inv,)),
    ensures
        platform == Platform::Windows ==> exists|w: Option<Vec<u16>>|
            call_ensures(foreground, (), w) && text_result(r) == foreground_title(w),
        platform == Platform::MacOs ==> exists|inv: Invocation, out: CommandOutput|
            inv.runs(frontmost_app_query().0, frontmost_app_query().1) && call_ensures(
                run,
                (inv,),
                out,
            ) && text_result(r) == frontmost_app_title(out),
        platform == Platform::Linux ==> exists|inv: Invocation, out: CommandOutput|
            {
                &&& inv.runs(primary_query().0, primary_query().1)
                &&& call_ensures(run, (inv,), out)
                &&& primary_title(out) matches Some(t) ==> text_result(r) == Ok::<
                    Seq<char>,
                    Seq<char>,
                >(t)
                &&& primary_title(out) is None ==> exists|inv2: Invocation, out2: CommandOutput|
                    inv2.runs(secondary_query().0, secondary_query().1) && call_ensures(
                        run,
                        (inv2,),
                        out2,
                    ) && text_result(r) == linux_title(out, out2)
            },
        platform == Platform::Other ==> text_result(r) == Err::<Seq<char>, Seq<char>>(
            "Window detection not supported on this platform"@,
        ),
{
    match platform {
        Platform::Windows => {
            let w = foreground();
            foreground_window_title(w)
        },
        Platform::MacOs => {
            let inv = Invocation::new(
                "osascript",
                &[
                    "-e",
                    "tell application \"System Events\" to get name of first application process whose frontmost is true",
                ],
            );
            assert(inv.runs(frontmost_app_query().0, frontmost_app_query().1)) by {
                assert(seq![
                    "-e",
                    "tell application \"System Events\" to get name of first application process whose frontmost is true",
                ].map_values(|a: &str| a@) =~= frontmost_app_query().1);
            }
            let out = run(inv);
            frontmost_app_result(out)
        },
        Platform::Linux => {
            let inv = Invocation::new("xdotool", &["getactivewindow", "getwindowname"]);
            assert(inv.runs(primary_query().0, primary_query().1)) by {
                assert(seq!["getactivewindow", "getwindowname"].map_values(|a: &str| a@)
                    =~= primary_query().1);
            }
            let out = run(inv);
            match primary_result(&out) {
                Some(t) => Ok(t),
                None => {
                    let inv2 = Invocation::new(
                        "xprop",
                        &["-id", "$(xprop -root _NET_ACTIVE_WINDOW | cut -d' ' -f5)", "WM_NAME"],
                    );
                    assert(inv2.runs(secondary_query().0, secondary_query().1)) by {
                        assert(seq![
                            "-id",
                            "$(xprop -root _NET_ACTIVE_WINDOW | cut -d' ' -f5)",
                            "WM_NAME",
                        ].map_values(|a: &str| a@) =~= secondary_query().1);
                    }
                    let out2 = run(inv2);
                    match secondary_result(&out2) {
                        Some(t) => Ok(t),
                        None => Err(String::from_str("Failed to get active window on Linux")),
                    }
                },
            }
        },
        Platform::Other => Err(String::from_str("Window detection not supported on this platform")),
    }
}

} // verus!
