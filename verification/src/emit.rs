//! The shortcuts of the `emit` command: the telemetry event that each kind
//! of event, with an optional value, stands for.
use vstd::prelude::*;
use crate::text::{chars_of, lowercase, parse_u32, parse_u32_spec, parse_u8, parse_u8_spec, to_lowercase_chars};
use crate::types::TelemetryEvent;

verus! {

/// What an `emit` shortcut stands for.
#[derive(Debug, Clone, PartialEq)]
pub enum ShortcutEvent {
    /// CPU usage, whose percentage is this text read as a floating-point
    /// number.
    CpuPercent(String),
    /// An event ready to be sent.
    Ready(TelemetryEvent),
    /// The idle time given, this text, is not a `u32`.
    BadIdleValue(String),
    /// No shortcut has this name.
    UnknownKind,
}

/// The text of `value`, or `default` when there is none.
pub open spec fn value_or(value: Option<String>, default: Seq<char>) -> Seq<char> {
    match value {
        Some(v) => v@,
        None => default,
    }
}

/// `a` and `b` hold the same characters.
fn same_chars(a: &Vec<char>, b: &Vec<char>) -> (r: bool)
    ensures
        r == (a@ == b@),
{
    if a.len() != b.len() {
        return false;
    }
    let mut i: usize = 0;
    while i < a.len()
        invariant
            a.len() == b.len(),
            i <= a.len(),
            forall|j: int| 0 <= j < i ==> a@[j] == b@[j],
        decreases a.len() - i,
    {
        if a[i] != b[i] {
            return false;
        }
        i = i + 1;
    }
    assert(a@ =~= b@);
    true
}

fn text_of(value: Option<String>, default: &str) -> (r: String)
    ensures
        r@ == value_or(value, default@),
{
    match value {
        Some(v) => v,
        None => String::from_str(default),
    }
}

/// The event that the shortcut `kind` (in any case) stands for, with the
/// optional `value`: `cpu` a CPU usage of `value` percent (`50.0` if none);
/// `idle` the idle time of `value` seconds (10 if none); `battery` the
/// battery level `value`, none when it is missing or not a `u8`; `click` a
/// click at (32, 32); `commit` a commit of `desktop-pet` whose hash is
/// `value` (`abc1234` if none); `window` a `Neovim` window whose title is
/// `value` (`main.rs` if none).
pub fn shortcut_event(kind: &str, value: Option<String>) -> (r: ShortcutEvent)
    ensures
        lowercase(kind@) == "cpu"@ ==> (r matches ShortcutEvent::CpuPercent(t) && t@ == value_or(
            value,
            "50.0"@,
        )),
        lowercase(kind@) == "idle"@ ==> match parse_u32_spec(value_or(value, "10"@)) {
            Some(n) => r == ShortcutEvent::Ready(TelemetryEvent::IdleTime(n)),
            None => (r matches ShortcutEvent::BadIdleValue(t) && t@ == value_or(value, "10"@)),
        },
        lowercase(kind@) == "battery"@ ==> r == ShortcutEvent::Ready(
            TelemetryEvent::BatteryLevel(
                match value {
                    Some(v) => parse_u8_spec(v@),
                    None => None,
                },
            ),
        ),
        lowercase(kind@) == "click"@ ==> r == ShortcutEvent::Ready(
            TelemetryEvent::UserClick { x: 32, y: 32 },
        ),
        lowercase(kind@) == "commit"@ ==> (r matches ShortcutEvent::Ready(
            TelemetryEvent::DevCommit { repo, hash },
        ) && repo@ == "desktop-pet"@ && hash@ == value_or(value, "abc1234"@)),
        lowercase(kind@) == "window"@ ==> (r matches ShortcutEvent::Ready(
            TelemetryEvent::ActiveWindow { class, title },
        ) && class@ == "Neovim"@ && title@ == value_or(value, "main.rs"@)),
        lowercase(kind@) != "cpu"@ && lowercase(kind@) != "idle"@ && lowercase(kind@)
            != "battery"@ && lowercase(kind@) != "click"@ && lowercase(kind@) != "commit"@
            && lowercase(kind@) != "window"@ ==> r == ShortcutEvent::UnknownKind,
{
    proof {
        reveal_strlit("cpu");
        reveal_strlit("idle");
        reveal_strlit("battery");
        reveal_strlit("click");
        reveal_strlit("commit");
        reveal_strlit("window");
        assert("cpu"@.len() == 3 && "idle"@.len() == 4 && "battery"@.len() == 7);
        assert("click"@.len() == 5 && "commit"@.len() == 6 && "window"@.len() == 6);
        assert("commit"@[0] != "window"@[0]);
    }
    let k = to_lowercase_chars(kind);
    if same_chars(&k, &chars_of("cpu")) {
        ShortcutEvent::CpuPercent(text_of(value, "50.0"))
    } else if same_chars(&k, &chars_of("idle")) {
        let text = text_of(value, "10");
        match parse_u32(&chars_of(text.as_str())) {
            Some(n) => ShortcutEvent::Ready(TelemetryEvent::IdleTime(n)),
            None => ShortcutEvent::BadIdleValue(text),
        }
    } else if same_chars(&k, &chars_of("battery")) {
        let level = match value {
            Some(v) => parse_u8(&chars_of(v.as_str())),
            None => None,
        };
        ShortcutEvent::Ready(TelemetryEvent::BatteryLevel(level))
    } else if same_chars(&k, &chars_of("click")) {
        ShortcutEvent::Ready(TelemetryEvent::UserClick { x: 32, y: 32 })
    } else if same_chars(&k, &chars_of("commit")) {
        ShortcutEvent::Ready(
            TelemetryEvent::DevCommit {
                repo: String::from_str("desktop-pet"),
                hash: text_of(value, "abc1234"),
            },
        )
    } else if same_chars(&k, &chars_of("window")) {
        ShortcutEvent::Ready(
            TelemetryEvent::ActiveWindow {
                class: String::from_str("Neovim"),
                title: text_of(value, "main.rs"),
            },
        )
    } else {
        ShortcutEvent::UnknownKind
    }
}

} // verus!
