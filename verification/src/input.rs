//! Hotkey configuration and the keyboard-listener decisions: which names
//! denote a usable hotkey, how a raw key event's value maps to a press or a
//! release, which device nodes are candidate keyboards, and when the
//! listener rescans them after read errors.

use vstd::prelude::*;

use crate::session::HotkeyEvent;
use crate::text::{eq_ignore_ascii_case, upper_codes};

verus! {

/// Milliseconds that must pass between keyboard rescans after a read error.
pub const RESCAN_INTERVAL_MS: u64 = 10_000;

/// Milliseconds the listener sleeps between scans of the keyboard devices.
pub const LISTENER_SLEEP_MS: u64 = 10;

/// The keys that can be configured as the push-to-talk hotkey.
#[derive(Clone, Copy, Debug, PartialEq, Eq, Structural)]
pub enum Hotkey {
    F1,
    F2,
    F3,
    F4,
    F5,
    F6,
    F7,
    F8,
    F9,
    F10,
    F11,
    F12,
    ScrollLock,
    Pause,
    Insert,
}

/// A hotkey name that denotes no usable key.
#[derive(Clone, Debug)]
pub struct UnknownHotkey {
    /// The name as it was given.
    pub key: String,
}

/// The hotkey a name denotes, compared without regard to ASCII case;
/// `None` when it denotes none.
pub open spec fn hotkey_of_name(s: Seq<char>) -> Option<Hotkey> {
    if upper_codes(s) == upper_codes("F1"@) {
        Some(Hotkey::F1)
    } else if upper_codes(s) == upper_codes("F2"@) {
        Some(Hotkey::F2)
    } else if upper_codes(s) == upper_codes("F3"@) {
        Some(Hotkey::F3)
    } else if upper_codes(s) == upper_codes("F4"@) {
        Some(Hotkey::F4)
    } else if upper_codes(s) == upper_codes("F5"@) {
        Some(Hotkey::F5)
    } else if upper_codes(s) == upper_codes("F6"@) {
        Some(Hotkey::F6)
    } else if upper_codes(s) == upper_codes("F7"@) {
        Some(Hotkey::F7)
    } else if upper_codes(s) == upper_codes("F8"@) {
        Some(Hotkey::F8)
    } else if upper_codes(s) == upper_codes("F9"@) {
        Some(Hotkey::F9)
    } else if upper_codes(s) == upper_codes("F10"@) {
        Some(Hotkey::F10)
    } else if upper_codes(s) == upper_codes("F11"@) {
        Some(Hotkey::F11)
    } else if upper_codes(s) == upper_codes("F12"@) {
        Some(Hotkey::F12)
    } else if upper_codes(s) == upper_codes("SCROLLLOCK"@) || upper_codes(s) == upper_codes(
        "SCROLL_LOCK"@,
    ) {
        Some(Hotkey::ScrollLock)
    } else if upper_codes(s) == upper_codes("PAUSE"@) {
        Some(Hotkey::Pause)
    } else if upper_codes(s) == upper_codes("INSERT"@) {
        Some(Hotkey::Insert)
    } else {
        None
    }
}

/// Parse a configured hotkey name, without regard to ASCII case. An
/// unrecognized name is returned as the error, unchanged.
pub fn parse_hotkey(key: &str) -> (r: Result<Hotkey, UnknownHotkey>)
    ensures
        hotkey_of_name(key@) is Some ==> r is Ok && r->Ok_0 == hotkey_of_name(key@)->0,
        hotkey_of_name(key@) is None ==> r is Err && r->Err_0.key@ == key@,
{
    if eq_ignore_ascii_case(key, "F1") {
        Ok(Hotkey::F1)
    } else if eq_ignore_ascii_case(key, "F2") {
        Ok(Hotkey::F2)
    } else if eq_ignore_ascii_case(key, "F3") {
        Ok(Hotkey::F3)
    } else if eq_ignore_ascii_case(key, "F4") {
        Ok(Hotkey::F4)
    } else if eq_ignore_ascii_case(key, "F5") {
        Ok(Hotkey::F5)
    } else if eq_ignore_ascii_case(key, "F6") {
        Ok(Hotkey::F6)
    } else if eq_ignore_ascii_case(key, "F7") {
        Ok(Hotkey::F7)
    } else if eq_ignore_ascii_case(key, "F8") {
        Ok(Hotkey::F8)
    } else if eq_ignore_ascii_case(key, "F9") {
        Ok(Hotkey::F9)
    } else if eq_ignore_ascii_case(key, "F10") {
        Ok(Hotkey::F10)
    } else if eq_ignore_ascii_case(key, "F11") {
        Ok(Hotkey::F11)
    } else if eq_ignore_ascii_case(key, "F12") {
        Ok(Hotkey::F12)
    } else if eq_ignore_ascii_case(key, "SCROLLLOCK") || eq_ignore_ascii_case(key, "SCROLL_LOCK") {
        Ok(Hotkey::ScrollLock)
    } else if eq_ignore_ascii_case(key, "PAUSE") {
        Ok(Hotkey::Pause)
    } else if eq_ignore_ascii_case(key, "INSERT") {
        Ok(Hotkey::Insert)
    } else {
        Err(UnknownHotkey { key: key.to_owned() })
    }
}

/// The hotkey notification a raw key event's value denotes: a key-down is a
/// press, a key-up a release, and anything else (an auto-repeat) is no
/// notification at all.
pub fn hotkey_event_of_value(value: i32) -> (r: Option<HotkeyEvent>)
    ensures
        value == 1 ==> r == Some(HotkeyEvent::Pressed),
        value == 0 ==> r == Some(HotkeyEvent::Released),
        value != 0 && value != 1 ==> r is None,
{
    if value == 1 {
        Some(HotkeyEvent::Pressed)
    } else if value == 0 {
        Some(HotkeyEvent::Released)
    } else {
        None
    }
}

/// Whether the listener should rescan the keyboard devices: only after a
/// read error, and only once the rescan interval has passed since the last
/// scan.
pub fn should_rescan(had_error: bool, elapsed_ms: u64) -> (r: bool)
    ensures
        r == (had_error && elapsed_ms >= RESCAN_INTERVAL_MS),
{
    had_error && elapsed_ms >= RESCAN_INTERVAL_MS
}

/// Whether a device node's name marks it as an input event device.
pub open spec fn is_event_name(s: Seq<char>) -> bool {
    s.len() >= 5 && s.subrange(0, 5) == "event"@
}

/// Whether a device node name starts with `event`, the prefix of the input
/// event devices among which keyboards are sought.
pub fn is_event_device_name(name: &str) -> (r: bool)
    ensures
        r == is_event_name(name@),
{
    proof {
        reveal_strlit("event");
    }
    let n = name.unicode_len();
    if n < 5 {
        return false;
    }
    let r = name.get_char(0) == 'e' && name.get_char(1) == 'v' && name.get_char(2) == 'e'
        && name.get_char(3) == 'n' && name.get_char(4) == 't';
    proof {
        if r {
            assert(name@.subrange(0, 5) =~= "event"@);
        } else {
            if name@.subrange(0, 5) == "event"@ {
                assert(name@[0] == "event"@[0]);
                assert(name@[1] == "event"@[1]);
                assert(name@[2] == "event"@[2]);
                assert(name@[3] == "event"@[3]);
                assert(name@[4] == "event"@[4]);
            }
        }
    }
    r
}

} // verus!
