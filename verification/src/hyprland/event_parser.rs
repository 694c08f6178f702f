//! The wire-protocol parser. One line of the compositor's event stream has
//! the shape `<event-name>>><value>`, where `value` splits on `,` into a
//! fixed number of fields per event name. Unknown event names decode to a
//! catch-all variant so that a new compositor version never breaks the
//! stream; malformed lines and malformed integer fields are rejected.

use vstd::prelude::*;
use crate::hyprland::error::HyprError;
use crate::hyprland::structs::{parse_raw_spec, FullscreenEvent};
use crate::text::str_eq;

verus! {

// ---------------------------------------------------------------------------
// splitting
// ---------------------------------------------------------------------------

/// First index at or after `i` where `c` occurs in `s`.
pub open spec fn find_char_from(s: Seq<char>, c: char, i: int) -> Option<int>
    decreases s.len() - i,
{
    if i < 0 || i >= s.len() {
        None
    } else if s[i] == c {
        Some(i)
    } else {
        find_char_from(s, c, i + 1)
    }
}

/// First index at or after `i` where the two-character event separator
/// `>>` starts in `s`.
pub open spec fn find_sep_from(s: Seq<char>, i: int) -> Option<int>
    decreases s.len() - i,
{
    if i < 0 || i + 1 >= s.len() {
        None
    } else if s[i] == '>' && s[i + 1] == '>' {
        Some(i)
    } else {
        find_sep_from(s, i + 1)
    }
}

/// Splitting a raw line at the first `>>` into event name and value.
pub open spec fn split_event_spec(s: Seq<char>) -> Option<(Seq<char>, Seq<char>)> {
    match find_sep_from(s, 0) {
        Some(i) => Some((s.subrange(0, i), s.subrange(i + 2, s.len() as int))),
        None => None,
    }
}

/// Splitting a value at the first `,` into two fields.
pub open spec fn split_once_spec(s: Seq<char>) -> Option<(Seq<char>, Seq<char>)> {
    match find_char_from(s, ',', 0) {
        Some(i) => Some((s.subrange(0, i), s.subrange(i + 1, s.len() as int))),
        None => None,
    }
}

/// Splitting a value at its first two commas into three fields.
pub open spec fn split_twice_spec(s: Seq<char>) -> Option<(Seq<char>, Seq<char>, Seq<char>)> {
    match split_once_spec(s) {
        Some((a, bc)) => match split_once_spec(bc) {
            Some((b, c)) => Some((a, b, c)),
            None => None,
        },
        None => None,
    }
}

/// Splitting a value at its first three commas into four fields.
pub open spec fn split_thrice_spec(s: Seq<char>) -> Option<
    (Seq<char>, Seq<char>, Seq<char>, Seq<char>),
> {
    match split_twice_spec(s) {
        Some((a, b, cd)) => match split_once_spec(cd) {
            Some((c, d)) => Some((a, b, c, d)),
            None => None,
        },
        None => None,
    }
}

/// Splits a raw line at the first `>>` separator.
fn split_event(raw: &str) -> (r: Option<(&str, &str)>)
    ensures
        match split_event_spec(raw@) {
            Some(p) => r matches Some(q) && q.0@ == p.0 && q.1@ == p.1,
            None => r is None,
        },
{
    let len = raw.unicode_len();
    if len < 2 {
        return None;
    }
    let mut i: usize = 0;
    while i < len - 1
        invariant
            2 <= len,
            i <= len,
            len == raw@.len(),
            find_sep_from(raw@, 0) == find_sep_from(raw@, i as int),
        decreases len - i,
    {
        if raw.get_char(i) == '>' && raw.get_char(i + 1) == '>' {
            let name = raw.substring_char(0, i);
            let value = raw.substring_char(i + 2, len);
            return Some((name, value));
        }
        i = i + 1;
    }
    None
}

/// Splits a value at the first comma.
fn split_comma(value: &str) -> (r: Option<(&str, &str)>)
    ensures
        match split_once_spec(value@) {
            Some(p) => r matches Some(q) && q.0@ == p.0 && q.1@ == p.1,
            None => r is None,
        },
{
    let len = value.unicode_len();
    let mut i: usize = 0;
    while i < len
        invariant
            i <= len,
            len == value@.len(),
            find_char_from(value@, ',', 0) == find_char_from(value@, ',', i as int),
        decreases len - i,
    {
        if value.get_char(i) == ',' {
            let a = value.substring_char(0, i);
            let b = value.substring_char(i + 1, len);
            return Some((a, b));
        }
        i = i + 1;
    }
    None
}

/// Splits a value into two fields at its first comma; a value with no comma
/// is a malformed line.
pub fn value_split_once(value: &str) -> (r: Result<(&str, &str), HyprError>)
    ensures
        match split_once_spec(value@) {
            Some(p) => r matches Ok(q) && q.0@ == p.0 && q.1@ == p.1,
            None => r == Err::<(&str, &str), HyprError>(HyprError::EventParseFailed),
        },
{
    match split_comma(value) {
        Some(p) => Ok(p),
        None => Err(HyprError::EventParseFailed),
    }
}

/// Splits a value into three fields at its first two commas.
pub fn value_split_twice(value: &str) -> (r: Result<(&str, &str, &str), HyprError>)
    ensures
        match split_twice_spec(value@) {
            Some(p) => r matches Ok(q) && q.0@ == p.0 && q.1@ == p.1 && q.2@ == p.2,
            None => r == Err::<(&str, &str, &str), HyprError>(HyprError::EventParseFailed),
        },
{
    match split_comma(value) {
        Some((a, bc)) => match split_comma(bc) {
            Some((b, c)) => Ok((a, b, c)),
            None => Err(HyprError::EventParseFailed),
        },
        None => Err(HyprError::EventParseFailed),
    }
}

/// Splits a value into four fields at its first three commas.
pub fn value_split_thrice(value: &str) -> (r: Result<(&str, &str, &str, &str), HyprError>)
    ensures
        match split_thrice_spec(value@) {
            Some(p) => r matches Ok(q) && q.0@ == p.0 && q.1@ == p.1 && q.2@ == p.2 && q.3@
                == p.3,
            None => r == Err::<(&str, &str, &str, &str), HyprError>(HyprError::EventParseFailed),
        },
{
    match split_comma(value) {
        Some((a, bcd)) => match split_comma(bcd) {
            Some((b, cd)) => match split_comma(cd) {
                Some((c, d)) => Ok((a, b, c, d)),
                None => Err(HyprError::EventParseFailed),
            },
            None => Err(HyprError::EventParseFailed),
        },
        None => Err(HyprError::EventParseFailed),
    }
}

// ---------------------------------------------------------------------------
// integer fields
// ---------------------------------------------------------------------------

/// Whether `c` is an ASCII decimal digit.
pub open spec fn is_digit(c: char) -> bool {
    '0' <= c && c <= '9'
}

/// Numeric value of a digit character.
pub open spec fn digit_val(c: char) -> int {
    c as int - '0' as int
}

/// Whether every character of `s` is an ASCII decimal digit.
pub open spec fn all_digits(s: Seq<char>) -> bool {
    forall|j: int| 0 <= j < s.len() ==> is_digit(s[j])
}

/// Value of a digit string read in base 10.
pub open spec fn digits_val(s: Seq<char>) -> int
    decreases s.len(),
{
    if s.len() == 0 {
        0
    } else {
        digits_val(s.drop_last()) * 10 + digit_val(s.last())
    }
}

/// The mathematical integer denoted by `s`: an optional sign followed by at
/// least one digit. `None` for any other shape.
pub open spec fn str_int(s: Seq<char>) -> Option<int> {
    let neg = s.len() > 0 && s[0] == '-';
    let signed = s.len() > 0 && (s[0] == '-' || s[0] == '+');
    let ds = if signed {
        s.subrange(1, s.len() as int)
    } else {
        s
    };
    if ds.len() > 0 && all_digits(ds) {
        if neg {
            Some(-digits_val(ds))
        } else {
            Some(digits_val(ds))
        }
    } else {
        None
    }
}

proof fn lemma_digits_val_nonneg(s: Seq<char>)
    requires
        all_digits(s),
    ensures
        digits_val(s) >= 0,
    decreases s.len(),
{
    if s.len() > 0 {
        assert(all_digits(s.drop_last())) by {
            assert(forall|j: int| 0 <= j < s.len() - 1 ==> is_digit(s.drop_last()[j]));
        }
        lemma_digits_val_nonneg(s.drop_last());
    }
}

/// Reading more digits never shrinks the value.
proof fn lemma_digits_val_prefix_le(s: Seq<char>, k: int)
    requires
        all_digits(s),
        0 <= k <= s.len(),
    ensures
        digits_val(s.subrange(0, k)) <= digits_val(s),
    decreases s.len() - k,
{
    if k < s.len() {
        let t = s.subrange(0, k + 1);
        assert(t.drop_last() =~= s.subrange(0, k));
        assert(all_digits(t));
        lemma_digits_val_nonneg(t.drop_last());
        assert(digits_val(t) == digits_val(s.subrange(0, k)) * 10 + digit_val(t.last()));
        assert(digits_val(s.subrange(0, k)) <= digits_val(t)) by {
            lemma_digits_val_nonneg(s.subrange(0, k));
        }
        lemma_digits_val_prefix_le(s, k + 1);
        assert(s.subrange(0, s.len() as int) =~= s);
    } else {
        assert(s.subrange(0, k) =~= s);
    }
}

/// Parses a signed 32-bit integer field exactly as the protocol demands:
/// an optional sign, then one or more decimal digits, and the value must
/// fit in an `i32`.
pub fn parse_i32(s: &str) -> (r: Result<i32, HyprError>)
    ensures
        match str_int(s@) {
            Some(v) => if i32::MIN <= v <= i32::MAX {
                r matches Ok(x) && x as int == v
            } else {
                r == Err::<i32, HyprError>(HyprError::ParseIntError)
            },
            None => r == Err::<i32, HyprError>(HyprError::ParseIntError),
        },
{
    let len = s.unicode_len();
    if len == 0 {
        return Err(HyprError::ParseIntError);
    }
    let first = s.get_char(0);
    let neg = first == '-';
    let start: usize = if first == '-' || first == '+' {
        1
    } else {
        0
    };
    if start == len {
        return Err(HyprError::ParseIntError);
    }
    let ghost ds = if start == 1 {
        s@.subrange(1, s@.len() as int)
    } else {
        s@
    };
    assert(ds.len() == len - start);
    let mut acc: u64 = 0;
    let mut i: usize = start;
    while i < len
        invariant
            start <= i <= len,
            len == s@.len(),
            start == 0 || start == 1,
            start == 1 ==> (s@[0] == '-' || s@[0] == '+'),
            start == 0 ==> !(s@[0] == '-' || s@[0] == '+'),
            neg == (s@[0] == '-'),
            start < len,
            ds == if start == 1 { s@.subrange(1, s@.len() as int) } else { s@ },
            ds.len() == len - start,
            forall|j: int| 0 <= j < i - start ==> is_digit(ds[j]),
            acc as int == digits_val(ds.subrange(0, i - start)),
            acc <= 0x8000_0000u64,
        decreases len - i,
    {
        let c = s.get_char(i);
        if c < '0' || c > '9' {
            assert(!is_digit(ds[i - start]));
            assert(str_int(s@) is None);
            return Err(HyprError::ParseIntError);
        }
        assert(is_digit(ds[i - start]));
        let d = (c as u32 - '0' as u32) as u64;
        assert(d as int == digit_val(ds[i - start]));
        acc = acc * 10 + d;
        assert(ds.subrange(0, i - start + 1).drop_last() =~= ds.subrange(0, i - start));
        assert(acc as int == digits_val(ds.subrange(0, i - start + 1)));
        i = i + 1;
        if acc > 0x8000_0000u64 {
            // Any completion of this prefix is out of range for an `i32`,
            // and any non-digit later makes the whole field malformed;
            // either way the field is rejected.
            proof {
                if str_int(s@) is Some {
                    assert(all_digits(ds));
                    lemma_digits_val_prefix_le(ds, i - start);
                }
            }
            return Err(HyprError::ParseIntError);
        }
    }
    assert(ds.subrange(0, ds.len() as int) =~= ds);
    assert(acc as int == digits_val(ds));
    assert(all_digits(ds));
    if neg {
        if acc == 0x8000_0000u64 {
            Ok(i32::MIN)
        } else {
            Ok(-(acc as i32))
        }
    } else {
        if acc >= 0x8000_0000u64 {
            Err(HyprError::ParseIntError)
        } else {
            Ok(acc as i32)
        }
    }
}

/// Parses a signed 8-bit integer field: same grammar as `parse_i32`, with
/// the value required to fit in an `i8`.
pub fn parse_i8(s: &str) -> (r: Result<i8, HyprError>)
    ensures
        match str_int(s@) {
            Some(v) => if i8::MIN <= v <= i8::MAX {
                r matches Ok(x) && x as int == v
            } else {
                r == Err::<i8, HyprError>(HyprError::ParseIntError)
            },
            None => r == Err::<i8, HyprError>(HyprError::ParseIntError),
        },
{
    match parse_i32(s) {
        Ok(v) => if -128 <= v && v <= 127 {
            Ok(v as i8)
        } else {
            Err(HyprError::ParseIntError)
        },
        Err(_) => Err(HyprError::ParseIntError),
    }
}

// ---------------------------------------------------------------------------
// events
// ---------------------------------------------------------------------------

/// One typed event of the wire protocol. Unknown event names decode to
/// `IgnoredEvent`.
#[derive(Debug, PartialEq)]
pub enum HyprlandEvent {
    Workspace { wid: i32 },
    Workspacev2 { wid: i32, wname: String },
    Focusedmon { mname: String, wname: String },
    Focusedmonv2 { mname: String, wid: i32 },
    Activewindow { winclass: String, wintitle: String },
    Activewindowv2 { winaddr: String },
    Fullscreen { fstate: FullscreenEvent },
    Monitorremoved { mname: String },
    Monitorremovedv2 { mid: i32, mname: String, mdesc: String },
    Monitoradded { mname: String },
    Monitoraddedv2 { mid: i32, mname: String, mdesc: String },
    Createworkspace { wname: String },
    Createworkspacev2 { wid: i32, wname: String },
    Destroyworkspace { wname: String },
    Destroyworkspacev2 { wid: i32, wname: String },
    Moveworkspace { wname: String, mname: String },
    Moveworkspacev2 { wid: i32, wname: String, mname: String },
    Renameworkspace { wid: i32, new_name: String },
    Activespecial { wname: String, mname: String },
    Activespecialv2 { wid: i32, wname: String, mname: String },
    Activelayout { kname: String, lname: String },
    Openwindow { waddr: String, wname: String, winclass: String, wintitle: String },
    Closewindow { waddr: String },
    Movewindow { waddr: String, wname: String },
    Movewindowv2 { waddr: String, wid: i32, wname: String },
    Openlayer { nspace: String },
    Closelayer { nspace: String },
    Submap { smname: String },
    Changefloatingmode { waddr: String, float: String },
    Urgent { waddr: String },
    Screencast { state: String, owner: String },
    Windowtitle { waddr: String },
    Windowtitlev2 { waddr: String, wintitle: String },
    Togglegroup,
    Moveintogroup { waddr: String },
    Moveoutofgroup { waddr: String },
    Ignoregrouplock,
    Lockgroups,
    Configreloaded,
    Pin { waddr: String, pstate: String },
    Minimized { waddr: String, action: i8 },
    Bell { waddr: String },
    IgnoredEvent,
}

/// Mathematical image of a `HyprlandEvent`: the same variants over
/// `Seq<char>` and `int`, used by the parser's specification.
pub enum EventModel {
    Workspace { wid: int },
    Workspacev2 { wid: int, wname: Seq<char> },
    Focusedmon { mname: Seq<char>, wname: Seq<char> },
    Focusedmonv2 { mname: Seq<char>, wid: int },
    Activewindow { winclass: Seq<char>, wintitle: Seq<char> },
    Activewindowv2 { winaddr: Seq<char> },
    Fullscreen { fstate: FullscreenEvent },
    Monitorremoved { mname: Seq<char> },
    Monitorremovedv2 { mid: int, mname: Seq<char>, mdesc: Seq<char> },
    Monitoradded { mname: Seq<char> },
    Monitoraddedv2 { mid: int, mname: Seq<char>, mdesc: Seq<char> },
    Createworkspace { wname: Seq<char> },
    Createworkspacev2 { wid: int, wname: Seq<char> },
    Destroyworkspace { wname: Seq<char> },
    Destroyworkspacev2 { wid: int, wname: Seq<char> },
    Moveworkspace { wname: Seq<char>, mname: Seq<char> },
    Moveworkspacev2 { wid: int, wname: Seq<char>, mname: Seq<char> },
    Renameworkspace { wid: int, new_name: Seq<char> },
    Activespecial { wname: Seq<char>, mname: Seq<char> },
    Activespecialv2 { wid: int, wname: Seq<char>, mname: Seq<char> },
    Activelayout { kname: Seq<char>, lname: Seq<char> },
    Openwindow { waddr: Seq<char>, wname: Seq<char>, winclass: Seq<char>, wintitle: Seq<char> },
    Closewindow { waddr: Seq<char> },
    Movewindow { waddr: Seq<char>, wname: Seq<char> },
    Movewindowv2 { waddr: Seq<char>, wid: int, wname: Seq<char> },
    Openlayer { nspace: Seq<char> },
    Closelayer { nspace: Seq<char> },
    Submap { smname: Seq<char> },
    Changefloatingmode { waddr: Seq<char>, float: Seq<char> },
    Urgent { waddr: Seq<char> },
    Screencast { state: Seq<char>, owner: Seq<char> },
    Windowtitle { waddr: Seq<char> },
    Windowtitlev2 { waddr: Seq<char>, wintitle: Seq<char> },
    Togglegroup,
    Moveintogroup { waddr: Seq<char> },
    Moveoutofgroup { waddr: Seq<char> },
    Ignoregrouplock,
    Lockgroups,
    Configreloaded,
    Pin { waddr: Seq<char>, pstate: Seq<char> },
    Minimized { waddr: Seq<char>, action: int },
    Bell { waddr: Seq<char> },
    IgnoredEvent,
}

impl View for HyprlandEvent {
    type V = EventModel;

    open spec fn view(&self) -> EventModel {
        match self {
            HyprlandEvent::Workspace { wid } => EventModel::Workspace { wid: *wid as int },
            HyprlandEvent::Workspacev2 { wid, wname } => EventModel::Workspacev2 {
                wid: *wid as int,
                wname: wname@,
            },
            HyprlandEvent::Focusedmon { mname, wname } => EventModel::Focusedmon {
                mname: mname@,
                wname: wname@,
            },
            HyprlandEvent::Focusedmonv2 { mname, wid } => EventModel::Focusedmonv2 {
                mname: mname@,
                wid: *wid as int,
            },
            HyprlandEvent::Activewindow { winclass, wintitle } => EventModel::Activewindow {
                winclass: winclass@,
                wintitle: wintitle@,
            },
            HyprlandEvent::Activewindowv2 { winaddr } => EventModel::Activewindowv2 {
                winaddr: winaddr@,
            },
            HyprlandEvent::Fullscreen { fstate } => EventModel::Fullscreen { fstate: *fstate },
            HyprlandEvent::Monitorremoved { mname } => EventModel::Monitorremoved {
                mname: mname@,
            },
            HyprlandEvent::Monitorremovedv2 { mid, mname, mdesc } => EventModel::Monitorremovedv2 {
                mid: *mid as int,
                mname: mname@,
                mdesc: mdesc@,
            },
            HyprlandEvent::Monitoradded { mname } => EventModel::Monitoradded { mname: mname@ },
            HyprlandEvent::Monitoraddedv2 { mid, mname, mdesc } => EventModel::Monitoraddedv2 {
                mid: *mid as int,
                mname: mname@,
                mdesc: mdesc@,
            },
            HyprlandEvent::Createworkspace { wname } => EventModel::Createworkspace {
                wname: wname@,
            },
            HyprlandEvent::Createworkspacev2 { wid, wname } => EventModel::Createworkspacev2 {
                wid: *wid as int,
                wname: wname@,
            },
            HyprlandEvent::Destroyworkspace { wname } => EventModel::Destroyworkspace {
                wname: wname@,
            },
            HyprlandEvent::Destroyworkspacev2 { wid, wname } => EventModel::Destroyworkspacev2 {
                wid: *wid as int,
                wname: wname@,
            },
            HyprlandEvent::Moveworkspace { wname, mname } => EventModel::Moveworkspace {
                wname: wname@,
                mname: mname@,
            },
            HyprlandEvent::Moveworkspacev2 { wid, wname, mname } => EventModel::Moveworkspacev2 {
                wid: *wid as int,
                wname: wname@,
                mname: mname@,
            },
            HyprlandEvent::Renameworkspace { wid, new_name } => EventModel::Renameworkspace {
                wid: *wid as int,
                new_name: new_name@,
            },
            HyprlandEvent::Activespecial { wname, mname } => EventModel::Activespecial {
                wname: wname@,
                mname: mname@,
            },
            HyprlandEvent::Activespecialv2 { wid, wname, mname } => EventModel::Activespecialv2 {
                wid: *wid as int,
                wname: wname@,
                mname: mname@,
            },
            HyprlandEvent::Activelayout { kname, lname } => EventModel::Activelayout {
                kname: kname@,
                lname: lname@,
            },
            HyprlandEvent::Openwindow { waddr, wname, winclass, wintitle } => {
                EventModel::Openwindow {
                    waddr: waddr@,
                    wname: wname@,
                    winclass: winclass@,
                    wintitle: wintitle@,
                }
            },
            HyprlandEvent::Closewindow { waddr } => EventModel::Closewindow { waddr: waddr@ },
            HyprlandEvent::Movewindow { waddr, wname } => EventModel::Movewindow {
                waddr: waddr@,
                wname: wname@,
            },
            HyprlandEvent::Movewindowv2 { waddr, wid, wname } => EventModel::Movewindowv2 {
                waddr: waddr@,
                wid: *wid as int,
                wname: wname@,
            },
            HyprlandEvent::Openlayer { nspace } => EventModel::Openlayer { nspace: nspace@ },
            HyprlandEvent::Closelayer { nspace } => EventModel::Closelayer { nspace: nspace@ },
            HyprlandEvent::Submap { smname } => EventModel::Submap { smname: smname@ },
            HyprlandEvent::Changefloatingmode { waddr, float } => EventModel::Changefloatingmode {
                waddr: waddr@,
                float: float@,
            },
            HyprlandEvent::Urgent { waddr } => EventModel::Urgent { waddr: waddr@ },
            HyprlandEvent::Screencast { state, owner } => EventModel::Screencast {
                state: state@,
                owner: owner@,
            },
            HyprlandEvent::Windowtitle { waddr } => EventModel::Windowtitle { waddr: waddr@ },
            HyprlandEvent::Windowtitlev2 { waddr, wintitle } => EventModel::Windowtitlev2 {
                waddr: waddr@,
                wintitle: wintitle@,
            },
            HyprlandEvent::Togglegroup => EventModel::Togglegroup,
            HyprlandEvent::Moveintogroup { waddr } => EventModel::Moveintogroup { waddr: waddr@ },
            HyprlandEvent::Moveoutofgroup { waddr } => EventModel::Moveoutofgroup {
                waddr: waddr@,
            },
            HyprlandEvent::Ignoregrouplock => EventModel::Ignoregrouplock,
            HyprlandEvent::Lockgroups => EventModel::Lockgroups,
            HyprlandEvent::Configreloaded => EventModel::Configreloaded,
            HyprlandEvent::Pin { waddr, pstate } => EventModel::Pin {
                waddr: waddr@,
                pstate: pstate@,
            },
            HyprlandEvent::Minimized { waddr, action } => EventModel::Minimized {
                waddr: waddr@,
                action: *action as int,
            },
            HyprlandEvent::Bell { waddr } => EventModel::Bell { waddr: waddr@ },
            HyprlandEvent::IgnoredEvent => EventModel::IgnoredEvent,
        }
    }
}

} // verus!

use vstd::prelude::*;

verus! {

// ---------------------------------------------------------------------------
// the grammar
// ---------------------------------------------------------------------------

/// A 32-bit integer field: `Ok` exactly when the field denotes an integer
/// that fits in an `i32`.
pub open spec fn i32_field(s: Seq<char>) -> Result<int, HyprError> {
    match str_int(s) {
        Some(v) => if -0x8000_0000 <= v <= 0x7FFF_FFFF {
            Ok(v)
        } else {
            Err(HyprError::ParseIntError)
        },
        None => Err(HyprError::ParseIntError),
    }
}

/// An 8-bit integer field: `Ok` exactly when the field denotes an integer
/// that fits in an `i8`.
pub open spec fn i8_field(s: Seq<char>) -> Result<int, HyprError> {
    match str_int(s) {
        Some(v) => if -128 <= v <= 127 {
            Ok(v)
        } else {
            Err(HyprError::ParseIntError)
        },
        None => Err(HyprError::ParseIntError),
    }
}
/// What parsing an event name and value yields: the per-name field table
/// of the protocol. An unknown name yields the catch-all variant. The
/// table is written in four parts so each stays readable.
pub open spec fn parse_body_spec(name: Seq<char>, value: Seq<char>) -> Result<
    EventModel,
    HyprError,
> {
    if name == "workspace"@ {
        match i32_field(value) {
            Ok(v) => Ok(EventModel::Workspace { wid: v }),
            Err(e) => Err(e),
        }
    } else if name == "workspacev2"@ {
        match split_once_spec(value) {
            Some((a, b)) => match i32_field(a) {
                Ok(v) => Ok(EventModel::Workspacev2 { wid: v, wname: b }),
                Err(e) => Err(e),
            },
            None => Err(HyprError::EventParseFailed),
        }
    } else if name == "focusedmon"@ {
        match split_once_spec(value) {
            Some((a, b)) => Ok(EventModel::Focusedmon { mname: a, wname: b }),
            None => Err(HyprError::EventParseFailed),
        }
    } else if name == "focusedmonv2"@ {
        match split_once_spec(value) {
            Some((a, b)) => match i32_field(b) {
                Ok(v) => Ok(EventModel::Focusedmonv2 { mname: a, wid: v }),
                Err(e) => Err(e),
            },
            None => Err(HyprError::EventParseFailed),
        }
    } else if name == "activewindow"@ {
        match split_once_spec(value) {
            Some((a, b)) => Ok(EventModel::Activewindow { winclass: a, wintitle: b }),
            None => Err(HyprError::EventParseFailed),
        }
    } else if name == "activewindowv2"@ {
        Ok(EventModel::Activewindowv2 { winaddr: value })
    } else if name == "fullscreen"@ {
        match parse_raw_spec(value) {
            Ok(fs) => Ok(EventModel::Fullscreen { fstate: fs }),
            Err(e) => Err(e),
        }
    } else if name == "monitorremoved"@ {
        Ok(EventModel::Monitorremoved { mname: value })
    } else if name == "monitorremovedv2"@ {
        match split_twice_spec(value) {
            Some((a, b, c)) => match i32_field(a) {
                Ok(v) => Ok(EventModel::Monitorremovedv2 { mid: v, mname: b, mdesc: c }),
                Err(e) => Err(e),
            },
            None => Err(HyprError::EventParseFailed),
        }
    } else if name == "monitoradded"@ {
        Ok(EventModel::Monitoradded { mname: value })
    } else if name == "monitoraddedv2"@ {
        match split_twice_spec(value) {
            Some((a, b, c)) => match i32_field(a) {
                Ok(v) => Ok(EventModel::Monitoraddedv2 { mid: v, mname: b, mdesc: c }),
                Err(e) => Err(e),
            },
            None => Err(HyprError::EventParseFailed),
        }
    } else {
        parse_body_spec_b(name, value)
    }
}

/// Continuation of the field table.
pub open spec fn parse_body_spec_b(name: Seq<char>, value: Seq<char>) -> Result<
    EventModel,
    HyprError,
> {
    if name == "createworkspace"@ {
        Ok(EventModel::Createworkspace { wname: value })
    } else if name == "createworkspacev2"@ {
        match split_once_spec(value) {
            Some((a, b)) => match i32_field(a) {
                Ok(v) => Ok(EventModel::Createworkspacev2 { wid: v, wname: b }),
                Err(e) => Err(e),
            },
            None => Err(HyprError::EventParseFailed),
        }
    } else if name == "destroyworkspace"@ {
        Ok(EventModel::Destroyworkspace { wname: value })
    } else if name == "destroyworkspacev2"@ {
        match split_once_spec(value) {
            Some((a, b)) => match i32_field(a) {
                Ok(v) => Ok(EventModel::Destroyworkspacev2 { wid: v, wname: b }),
                Err(e) => Err(e),
            },
            None => Err(HyprError::EventParseFailed),
        }
    } else if name == "moveworkspace"@ {
        match split_once_spec(value) {
            Some((a, b)) => Ok(EventModel::Moveworkspace { wname: a, mname: b }),
            None => Err(HyprError::EventParseFailed),
        }
    } else if name == "moveworkspacev2"@ {
        match split_twice_spec(value) {
            Some((a, b, c)) => match i32_field(a) {
                Ok(v) => Ok(EventModel::Moveworkspacev2 { wid: v, wname: b, mname: c }),
                Err(e) => Err(e),
            },
            None => Err(HyprError::EventParseFailed),
        }
    } else if name == "renameworkspace"@ {
        match split_once_spec(value) {
            Some((a, b)) => match i32_field(a) {
                Ok(v) => Ok(EventModel::Renameworkspace { wid: v, new_name: b }),
                Err(e) => Err(e),
            },
            None => Err(HyprError::EventParseFailed),
        }
    } else if name == "activespecial"@ {
        match split_once_spec(value) {
            Some((a, b)) => Ok(EventModel::Activespecial { wname: a, mname: b }),
            None => Err(HyprError::EventParseFailed),
        }
    } else if name == "activespecialv2"@ {
        match split_twice_spec(value) {
            Some((a, b, c)) => match i32_field(a) {
                Ok(v) => Ok(EventModel::Activespecialv2 { wid: v, wname: b, mname: c }),
                Err(e) => Err(e),
            },
            None => Err(HyprError::EventParseFailed),
        }
    } else if name == "activelayout"@ {
        match split_once_spec(value) {
            Some((a, b)) => Ok(EventModel::Activelayout { kname: a, lname: b }),
            None => Err(HyprError::EventParseFailed),
        }
    } else if name == "openwindow"@ {
        match split_thrice_spec(value) {
            Some((a, b, c, d)) => Ok(EventModel::Openwindow { waddr: a, wname: b, winclass: c, wintitle: d }),
            None => Err(HyprError::EventParseFailed),
        }
    } else {
        parse_body_spec_c(name, value)
    }
}

/// Continuation of the field table.
pub open spec fn parse_body_spec_c(name: Seq<char>, value: Seq<char>) -> Result<
    EventModel,
    HyprError,
> {
    if name == "closewindow"@ {
        Ok(EventModel::Closewindow { waddr: value })
    } else if name == "movewindow"@ {
        match split_once_spec(value) {
            Some((a, b)) => Ok(EventModel::Movewindow { waddr: a, wname: b }),
            None => Err(HyprError::EventParseFailed),
        }
    } else if name == "movewindowv2"@ {
        match split_twice_spec(value) {
            Some((a, b, c)) => match i32_field(b) {
                Ok(v) => Ok(EventModel::Movewindowv2 { waddr: a, wid: v, wname: c }),
                Err(e) => Err(e),
            },
            None => Err(HyprError::EventParseFailed),
        }
    } else if name == "openlayer"@ {
        Ok(EventModel::Openlayer { nspace: value })
    } else if name == "closelayer"@ {
        Ok(EventModel::Closelayer { nspace: value })
    } else if name == "submap"@ {
        Ok(EventModel::Submap { smname: value })
    } else if name == "changefloatingmode"@ {
        match split_once_spec(value) {
            Some((a, b)) => Ok(EventModel::Changefloatingmode { waddr: a, float: b }),
            None => Err(HyprError::EventParseFailed),
        }
    } else if name == "urgent"@ {
        Ok(EventModel::Urgent { waddr: value })
    } else if name == "screencast"@ {
        match split_once_spec(value) {
            Some((a, b)) => Ok(EventModel::Screencast { state: a, owner: b }),
            None => Err(HyprError::EventParseFailed),
        }
    } else if name == "windowtitle"@ {
        Ok(EventModel::Windowtitle { waddr: value })
    } else if name == "windowtitlev2"@ {
        match split_once_spec(value) {
            Some((a, b)) => Ok(EventModel::Windowtitlev2 { waddr: a, wintitle: b }),
            None => Err(HyprError::EventParseFailed),
        }
    } else {
        parse_body_spec_d(name, value)
    }
}

/// Last part of the field table.
pub open spec fn parse_body_spec_d(name: Seq<char>, value: Seq<char>) -> Result<
    EventModel,
    HyprError,
> {
    if name == "togglegroup"@ {
        Ok(EventModel::Togglegroup)
    } else if name == "moveintogroup"@ {
        Ok(EventModel::Moveintogroup { waddr: value })
    } else if name == "moveoutofgroup"@ {
        Ok(EventModel::Moveoutofgroup { waddr: value })
    } else if name == "ignoregrouplock"@ {
        Ok(EventModel::Ignoregrouplock)
    } else if name == "lockgroups"@ {
        Ok(EventModel::Lockgroups)
    } else if name == "configreloaded"@ {
        Ok(EventModel::Configreloaded)
    } else if name == "pin"@ {
        match split_once_spec(value) {
            Some((a, b)) => Ok(EventModel::Pin { waddr: a, pstate: b }),
            None => Err(HyprError::EventParseFailed),
        }
    } else if name == "minimized"@ {
        match split_once_spec(value) {
            Some((a, b)) => match i8_field(b) {
                Ok(v) => Ok(EventModel::Minimized { waddr: a, action: v }),
                Err(e) => Err(e),
            },
            None => Err(HyprError::EventParseFailed),
        }
    } else if name == "bell"@ {
        Ok(EventModel::Bell { waddr: value })
    } else {
        Ok(EventModel::IgnoredEvent)
    }
}

/// What parsing one raw line yields: split at the first `>>`, then decode
/// the value per the event name's field table.
pub open spec fn parse_event_spec(s: Seq<char>) -> Result<EventModel, HyprError> {
    match split_event_spec(s) {
        Some((name, value)) => parse_body_spec(name, value),
        None => Err(HyprError::EventParseFailed),
    }
}

impl HyprlandEvent {
    /// Parses one raw line of the compositor's event stream.
    ///
    /// A line with a known event name and the documented field count parses
    /// to the matching variant; an unknown event name parses to
    /// `IgnoredEvent`; a missing separator, a wrong field count or a bad
    /// integer field is an error.
    pub fn parse_event(raw: &str) -> (r: Result<Self, HyprError>)
        ensures
            match parse_event_spec(raw@) {
                Ok(ev) => r matches Ok(x) && x@ == ev,
                Err(e) => r matches Err(x) && x == e,
            },
    {
        match split_event(raw) {
            Some((event, value)) => Self::parse_body(event, value),
            None => Err(HyprError::EventParseFailed),
        }
    }

    /// Decodes the value of one event per the event name's field table.
    #[verifier::rlimit(60)]
    #[verifier::spinoff_prover]
    fn parse_body(event: &str, value: &str) -> (r: Result<Self, HyprError>)
        ensures
            match parse_body_spec(event@, value@) {
                Ok(ev) => r matches Ok(x) && x@ == ev,
                Err(e) => r matches Err(x) && x == e,
            },
    {
        if str_eq(event, "workspace") {
            match parse_i32(value) {
                Ok(v) => Ok(HyprlandEvent::Workspace { wid: v }),
                Err(e) => Err(e),
            }
        } else if str_eq(event, "workspacev2") {
            match value_split_once(value) {
                Ok((a, b)) => match parse_i32(a) {
                    Ok(v) => Ok(HyprlandEvent::Workspacev2 { wid: v, wname: b.to_owned() }),
                    Err(e) => Err(e),
                },
                Err(e) => Err(e),
            }
        } else if str_eq(event, "focusedmon") {
            match value_split_once(value) {
                Ok((a, b)) => Ok(HyprlandEvent::Focusedmon { mname: a.to_owned(), wname: b.to_owned() }),
                Err(e) => Err(e),
            }
        } else if str_eq(event, "focusedmonv2") {
            match value_split_once(value) {
                Ok((a, b)) => match parse_i32(b) {
                    Ok(v) => Ok(HyprlandEvent::Focusedmonv2 { mname: a.to_owned(), wid: v }),
                    Err(e) => Err(e),
                },
                Err(e) => Err(e),
            }
        } else if str_eq(event, "activewindow") {
            match value_split_once(value) {
                Ok((a, b)) => Ok(HyprlandEvent::Activewindow { winclass: a.to_owned(), wintitle: b.to_owned() }),
                Err(e) => Err(e),
            }
        } else if str_eq(event, "activewindowv2") {
            Ok(HyprlandEvent::Activewindowv2 { winaddr: value.to_owned() })
        } else if str_eq(event, "fullscreen") {
            match FullscreenEvent::parse_raw(value) {
                Ok(fs) => Ok(HyprlandEvent::Fullscreen { fstate: fs }),
                Err(e) => Err(e),
            }
        } else if str_eq(event, "monitorremoved") {
            Ok(HyprlandEvent::Monitorremoved { mname: value.to_owned() })
        } else if str_eq(event, "monitorremovedv2") {
            match value_split_twice(value) {
                Ok((a, b, c)) => match parse_i32(a) {
                    Ok(v) => Ok(HyprlandEvent::Monitorremovedv2 { mid: v, mname: b.to_owned(), mdesc: c.to_owned() }),
                    Err(e) => Err(e),
                },
                Err(e) => Err(e),
            }
        } else if str_eq(event, "monitoradded") {
            Ok(HyprlandEvent::Monitoradded { mname: value.to_owned() })
        } else if str_eq(event, "monitoraddedv2") {
            match value_split_twice(value) {
                Ok((a, b, c)) => match parse_i32(a) {
                    Ok(v) => Ok(HyprlandEvent::Monitoraddedv2 { mid: v, mname: b.to_owned(), mdesc: c.to_owned() }),
                    Err(e) => Err(e),
                },
                Err(e) => Err(e),
            }
        } else {
            Self::parse_body_b(event, value)
        }
    }

    /// Continuation of the decoder.
    #[verifier::rlimit(60)]
    #[verifier::spinoff_prover]
    fn parse_body_b(event: &str, value: &str) -> (r: Result<Self, HyprError>)
        ensures
            match parse_body_spec_b(event@, value@) {
                Ok(ev) => r matches Ok(x) && x@ == ev,
                Err(e) => r matches Err(x) && x == e,
            },
    {
        if str_eq(event, "createworkspace") {
            Ok(HyprlandEvent::Createworkspace { wname: value.to_owned() })
        } else if str_eq(event, "createworkspacev2") {
            match value_split_once(value) {
                Ok((a, b)) => match parse_i32(a) {
                    Ok(v) => Ok(HyprlandEvent::Createworkspacev2 { wid: v, wname: b.to_owned() }),
                    Err(e) => Err(e),
                },
                Err(e) => Err(e),
            }
        } else if str_eq(event, "destroyworkspace") {
            Ok(HyprlandEvent::Destroyworkspace { wname: value.to_owned() })
        } else if str_eq(event, "destroyworkspacev2") {
            match value_split_once(value) {
                Ok((a, b)) => match parse_i32(a) {
                    Ok(v) => Ok(HyprlandEvent::Destroyworkspacev2 { wid: v, wname: b.to_owned() }),
                    Err(e) => Err(e),
                },
                Err(e) => Err(e),
            }
        } else if str_eq(event, "moveworkspace") {
            match value_split_once(value) {
                Ok((a, b)) => Ok(HyprlandEvent::Moveworkspace { wname: a.to_owned(), mname: b.to_owned() }),
                Err(e) => Err(e),
            }
        } else if str_eq(event, "moveworkspacev2") {
            match value_split_twice(value) {
                Ok((a, b, c)) => match parse_i32(a) {
                    Ok(v) => Ok(HyprlandEvent::Moveworkspacev2 { wid: v, wname: b.to_owned(), mname: c.to_owned() }),
                    Err(e) => Err(e),
                },
                Err(e) => Err(e),
            }
        } else if str_eq(event, "renameworkspace") {
            match value_split_once(value) {
                Ok((a, b)) => match parse_i32(a) {
                    Ok(v) => Ok(HyprlandEvent::Renameworkspace { wid: v, new_name: b.to_owned() }),
                    Err(e) => Err(e),
                },
                Err(e) => Err(e),
            }
        } else if str_eq(event, "activespecial") {
            match value_split_once(value) {
                Ok((a, b)) => Ok(HyprlandEvent::Activespecial { wname: a.to_owned(), mname: b.to_owned() }),
                Err(e) => Err(e),
            }
        } else if str_eq(event, "activespecialv2") {
            match value_split_twice(value) {
                Ok((a, b, c)) => match parse_i32(a) {
                    Ok(v) => Ok(HyprlandEvent::Activespecialv2 { wid: v, wname: b.to_owned(), mname: c.to_owned() }),
                    Err(e) => Err(e),
                },
                Err(e) => Err(e),
            }
        } else if str_eq(event, "activelayout") {
            match value_split_once(value) {
                Ok((a, b)) => Ok(HyprlandEvent::Activelayout { kname: a.to_owned(), lname: b.to_owned() }),
                Err(e) => Err(e),
            }
        } else if str_eq(event, "openwindow") {
            match value_split_thrice(value) {
                Ok((a, b, c, d)) => Ok(HyprlandEvent::Openwindow { waddr: a.to_owned(), wname: b.to_owned(), winclass: c.to_owned(), wintitle: d.to_owned() }),
                Err(e) => Err(e),
            }
        } else {
            Self::parse_body_c(event, value)
        }
    }

    /// Continuation of the decoder.
    #[verifier::rlimit(60)]
    #[verifier::spinoff_prover]
    fn parse_body_c(event: &str, value: &str) -> (r: Result<Self, HyprError>)
        ensures
            match parse_body_spec_c(event@, value@) {
                Ok(ev) => r matches Ok(x) && x@ == ev,
                Err(e) => r matches Err(x) && x == e,
            },
    {
        if str_eq(event, "closewindow") {
            Ok(HyprlandEvent::Closewindow { waddr: value.to_owned() })
        } else if str_eq(event, "movewindow") {
            match value_split_once(value) {
                Ok((a, b)) => Ok(HyprlandEvent::Movewindow { waddr: a.to_owned(), wname: b.to_owned() }),
                Err(e) => Err(e),
            }
        } else if str_eq(event, "movewindowv2") {
            match value_split_twice(value) {
                Ok((a, b, c)) => match parse_i32(b) {
                    Ok(v) => Ok(HyprlandEvent::Movewindowv2 { waddr: a.to_owned(), wid: v, wname: c.to_owned() }),
                    Err(e) => Err(e),
                },
                Err(e) => Err(e),
            }
        } else if str_eq(event, "openlayer") {
            Ok(HyprlandEvent::Openlayer { nspace: value.to_owned() })
        } else if str_eq(event, "closelayer") {
            Ok(HyprlandEvent::Closelayer { nspace: value.to_owned() })
        } else if str_eq(event, "submap") {
            Ok(HyprlandEvent::Submap { smname: value.to_owned() })
        } else if str_eq(event, "changefloatingmode") {
            match value_split_once(value) {
                Ok((a, b)) => Ok(HyprlandEvent::Changefloatingmode { waddr: a.to_owned(), float: b.to_owned() }),
                Err(e) => Err(e),
            }
        } else if str_eq(event, "urgent") {
            Ok(HyprlandEvent::Urgent { waddr: value.to_owned() })
        } else if str_eq(event, "screencast") {
            match value_split_once(value) {
                Ok((a, b)) => Ok(HyprlandEvent::Screencast { state: a.to_owned(), owner: b.to_owned() }),
                Err(e) => Err(e),
            }
        } else if str_eq(event, "windowtitle") {
            Ok(HyprlandEvent::Windowtitle { waddr: value.to_owned() })
        } else if str_eq(event, "windowtitlev2") {
            match value_split_once(value) {
                Ok((a, b)) => Ok(HyprlandEvent::Windowtitlev2 { waddr: a.to_owned(), wintitle: b.to_owned() }),
                Err(e) => Err(e),
            }
        } else {
            Self::parse_body_d(event, value)
        }
    }

    /// Last part of the decoder.
    #[verifier::rlimit(60)]
    #[verifier::spinoff_prover]
    fn parse_body_d(event: &str, value: &str) -> (r: Result<Self, HyprError>)
        ensures
            match parse_body_spec_d(event@, value@) {
                Ok(ev) => r matches Ok(x) && x@ == ev,
                Err(e) => r matches Err(x) && x == e,
            },
    {
        if str_eq(event, "togglegroup") {
            Ok(HyprlandEvent::Togglegroup)
        } else if str_eq(event, "moveintogroup") {
            Ok(HyprlandEvent::Moveintogroup { waddr: value.to_owned() })
        } else if str_eq(event, "moveoutofgroup") {
            Ok(HyprlandEvent::Moveoutofgroup { waddr: value.to_owned() })
        } else if str_eq(event, "ignoregrouplock") {
            Ok(HyprlandEvent::Ignoregrouplock)
        } else if str_eq(event, "lockgroups") {
            Ok(HyprlandEvent::Lockgroups)
        } else if str_eq(event, "configreloaded") {
            Ok(HyprlandEvent::Configreloaded)
        } else if str_eq(event, "pin") {
            match value_split_once(value) {
                Ok((a, b)) => Ok(HyprlandEvent::Pin { waddr: a.to_owned(), pstate: b.to_owned() }),
                Err(e) => Err(e),
            }
        } else if str_eq(event, "minimized") {
            match value_split_once(value) {
                Ok((a, b)) => match parse_i8(b) {
                    Ok(v) => Ok(HyprlandEvent::Minimized { waddr: a.to_owned(), action: v }),
                    Err(e) => Err(e),
                },
                Err(e) => Err(e),
            }
        } else if str_eq(event, "bell") {
            Ok(HyprlandEvent::Bell { waddr: value.to_owned() })
        } else {
            Ok(HyprlandEvent::IgnoredEvent)
        }
    }
}

/// Whether `name` is one of the event names of the protocol's field table.
pub open spec fn known_event_name(name: Seq<char>) -> bool {
    ||| name == "workspace"@
    ||| name == "workspacev2"@
    ||| name == "focusedmon"@
    ||| name == "focusedmonv2"@
    ||| name == "activewindow"@
    ||| name == "activewindowv2"@
    ||| name == "fullscreen"@
    ||| name == "monitorremoved"@
    ||| name == "monitorremovedv2"@
    ||| name == "monitoradded"@
    ||| name == "monitoraddedv2"@
    ||| name == "createworkspace"@
    ||| name == "createworkspacev2"@
    ||| name == "destroyworkspace"@
    ||| name == "destroyworkspacev2"@
    ||| name == "moveworkspace"@
    ||| name == "moveworkspacev2"@
    ||| name == "renameworkspace"@
    ||| name == "activespecial"@
    ||| name == "activespecialv2"@
    ||| name == "activelayout"@
    ||| name == "openwindow"@
    ||| name == "closewindow"@
    ||| name == "movewindow"@
    ||| name == "movewindowv2"@
    ||| name == "openlayer"@
    ||| name == "closelayer"@
    ||| name == "submap"@
    ||| name == "changefloatingmode"@
    ||| name == "urgent"@
    ||| name == "screencast"@
    ||| name == "windowtitle"@
    ||| name == "windowtitlev2"@
    ||| name == "togglegroup"@
    ||| name == "moveintogroup"@
    ||| name == "moveoutofgroup"@
    ||| name == "ignoregrouplock"@
    ||| name == "lockgroups"@
    ||| name == "configreloaded"@
    ||| name == "pin"@
    ||| name == "minimized"@
    ||| name == "bell"@
}

/// The protocol is forward compatible: a line whose event name is unknown
/// always parses to the catch-all variant and never fails, whatever its
/// value holds.
pub proof fn lemma_unknown_event_ignored(name: Seq<char>, value: Seq<char>)
    requires
        !known_event_name(name),
    ensures
        parse_body_spec(name, value) == Ok::<EventModel, HyprError>(EventModel::IgnoredEvent),
{
}

} // verus!
