//! Heuristic window discovery: given a process's display name and an
//! enumeration of the top-level windows present at that moment, locate a
//! window that plausibly belongs to the process.
//!
//! The enumeration itself is an OS surface; callers hand in the list of
//! windows (handle, class, title), and discovery is a pure first-match scan:
//! first by the well-known window class for the name, then by exact or
//! substring title match, last by case-insensitive substring title match.
//! `None` is a valid outcome, not an error: it means no save attempt is
//! possible.

use vstd::prelude::*;

use crate::targets::spec_window_class;
use crate::targets::window_class_for;
use crate::text::contains_ci;
use crate::text::contains_str;
use crate::text::spec_contains;
use crate::text::spec_contains_ci;
use crate::text::str_eq;

verus! {

/// One top-level window, as reported by the OS enumeration surface: an opaque
/// handle, the window's class name, and its title.
#[derive(Clone, Debug)]
pub struct WindowInfo {
    pub handle: u64,
    pub class: String,
    pub title: String,
}

/// The handle of the first window whose class is exactly `cls`.
pub open spec fn first_class_match(ws: Seq<WindowInfo>, cls: Seq<char>) -> Option<u64>
    decreases ws.len(),
{
    if ws.len() == 0 {
        None
    } else if ws[0].class@ == cls {
        Some(ws[0].handle)
    } else {
        first_class_match(ws.drop_first(), cls)
    }
}

/// The handle of the first window whose title equals `name` or contains it as
/// a substring, comparing exactly.
pub open spec fn first_title_match(ws: Seq<WindowInfo>, name: Seq<char>) -> Option<u64>
    decreases ws.len(),
{
    if ws.len() == 0 {
        None
    } else if ws[0].title@ == name || spec_contains(ws[0].title@, name) {
        Some(ws[0].handle)
    } else {
        first_title_match(ws.drop_first(), name)
    }
}

/// The handle of the first window whose title contains `name` up to ASCII
/// case.
pub open spec fn first_title_ci_match(ws: Seq<WindowInfo>, name: Seq<char>) -> Option<u64>
    decreases ws.len(),
{
    if ws.len() == 0 {
        None
    } else if spec_contains_ci(ws[0].title@, name) {
        Some(ws[0].handle)
    } else {
        first_title_ci_match(ws.drop_first(), name)
    }
}

/// The discovery algorithm over an enumeration `ws`: the class-table match if
/// the name has a known class and such a window exists, else the first exact
/// or substring title match, else the first case-insensitive substring title
/// match, else nothing.
pub open spec fn spec_discover(ws: Seq<WindowInfo>, name: Seq<char>) -> Option<u64> {
    let by_class = match spec_window_class(name) {
        Option::Some(cls) => first_class_match(ws, cls),
        Option::None => None,
    };
    if by_class is Some {
        by_class
    } else if first_title_match(ws, name) is Some {
        first_title_match(ws, name)
    } else {
        first_title_ci_match(ws, name)
    }
}

fn find_by_class(windows: &Vec<WindowInfo>, cls: &str) -> (r: Option<u64>)
    ensures
        r == first_class_match(windows@, cls@),
{
    let n = windows.len();
    let mut i: usize = 0;
    proof {
        assert(windows@.skip(0) =~= windows@);
    }
    while i < n
        invariant
            n == windows@.len(),
            i <= n,
            first_class_match(windows@, cls@) == first_class_match(windows@.skip(i as int), cls@),
        decreases n - i,
    {
        proof {
            assert(windows@.skip(i as int)[0] == windows@[i as int]);
            assert(windows@.skip(i as int).drop_first() =~= windows@.skip(i + 1));
        }
        if str_eq(windows[i].class.as_str(), cls) {
            return Some(windows[i].handle);
        }
        i += 1;
    }
    proof {
        assert(windows@.skip(n as int) =~= Seq::<WindowInfo>::empty());
    }
    None
}

fn find_by_title(windows: &Vec<WindowInfo>, name: &str) -> (r: Option<u64>)
    ensures
        r == first_title_match(windows@, name@),
{
    let n = windows.len();
    let mut i: usize = 0;
    proof {
        assert(windows@.skip(0) =~= windows@);
    }
    while i < n
        invariant
            n == windows@.len(),
            i <= n,
            first_title_match(windows@, name@) == first_title_match(
                windows@.skip(i as int),
                name@,
            ),
        decreases n - i,
    {
        proof {
            assert(windows@.skip(i as int)[0] == windows@[i as int]);
            assert(windows@.skip(i as int).drop_first() =~= windows@.skip(i + 1));
        }
        if str_eq(windows[i].title.as_str(), name) || contains_str(windows[i].title.as_str(), name) {
            return Some(windows[i].handle);
        }
        i += 1;
    }
    proof {
        assert(windows@.skip(n as int) =~= Seq::<WindowInfo>::empty());
    }
    None
}

fn find_by_title_ci(windows: &Vec<WindowInfo>, name: &str) -> (r: Option<u64>)
    ensures
        r == first_title_ci_match(windows@, name@),
{
    let n = windows.len();
    let mut i: usize = 0;
    proof {
        assert(windows@.skip(0) =~= windows@);
    }
    while i < n
        invariant
            n == windows@.len(),
            i <= n,
            first_title_ci_match(windows@, name@) == first_title_ci_match(
                windows@.skip(i as int),
                name@,
            ),
        decreases n - i,
    {
        proof {
            assert(windows@.skip(i as int)[0] == windows@[i as int]);
            assert(windows@.skip(i as int).drop_first() =~= windows@.skip(i + 1));
        }
        if contains_ci(windows[i].title.as_str(), name) {
            return Some(windows[i].handle);
        }
        i += 1;
    }
    proof {
        assert(windows@.skip(n as int) =~= Seq::<WindowInfo>::empty());
    }
    None
}

/// Locate a live top-level window for the process named `name` among the
/// enumerated windows `windows`, stopping at the first of the three steps
/// that yields a handle.
pub fn discover_window(windows: &Vec<WindowInfo>, name: &str) -> (r: Option<u64>)
    ensures
        r == spec_discover(windows@, name@),
{
    if let Some(cls) = window_class_for(name) {
        let by_class = find_by_class(windows, cls);
        if by_class.is_some() {
            return by_class;
        }
    }
    let by_title = find_by_title(windows, name);
    if by_title.is_some() {
        return by_title;
    }
    find_by_title_ci(windows, name)
}

} // verus!
