//! How the stored mouse-click-mode preference is read: by name, or else by
//! its numeric code.
use vstd::prelude::*;
use vstd::string::StrSliceExecFns;

use crate::config::MouseClickMode;

verus! {

/// `c` with an ASCII capital letter turned into its small letter.
pub open spec fn ascii_lowercase(c: char) -> char {
    if 'A' <= c <= 'Z' {
        ((c as u32) + 32) as char
    } else {
        c
    }
}

/// `s` with its ASCII capital letters turned into small letters.
pub open spec fn ascii_lowercased(s: Seq<char>) -> Seq<char> {
    s.map_values(|c: char| ascii_lowercase(c))
}

/// The mode that a stored name stands for, ignoring ASCII case.
pub open spec fn mode_named(name: Seq<char>) -> Option<MouseClickMode> {
    if ascii_lowercased(name) == "center"@ {
        Some(MouseClickMode::Center)
    } else if ascii_lowercased(name) == "disabled"@ {
        Some(MouseClickMode::Disabled)
    } else if ascii_lowercased(name) == "threefinger"@ {
        Some(MouseClickMode::ThreeFinger)
    } else {
        None
    }
}

fn to_ascii_lowercase(c: char) -> (r: char)
    ensures
        r == ascii_lowercase(c),
{
    if 'A' <= c && c <= 'Z' {
        let b: u8 = c as u8;
        assert(b == c as u32);
        (b + 32) as char
    } else {
        c
    }
}

/// Whether two strings are equal up to the case of ASCII letters.
fn eq_ignore_ascii_case(a: &str, b: &str) -> (r: bool)
    ensures
        r == (ascii_lowercased(a@) == ascii_lowercased(b@)),
{
    let n = a.unicode_len();
    if n != b.unicode_len() {
        assert(ascii_lowercased(a@).len() != ascii_lowercased(b@).len());
        return false;
    }
    let mut i: usize = 0;
    while i < n
        invariant
            n == a@.len(),
            n == b@.len(),
            0 <= i <= n,
            forall|j: int| 0 <= j < i ==> ascii_lowercase(a@[j]) == ascii_lowercase(b@[j]),
        decreases n - i,
    {
        if to_ascii_lowercase(a.get_char(i)) != to_ascii_lowercase(b.get_char(i)) {
            assert(ascii_lowercased(a@)[i as int] != ascii_lowercased(b@)[i as int]);
            return false;
        }
        i = i + 1;
    }
    assert(ascii_lowercased(a@) =~= ascii_lowercased(b@));
    true
}

/// The mode a stored name stands for (`center`, `disabled` or
/// `threeFinger`, in any ASCII case); `None` for other names.
pub fn parse_mouse_click_mode(value: &str) -> (r: Option<MouseClickMode>)
    ensures
        r == mode_named(value@),
{
    proof {
        reveal_strlit("center");
        reveal_strlit("disabled");
        reveal_strlit("threefinger");
    }
    if eq_ignore_ascii_case(value, "center") {
        assert(ascii_lowercased("center"@) =~= "center"@);
        Some(MouseClickMode::Center)
    } else if eq_ignore_ascii_case(value, "disabled") {
        assert(ascii_lowercased("center"@) =~= "center"@);
        assert(ascii_lowercased("disabled"@) =~= "disabled"@);
        Some(MouseClickMode::Disabled)
    } else if eq_ignore_ascii_case(value, "threefinger") {
        assert(ascii_lowercased("center"@) =~= "center"@);
        assert(ascii_lowercased("disabled"@) =~= "disabled"@);
        assert(ascii_lowercased("threefinger"@) =~= "threefinger"@);
        Some(MouseClickMode::ThreeFinger)
    } else {
        assert(ascii_lowercased("center"@) =~= "center"@);
        assert(ascii_lowercased("disabled"@) =~= "disabled"@);
        assert(ascii_lowercased("threefinger"@) =~= "threefinger"@);
        None
    }
}

/// The mode code to use when the preference is stored as a number: the
/// number itself when it is a valid code, the default mode's code otherwise.
pub fn mouse_click_mode_code(stored: i64) -> (r: u32)
    ensures
        r == (if 0 <= stored <= 2 { stored as u32 } else { MouseClickMode::Center.raw_code() }),
{
    if 0 <= stored && stored <= 2 {
        stored as u32
    } else {
        1
    }
}


/// The mode code that the stored preference stands for: the mode named by
/// the stored text when it names one, else the stored number read as a
/// code (`code` is what the preference gives when read as a number).
pub fn mouse_click_mode_from_stored(name: Option<&str>, code: i64) -> (r: u32)
    ensures
        r == match name {
            Some(text) => match mode_named(text@) {
                Some(mode) => mode.raw_code(),
                None => if 0 <= code <= 2 {
                    code as u32
                } else {
                    MouseClickMode::Center.raw_code()
                },
            },
            None => if 0 <= code <= 2 {
                code as u32
            } else {
                MouseClickMode::Center.raw_code()
            },
        },
{
    if let Some(text) = name {
        if let Some(mode) = parse_mouse_click_mode(text) {
            return mode.as_raw();
        }
    }
    mouse_click_mode_code(code)
}

/// Every mode's name reads back as that mode.
pub proof fn law_mode_names_read_back(mode: MouseClickMode)
    ensures
        mode_named(mode.name()) == Some(mode),
{
    reveal_strlit("center");
    reveal_strlit("disabled");
    reveal_strlit("threefinger");
    reveal_strlit("threeFinger");
    assert(ascii_lowercased("center"@) =~= "center"@);
    assert(ascii_lowercased("disabled"@) =~= "disabled"@);
    assert(ascii_lowercased("threeFinger"@) =~= "threefinger"@);
    assert(ascii_lowercased("threefinger"@) =~= "threefinger"@);
}

} // verus!
