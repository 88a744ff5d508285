//! Declarative validation of a record's name, written out as plain
//! character checks: a name must be 4 to 255 characters long, hold no
//! control character, and match an uppercase letter followed by letters,
//! digits or underscores.
//!
//! The store applies these checks before any mutation, so no invalid
//! payload is ever stored.

use vstd::prelude::*;
use vstd::string::StrSliceExecFns;
use crate::decimal::is_digit;

verus! {

/// An ASCII uppercase letter.
pub open spec fn is_uppercase_letter(c: char) -> bool {
    65 <= c as u32 <= 90
}

/// An ASCII lowercase letter.
pub open spec fn is_lowercase_letter(c: char) -> bool {
    97 <= c as u32 <= 122
}

/// A character allowed after the leading letter of a name: a letter, a
/// digit or an underscore.
pub open spec fn is_word_char(c: char) -> bool {
    is_uppercase_letter(c) || is_lowercase_letter(c) || is_digit(c) || c as u32 == 95
}

/// A control character (the Unicode `Cc` category).
pub open spec fn is_control(c: char) -> bool {
    ((c as u32) < 32) || (127 <= c as u32 <= 159)
}

/// A whitespace character (the Unicode `White_Space` property, the set
/// that `str::trim` strips).
pub open spec fn is_space(c: char) -> bool {
    ||| (9 <= c as u32 <= 13)
    ||| c as u32 == 32
    ||| c as u32 == 133
    ||| c as u32 == 160
    ||| c as u32 == 5760
    ||| (8192 <= c as u32 <= 8202)
    ||| c as u32 == 8232
    ||| c as u32 == 8233
    ||| c as u32 == 8239
    ||| c as u32 == 8287
    ||| c as u32 == 12288
}

/// The length check: 4 to 255 characters.
pub open spec fn length_ok(name: Seq<char>) -> bool {
    4 <= name.len() <= 255
}

/// The control-character check: no character is a control character.
pub open spec fn no_control_chars(name: Seq<char>) -> bool {
    forall|i: int| 0 <= i < name.len() ==> !is_control(#[trigger] name[i])
}

/// The shape check: an uppercase letter followed by at least one letter,
/// digit or underscore.
pub open spec fn pattern_ok(name: Seq<char>) -> bool {
    &&& name.len() >= 2
    &&& is_uppercase_letter(name[0])
    &&& forall|i: int| 1 <= i < name.len() ==> is_word_char(#[trigger] name[i])
}

/// A name is valid when all three checks pass.
pub open spec fn fields_ok(name: Seq<char>) -> bool {
    length_ok(name) && no_control_chars(name) && pattern_ok(name)
}

/// A name is blank when every character is whitespace; the empty name is
/// blank.
pub open spec fn is_blank(s: Seq<char>) -> bool {
    forall|i: int| 0 <= i < s.len() ==> is_space(#[trigger] s[i])
}

/// The whole message carried by a validation error for `name`.
pub open spec fn validation_message(name: Seq<char>) -> Seq<char> {
    validation_message_for(!length_ok(name), !no_control_chars(name), !pattern_ok(name))
}

/// The message for a given combination of failed checks.
pub open spec fn validation_message_for(
    len_failed: bool,
    ctrl_failed: bool,
    pat_failed: bool,
) -> Seq<char> {
    if len_failed && ctrl_failed && pat_failed {
        "Validation failed for: field: 'name' errors: 'length, non_control_character, regex'"@
    } else if len_failed && ctrl_failed {
        "Validation failed for: field: 'name' errors: 'length, non_control_character'"@
    } else if len_failed && pat_failed {
        "Validation failed for: field: 'name' errors: 'length, regex'"@
    } else if ctrl_failed && pat_failed {
        "Validation failed for: field: 'name' errors: 'non_control_character, regex'"@
    } else if len_failed {
        "Validation failed for: field: 'name' errors: 'length'"@
    } else if ctrl_failed {
        "Validation failed for: field: 'name' errors: 'non_control_character'"@
    } else {
        "Validation failed for: field: 'name' errors: 'regex'"@
    }
}

/// Builds the message for a failing combination of checks.
pub fn validation_error_message(len_failed: bool, ctrl_failed: bool, pat_failed: bool) -> (s:
    String)
    requires
        len_failed || ctrl_failed || pat_failed,
    ensures
        s@ == validation_message_for(len_failed, ctrl_failed, pat_failed),
{
    if len_failed && ctrl_failed && pat_failed {
        "Validation failed for: field: 'name' errors: 'length, non_control_character, regex'".to_owned()
    } else if len_failed && ctrl_failed {
        "Validation failed for: field: 'name' errors: 'length, non_control_character'".to_owned()
    } else if len_failed && pat_failed {
        "Validation failed for: field: 'name' errors: 'length, regex'".to_owned()
    } else if ctrl_failed && pat_failed {
        "Validation failed for: field: 'name' errors: 'non_control_character, regex'".to_owned()
    } else if len_failed {
        "Validation failed for: field: 'name' errors: 'length'".to_owned()
    } else if ctrl_failed {
        "Validation failed for: field: 'name' errors: 'non_control_character'".to_owned()
    } else {
        "Validation failed for: field: 'name' errors: 'regex'".to_owned()
    }
}

/// Checks the length rule.
pub fn check_length(name: &str) -> (r: bool)
    ensures
        r == length_ok(name@),
{
    let n = name.unicode_len();
    4 <= n && n <= 255
}

/// Checks the control-character rule.
pub fn check_no_control(name: &str) -> (r: bool)
    ensures
        r == no_control_chars(name@),
{
    let n = name.unicode_len();
    let mut i: usize = 0;
    while i < n
        invariant
            n == name@.len(),
            i <= n,
            forall|k: int| 0 <= k < i ==> !is_control(#[trigger] name@[k]),
        decreases n - i,
    {
        let c = name.get_char(i);
        let code = c as u32;
        if code < 32 || (127 <= code && code <= 159) {
            return false;
        }
        i += 1;
    }
    true
}

/// Checks the shape rule.
pub fn check_pattern(name: &str) -> (r: bool)
    ensures
        r == pattern_ok(name@),
{
    let n = name.unicode_len();
    if n < 2 {
        return false;
    }
    let first = name.get_char(0) as u32;
    if !(65 <= first && first <= 90) {
        return false;
    }
    let mut i: usize = 1;
    while i < n
        invariant
            n == name@.len(),
            1 <= i <= n,
            forall|k: int| 1 <= k < i ==> is_word_char(#[trigger] name@[k]),
        decreases n - i,
    {
        let code = name.get_char(i) as u32;
        let word = (65 <= code && code <= 90) || (97 <= code && code <= 122) || (48 <= code
            && code <= 57) || code == 95;
        if !word {
            return false;
        }
        i += 1;
    }
    true
}

/// Checks whether one character is whitespace.
pub fn is_space_char(c: char) -> (r: bool)
    ensures
        r == is_space(c),
{
    let code = c as u32;
    (9 <= code && code <= 13) || code == 32 || code == 133 || code == 160 || code == 5760 || (8192
        <= code && code <= 8202) || code == 8232 || code == 8233 || code == 8239 || code == 8287
        || code == 12288
}

/// Checks whether a name is blank, that is, empty once trimmed.
pub fn check_blank(name: &str) -> (r: bool)
    ensures
        r == is_blank(name@),
{
    let n = name.unicode_len();
    let mut i: usize = 0;
    while i < n
        invariant
            n == name@.len(),
            i <= n,
            forall|k: int| 0 <= k < i ==> is_space(#[trigger] name@[k]),
        decreases n - i,
    {
        let code = name.get_char(i) as u32;
        let space = (9 <= code && code <= 13) || code == 32 || code == 133 || code == 160 || code
            == 5760 || (8192 <= code && code <= 8202) || code == 8232 || code == 8233 || code
            == 8239 || code == 8287 || code == 12288;
        if !space {
            return false;
        }
        i += 1;
    }
    true
}

} // verus!
