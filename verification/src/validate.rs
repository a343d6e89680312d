//! The service's validation rules for request fields.
//!
//! An email address is accepted when it starts with one or more
//! local-part characters, then `@`, then at least one domain-label
//! character; anything after that first label character is not
//! constrained.  A phone number is accepted when it has at least nine
//! characters.

use vstd::prelude::*;
use crate::text::is_ascii_alphanumeric_char;

verus! {

/// A character allowed in the local part of an email address.
pub open spec fn is_email_atext(c: char) -> bool {
    ||| is_ascii_alphanumeric_char(c)
    ||| c == '.' || c == '!' || c == '#' || c == '$' || c == '%' || c == '&' || c == '\u{2019}'
    ||| c == '*' || c == '+' || c == '/' || c == '=' || c == '?' || c == '^' || c == '_'
    ||| c == '`' || c == '{' || c == '|' || c == '}' || c == '~' || c == '-'
}

/// A character allowed in a domain label of an email address.
pub open spec fn is_email_label_char(c: char) -> bool {
    is_ascii_alphanumeric_char(c) || c == '-'
}

/// The email rule: a non-empty run of local-part characters, an `@`,
/// and at least one domain-label character.
pub open spec fn valid_email(s: Seq<char>) -> bool {
    exists|i: int|
        1 <= i && i + 1 < s.len() && #[trigger] s[i] == '@'
        && (forall|j: int| 0 <= j < i ==> is_email_atext(s[j]))
        && is_email_label_char(s[i + 1])
}

/// The phone rule: at least nine characters.
pub open spec fn valid_phone(s: Seq<char>) -> bool {
    s.len() >= 9
}

/// A character allowed in the local part of an email address.
fn is_atext_char(c: char) -> (r: bool)
    ensures
        r == is_email_atext(c),
{
    ('a' <= c && c <= 'z') || ('A' <= c && c <= 'Z') || ('0' <= c && c <= '9')
        || c == '.' || c == '!' || c == '#' || c == '$' || c == '%' || c == '&' || c == '\u{2019}'
        || c == '*' || c == '+' || c == '/' || c == '=' || c == '?' || c == '^' || c == '_'
        || c == '`' || c == '{' || c == '|' || c == '}' || c == '~' || c == '-'
}

/// A character allowed in a domain label of an email address.
fn is_label_char(c: char) -> (r: bool)
    ensures
        r == is_email_label_char(c),
{
    ('a' <= c && c <= 'z') || ('A' <= c && c <= 'Z') || ('0' <= c && c <= '9') || c == '-'
}

/// Whether the text is an acceptable email address.
pub fn is_valid_email(s: &str) -> (r: bool)
    ensures
        r == valid_email(s@),
{
    let n = s.unicode_len();
    let mut i: usize = 0;
    while i < n
        invariant
            0 <= i <= n,
            n == s@.len(),
            forall|j: int| 0 <= j < i ==> is_email_atext(#[trigger] s@[j]) && s@[j] != '@',
        decreases n - i,
    {
        let c = s.get_char(i);
        if c == '@' {
            if i >= 1 && i + 1 < n && is_label_char(s.get_char(i + 1)) {
                return true;
            } else {
                proof {
                    assert forall|i2: int| !(1 <= i2 && i2 + 1 < s@.len() && #[trigger] s@[i2] == '@'
                        && (forall|j: int| 0 <= j < i2 ==> is_email_atext(s@[j]))
                        && is_email_label_char(s@[i2 + 1])) by {
                        if 1 <= i2 && i2 + 1 < s@.len() && s@[i2] == '@'
                            && (forall|j: int| 0 <= j < i2 ==> is_email_atext(s@[j])) {
                            if i2 > i {
                                assert(is_email_atext(s@[i as int]));
                                assert(!is_email_atext('@'));
                            } else {
                                assert(i2 == i);
                            }
                        }
                    }
                }
                return false;
            }
        }
        if !is_atext_char(c) {
            proof {
                assert forall|i2: int| !(1 <= i2 && i2 + 1 < s@.len() && #[trigger] s@[i2] == '@'
                    && (forall|j: int| 0 <= j < i2 ==> is_email_atext(s@[j]))
                    && is_email_label_char(s@[i2 + 1])) by {
                    if 1 <= i2 && i2 + 1 < s@.len() && s@[i2] == '@'
                        && (forall|j: int| 0 <= j < i2 ==> is_email_atext(s@[j])) {
                        assert(i2 != i as int);
                        if i2 > i {
                            assert(is_email_atext(s@[i as int]));
                        }
                    }
                }
            }
            return false;
        }
        i = i + 1;
    }
    proof {
        assert forall|i2: int| !(1 <= i2 && i2 + 1 < s@.len() && #[trigger] s@[i2] == '@') by {
            if 1 <= i2 && i2 + 1 < s@.len() {
                assert(s@[i2] != '@');
            }
        }
    }
    false
}

/// Whether the text is an acceptable phone number.
pub fn is_valid_phone(s: &str) -> (r: bool)
    ensures
        r == valid_phone(s@),
{
    s.unicode_len() >= 9
}

} // verus!
