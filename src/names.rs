use crate::error::Error;
use vstd::prelude::*;
use vstd::string::*;

verus! {

/// The longest name the protocol allows, in characters (all of them ASCII).
pub const MAX_NAME_LEN: usize = 255;

pub open spec fn is_digit(c: char) -> bool {
    '0' <= c && c <= '9'
}

/// ASCII letters, digits and the underscore.
pub open spec fn is_name_char(c: char) -> bool {
    ||| is_digit(c)
    ||| ('a' <= c && c <= 'z')
    ||| ('A' <= c && c <= 'Z')
    ||| c == '_'
}

/// Position `i` of `s` is the first character of a dot-separated segment.
pub open spec fn starts_segment(s: Seq<char>, i: int) -> bool {
    i == 0 || s[i - 1] == '.'
}

/// The character at `i` may stand there: a segment starts with a letter or an
/// underscore; inside a segment come name characters; a dot ends a segment.
pub open spec fn char_fits(s: Seq<char>, i: int) -> bool {
    if starts_segment(s, i) {
        is_name_char(s[i]) && !is_digit(s[i])
    } else {
        is_name_char(s[i]) || s[i] == '.'
    }
}

/// The grammar of error names: two or more non-empty segments separated by
/// dots, each made of ASCII letters, digits and underscores and not starting
/// with a digit, at most `MAX_NAME_LEN` characters in all.
pub open spec fn valid_error_name(s: Seq<char>) -> bool {
    &&& 0 < s.len() <= MAX_NAME_LEN
    &&& forall|i: int| 0 <= i < s.len() ==> char_fits(s, i)
    &&& s.last() != '.'
    &&& exists|i: int| 0 <= i < s.len() && s[i] == '.'
}

/// What building an error name from `s` gives: `s` itself where it is a
/// valid name, nothing otherwise.
pub open spec fn parse_error_name(s: Seq<char>) -> Option<Seq<char>> {
    if valid_error_name(s) {
        Some(s)
    } else {
        None
    }
}

fn name_char(c: char) -> (r: bool)
    ensures
        r == is_name_char(c),
{
    ('0' <= c && c <= '9') || ('a' <= c && c <= 'z') || ('A' <= c && c <= 'Z') || c == '_'
}

/// The name of a D-Bus error, such as `org.freedesktop.DBus.Error.Failed`.
/// It always follows the grammar of `valid_error_name`.
#[derive(Clone, Copy, Debug, PartialEq, Eq)]
pub struct ErrorName<'a> {
    name: &'a str,
}

impl<'a> View for ErrorName<'a> {
    type V = Seq<char>;

    closed spec fn view(&self) -> Seq<char> {
        self.name@
    }
}

impl<'a> ErrorName<'a> {
    #[verifier::type_invariant]
    closed spec fn inv(self) -> bool {
        valid_error_name(self.name@)
    }

    /// Checks `s` against the grammar and keeps it as a name.
    pub fn try_from(s: &'a str) -> (r: Result<ErrorName<'a>, Error>)
        ensures
            r is Ok <==> valid_error_name(s@),
            r matches Ok(n) ==> parse_error_name(s@) == Some(n@),
            r matches Err(e) ==> e is InvalidName,
    {
        let len = s.unicode_len();
        if len == 0 || len > MAX_NAME_LEN {
            return Err(Error::InvalidName);
        }
        let mut i: usize = 0;
        let mut at_start = true;
        let mut seen_dot = false;
        while i < len
            invariant
                len == s@.len(),
                i <= len,
                at_start == (i == 0 || s@[i - 1] == '.'),
                forall|j: int| 0 <= j < i ==> char_fits(s@, j),
                seen_dot == exists|j: int| 0 <= j < i && s@[j] == '.',
            decreases len - i,
        {
            let c = s.get_char(i);
            let fits = if at_start {
                name_char(c) && !('0' <= c && c <= '9')
            } else {
                name_char(c) || c == '.'
            };
            if !fits {
                assert(!char_fits(s@, i as int));
                return Err(Error::InvalidName);
            }
            if c == '.' {
                seen_dot = true;
            }
            at_start = c == '.';
            i = i + 1;
        }
        if !seen_dot || s.get_char(len - 1) == '.' {
            return Err(Error::InvalidName);
        }
        Ok(ErrorName { name: s })
    }

    /// The name as text.
    pub fn as_str(&self) -> (r: &'a str)
        ensures
            r@ == self@,
            valid_error_name(r@),
    {
        proof {
            use_type_invariant(self);
        }
        self.name
    }
}

/// A valid name, once built, reads back as the string it was built from.
pub proof fn lemma_error_name_round_trip(s: Seq<char>)
    requires
        valid_error_name(s),
    ensures
        parse_error_name(s) == Some(s),
{
}

/// A string outside the grammar never becomes a name.
pub proof fn lemma_invalid_error_name_rejected(s: Seq<char>)
    requires
        !valid_error_name(s),
    ensures
        parse_error_name(s) is None,
{
}

} // verus!
