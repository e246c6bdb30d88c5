use crate::error::{CliError, ErrorView};
use crate::text::{
    chars_of, cut, cut_text, decimal_text, group_digits, grouped, parse_bounded, trim, trimmed,
    u128_to_string, u64_to_string, unsigned_of,
};
use vstd::prelude::*;
use vstd::utf8::{encode_utf8, is_char_boundary};

verus! {

/// Checks on what the operator typed.
pub struct InputHelper;

/// The number that `s` writes as a signed decimal in the range of `i64`: an
/// optional sign, then one digit or more.
pub open spec fn signed_of(s: Seq<char>) -> Option<int> {
    if s.len() > 0 && s[0] == '-' {
        match unsigned_of(s.drop_first(), 0x8000_0000_0000_0000) {
            Some(n) => if s.len() > 1 && s[1] == '+' {
                None
            } else {
                Some(-(n as int))
            },
            None => None,
        }
    } else {
        match unsigned_of(s, 0x7FFF_FFFF_FFFF_FFFF) {
            Some(n) => Some(n as int),
            None => None,
        }
    }
}

/// Parses an `i64` as `str::parse` does.
pub fn parse_i64(s: &str) -> (r: Option<i64>)
    ensures
        match r {
            Some(n) => signed_of(s@) == Some(n as int),
            None => signed_of(s@) is None,
        },
{
    let v = chars_of(s);
    if v.len() > 0 && v[0] == '-' {
        if v.len() > 1 && v[1] == '+' {
            return None;
        }
        let rest = crate::text::slice_chars(&v, 1, v.len());
        assert(v@.subrange(1, v.len() as int) == v@.drop_first());
        let body = crate::text::string_of(&rest);
        match parse_bounded(body.as_str(), 0x8000_0000_0000_0000) {
            Some(n) => {
                if n == 0x8000_0000_0000_0000 {
                    Some(i64::MIN)
                } else {
                    Some(-(n as i64))
                }
            },
            None => None,
        }
    } else {
        match parse_bounded(s, 0x7FFF_FFFF_FFFF_FFFF) {
            Some(n) => Some(n as i64),
            None => None,
        }
    }
}

/// The number that an answer stands for: the number that it writes, or the
/// default where it writes none; and the least number allowed where that is less.
pub open spec fn number_or_default(input: Seq<char>, default: i64, min: i64) -> int {
    let value = match signed_of(trimmed(input)) {
        Some(n) => n,
        None => default as int,
    };
    if value < min {
        min as int
    } else {
        value
    }
}

impl InputHelper {
    /// Accepts an answer that is not empty, without the white space around it.
    pub fn prompt_non_empty(input: &str) -> (r: Result<String, CliError>)
        ensures
            match r {
                Ok(t) => t@ == trimmed(input@) && t@.len() > 0,
                Err(e) => trimmed(input@).len() == 0 && e@ == ErrorView::InvalidInput(
                    "Input cannot be empty"@,
                ),
            },
    {
        let t = trim(input);
        if chars_of(t.as_str()).len() == 0 {
            return Err(CliError::InvalidInput("Input cannot be empty".to_owned()));
        }
        Ok(t)
    }

    /// Reads a number from an answer; an answer that writes no number stands for
    /// the default, and no answer stands for less than `min`.
    pub fn prompt_number_with_default(input: &str, default: i64, min: i64) -> (r: Result<
        i64,
        CliError,
    >)
        ensures
            r is Ok,
            r->Ok_0 == number_or_default(input@, default, min),
    {
        let t = trim(input);
        let value = match parse_i64(t.as_str()) {
            Some(n) => n,
            None => default,
        };
        if value < min {
            Ok(min)
        } else {
            Ok(value)
        }
    }
}

/// Ways of writing numbers and texts for the operator.
pub struct FormatHelper;

impl FormatHelper {
    /// A number with a comma between groups of three digits.
    pub fn fmt_int(v: u64) -> (r: String)
        ensures
            r@ == grouped(decimal_text(v as nat)),
    {
        let digits = u64_to_string(v);
        group_digits(digits.as_str())
    }

    /// A number with a comma between groups of three digits.
    pub fn fmt_int_u128(v: u128) -> (r: String)
        ensures
            r@ == grouped(decimal_text(v as nat)),
    {
        let digits = u128_to_string(v);
        group_digits(digits.as_str())
    }

    /// A text made to fit in `max_len` bytes: as it is where it fits, else its
    /// first `max_len - 3` bytes and three dots.
    pub fn truncate_string(s: &str, max_len: usize) -> (r: String)
        requires
            encode_utf8(s@).len() > max_len ==> max_len >= 3 && is_char_boundary(
                encode_utf8(s@),
                max_len - 3,
            ),
        ensures
            r@ == cut_text(s@, max_len as int, max_len - 3, "..."@),
    {
        if s.as_bytes().len() <= max_len {
            s.to_owned()
        } else {
            cut(s, max_len, max_len - 3, "...")
        }
    }
}

} // verus!
