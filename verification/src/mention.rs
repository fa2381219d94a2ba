//! How a message mentions a user, and how the user is read back out of it.

use vstd::prelude::*;

use crate::decimal::{decimal, decimal_chars, parse_id, parse_id_spec};
use crate::interaction::verify::VerifyError;
use crate::message::owned;
use crate::text::{char_range, chars_of, string_from_chars};

verus! {

/// How a message mentions the user of the given id.
pub open spec fn mention(id: u64) -> Seq<char> {
    "<@"@ + decimal(id as nat) + ">"@
}

/// The mention of the user of the given id, `<@id>`.
pub fn format_mention(id: u64) -> (r: String)
    ensures
        r@ == mention(id),
{
    let digits = decimal_chars(id);
    let digits = string_from_chars(digits.as_slice());
    let mut r = owned("<@");
    r.append(digits.as_str());
    r.append(">");
    r
}

/// The user id that a mention names: the text must start with `<@` and end
/// with `>`, and what lies between must be a valid id.
pub open spec fn mention_target(s: Seq<char>) -> Result<u64, VerifyError> {
    if s.len() >= 3 && s[0] == '<' && s[1] == '@' && s.last() == '>' {
        match parse_id_spec(s.subrange(2, s.len() - 1)) {
            Some(v) => Ok(v),
            None => Err(VerifyError::InvalidUserId),
        }
    } else {
        Err(VerifyError::MalformedMention)
    }
}

/// Reads the user id out of a mention, as `mention_target` says.
pub fn parse_mention(s: &str) -> (r: Result<u64, VerifyError>)
    ensures
        r == mention_target(s@),
{
    let cs = chars_of(s);
    let n = cs.len();
    if n >= 3 && cs[0] == '<' && cs[1] == '@' && cs[n - 1] == '>' {
        let inner = char_range(cs.as_slice(), 2, n - 1);
        match parse_id(inner.as_slice()) {
            Some(v) => Ok(v),
            None => Err(VerifyError::InvalidUserId),
        }
    } else {
        Err(VerifyError::MalformedMention)
    }
}

/// Reading back a mention gives the id it was made of.
pub proof fn lemma_mention_roundtrip(id: u64)
    requires
        id != 0,
    ensures
        mention_target(mention(id)) == Ok::<u64, VerifyError>(id),
{
    crate::decimal::lemma_parse_decimal(id);
    crate::decimal::lemma_decimal_digits(id as nat);
    reveal_strlit("<@");
    reveal_strlit(">");
    let m = mention(id);
    assert(m.subrange(2, m.len() - 1) =~= decimal(id as nat));
}

} // verus!
