use vstd::prelude::*;

verus! {

/// The longest nickname Discord accepts, in characters.
pub open spec fn nickname_limit() -> nat {
    32
}

/// The longest audit log reason Discord accepts, in characters.
pub open spec fn audit_reason_limit() -> nat {
    512
}

/// Whether Discord accepts the text as a nickname: one to
/// `nickname_limit()` characters.
pub open spec fn nickname_ok(nick: Seq<char>) -> bool {
    1 <= nick.len() <= nickname_limit()
}

/// Whether Discord accepts the text as an audit log reason: at most
/// `audit_reason_limit()` characters.
pub open spec fn audit_reason_ok(reason: Seq<char>) -> bool {
    reason.len() <= audit_reason_limit()
}

/// Reads `twilight_validate::request::NICKNAME_LIMIT_MAX`, the longest
/// nickname Discord accepts; the crate's source defines it as 32.
#[verifier::external_body]
pub(crate) fn nickname_limit_max() -> (r: usize)
    ensures
        r == nickname_limit(),
{
    twilight_validate::request::NICKNAME_LIMIT_MAX
}

/// Asks `twilight_validate::request::nickname` whether the text may be a
/// nickname. Its source counts the characters and accepts a count from
/// `NICKNAME_LIMIT_MIN` (1) to `NICKNAME_LIMIT_MAX` (32); any other count is
/// its error.
#[verifier::external_body]
pub(crate) fn nickname_accepted(nick: &str) -> (r: bool)
    ensures
        r == nickname_ok(nick@),
{
    twilight_validate::request::nickname(nick).is_ok()
}

/// Asks `twilight_validate::request::audit_reason` whether the text may be
/// an audit log reason. Its source counts the characters and accepts a
/// count of at most `AUDIT_REASON_MAX` (512); a longer text is its error.
#[verifier::external_body]
pub(crate) fn audit_reason_accepted(reason: &str) -> (r: bool)
    ensures
        r == audit_reason_ok(reason@),
{
    twilight_validate::request::audit_reason(reason).is_ok()
}

} // verus!
