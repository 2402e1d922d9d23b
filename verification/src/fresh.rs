//! The time and fresh identifiers.
use vstd::prelude::*;
use vstd::string::*;

verus! {

/// A digit of lower-case hexadecimal notation.
pub open spec fn lower_hex(c: char) -> bool {
    ('0' <= c && c <= '9') || ('a' <= c && c <= 'f')
}

/// The hyphenated text of a random UUID.
pub open spec fn uuid_text(s: Seq<char>) -> bool {
    &&& s.len() == 36
    &&& s[8] == '-' && s[13] == '-' && s[18] == '-' && s[23] == '-'
    &&& s[14] == '4'
    &&& forall|i: int|
        0 <= i < 36 && i != 8 && i != 13 && i != 18 && i != 23 ==> lower_hex(#[trigger] s[i])
}

/// `uuid::Uuid::new_v4` in its `Display` form: thirty-two hexadecimal digits in
/// five groups, of which the thirteenth is the version. Which identifier comes
/// is up to chance.
#[verifier::external_body]
pub(crate) fn new_uuid() -> (r: String)
    ensures
        uuid_text(r@),
{
    uuid::Uuid::new_v4().to_string()
}

/// `chrono::Utc::now` as a number of seconds since 1970, which is never
/// negative. Which one it is depends on the machine's clock.
#[verifier::external_body]
pub(crate) fn now_timestamp() -> (r: i64)
    ensures
        r >= 0,
{
    chrono::Utc::now().timestamp()
}

} // verus!
