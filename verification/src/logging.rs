//! Redaction of sensitive values before they reach a log line. Setting up
//! the log subscriber itself happens outside the library.

use vstd::prelude::*;
use vstd::string::StringExecFns;

verus! {

/// A redacted rendering: the first four characters, a `***` marker, and the
/// last `keep_end` characters; too-short inputs are hidden entirely.
pub open spec fn redacted_spec(s: Seq<char>, keep_end: int) -> Seq<char> {
    if s.len() <= 6 {
        "[REDACTED]"@
    } else {
        s.subrange(0, 4) + "***"@ + s.subrange(s.len() - keep_end, s.len() as int)
    }
}

/// Redacts a phone number for safe logging: first four characters, then
/// `***`, then the last three; `[REDACTED]` when six characters or fewer.
pub fn redact_phone(phone: &str) -> (r: String)
    ensures
        r@ == redacted_spec(phone@, 3),
{
    let n = phone.unicode_len();
    if n <= 6 {
        return String::from_str("[REDACTED]");
    }
    let head = phone.substring_char(0, 4);
    let tail = phone.substring_char(n - 3, n);
    let mut r = head.to_owned();
    r.append("***");
    r.append(tail);
    r
}

/// Redacts an API hash for safe logging: first four characters, then `***`,
/// then the last one; `[REDACTED]` when six characters or fewer.
pub fn redact_hash(hash: &str) -> (r: String)
    ensures
        r@ == redacted_spec(hash@, 1),
{
    let n = hash.unicode_len();
    if n <= 6 {
        return String::from_str("[REDACTED]");
    }
    let head = hash.substring_char(0, 4);
    let tail = hash.substring_char(n - 1, n);
    let mut r = head.to_owned();
    r.append("***");
    r.append(tail);
    r
}

} // verus!
