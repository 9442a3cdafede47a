//! Classification of JSON-RPC error payloads.
//!
//! Upstream node providers often reuse one generic "internal error" code for
//! both transient overload and genuine node faults, so the code alone is too
//! coarse. These pure predicates first test whether an error code belongs to
//! the internal-error range at all, and then recover the operationally
//! relevant distinction — rate limiting versus node fault — by
//! case-insensitive keyword matching on the error message.
use vstd::prelude::*;

verus! {

/// The semantic category assigned to a JSON-RPC error code/message pair.
#[derive(Clone, Copy, Debug, PartialEq, Eq, Structural)]
pub enum Verdict {
    /// The upstream is shedding load; the caller should be told 429.
    RateLimited,
    /// The upstream node itself is unhealthy; the caller should be told 500.
    NodeError,
    /// An internal-error code whose message matches no known pattern.
    InternalError,
    /// Not an internal-error code; the upstream status is left in charge.
    Unclassified,
}

/// ASCII lowercasing of one character; other characters are untouched.
pub open spec fn spec_lower_char(c: char) -> char {
    if 65 <= c as u32 && c as u32 <= 90 {
        ((c as u8) + 32) as char
    } else {
        c
    }
}

/// ASCII lowercasing of a whole character sequence.
pub open spec fn spec_lower(s: Seq<char>) -> Seq<char> {
    s.map_values(|c: char| spec_lower_char(c))
}

/// `needle` occurs in `haystack` starting exactly at index `i`.
pub open spec fn contains_at(haystack: Seq<char>, needle: Seq<char>, i: int) -> bool {
    0 <= i && i + needle.len() <= haystack.len() && haystack.subrange(i, i + needle.len())
        == needle
}

/// `needle` occurs somewhere in `haystack`.
pub open spec fn seq_contains(haystack: Seq<char>, needle: Seq<char>) -> bool {
    exists|i: int| contains_at(haystack, needle, i)
}

/// The fixed, closed set of JSON-RPC error codes that upstreams use to signal
/// internal or node-level failure: the spec-defined internal error (-32603)
/// and the server-error range (-32099 ..= -32000). Client-caused codes such
/// as invalid params or method-not-found fall outside it.
pub open spec fn spec_is_internal_error_code(code: int) -> bool {
    code == -32603 || (-32099 <= code && code <= -32000)
}

/// The message, lowercased, mentions a known rate-limiting phrase.
pub open spec fn spec_is_rate_limited_message(message: Seq<char>) -> bool {
    seq_contains(spec_lower(message), "rate limit"@) || seq_contains(
        spec_lower(message),
        "too many requests"@,
    ) || seq_contains(spec_lower(message), "quota"@)
}

/// The message, lowercased, mentions a known node-health failure phrase.
pub open spec fn spec_is_node_error_message(message: Seq<char>) -> bool {
    seq_contains(spec_lower(message), "header not found"@) || seq_contains(
        spec_lower(message),
        "block not found"@,
    ) || seq_contains(spec_lower(message), "syncing"@)
}

/// How a code/message pair is classified: only internal-error codes are
/// inspected further, and among those, rate-limit phrasing takes precedence
/// over node-error phrasing.
pub open spec fn spec_classify(code: int, message: Seq<char>) -> Verdict {
    if !spec_is_internal_error_code(code) {
        Verdict::Unclassified
    } else if spec_is_rate_limited_message(message) {
        Verdict::RateLimited
    } else if spec_is_node_error_message(message) {
        Verdict::NodeError
    } else {
        Verdict::InternalError
    }
}

fn lower_char(c: char) -> (r: char)
    ensures
        r == spec_lower_char(c),
{
    let u = c as u32;
    if 65 <= u && u <= 90 {
        let l = (c as u8) + 32;
        l as char
    } else {
        c
    }
}

/// Whether `needle` (already lowercase) occurs in the ASCII-lowercased
/// `haystack`.
fn contains_lowered(haystack: &str, needle: &str) -> (r: bool)
    ensures
        r == seq_contains(spec_lower(haystack@), needle@),
{
    let h_len = haystack.unicode_len();
    let n_len = needle.unicode_len();
    if n_len > h_len {
        assert(forall|i: int| !contains_at(spec_lower(haystack@), needle@, i));
        return false;
    }
    if n_len == 0 {
        proof {
            assert(spec_lower(haystack@).subrange(0, 0) =~= needle@);
            assert(contains_at(spec_lower(haystack@), needle@, 0));
        }
        return true;
    }
    let mut i: usize = 0;
    while i <= h_len - n_len
        invariant
            1 <= n_len <= h_len,
            h_len == haystack@.len(),
            n_len == needle@.len(),
            i <= h_len - n_len + 1,
            forall|k: int| k < i ==> !contains_at(spec_lower(haystack@), needle@, k),
        decreases h_len - n_len - i + 1,
    {
        let mut j: usize = 0;
        let mut mismatch = false;
        while j < n_len && !mismatch
            invariant
                n_len <= h_len,
                h_len == haystack@.len(),
                n_len == needle@.len(),
                i <= h_len - n_len,
                j <= n_len,
                !mismatch ==> forall|t: int|
                    0 <= t < j ==> spec_lower(haystack@)[i + t] == needle@[t],
                mismatch ==> !contains_at(spec_lower(haystack@), needle@, i as int),
            decreases n_len - j + (if mismatch { 0int } else { 1int }),
        {
            let hc = lower_char(haystack.get_char(i + j));
            let nc = needle.get_char(j);
            if hc == nc {
                j += 1;
            } else {
                proof {
                    let s = spec_lower(haystack@).subrange(i as int, i + needle@.len());
                    assert(s[j as int] == spec_lower(haystack@)[i + j]);
                }
                mismatch = true;
            }
        }
        if !mismatch {
            proof {
                assert(spec_lower(haystack@).subrange(i as int, i + needle@.len()) =~= needle@);
                assert(contains_at(spec_lower(haystack@), needle@, i as int));
            }
            return true;
        }
        i += 1;
    }
    proof {
        assert forall|k: int| !contains_at(spec_lower(haystack@), needle@, k) by {
            if 0 <= k && k + needle@.len() <= haystack@.len() {
                assert(k < i);
            }
        }
    }
    false
}

/// Whether `code` belongs to the fixed internal-error code set.
pub fn is_internal_error_rpc_code(code: i32) -> (r: bool)
    ensures
        r == spec_is_internal_error_code(code as int),
{
    code == -32603 || (-32099 <= code && code <= -32000)
}

/// Whether `message` matches known rate-limit phrasing, case-insensitively.
pub fn is_rate_limited_error_rpc_message(message: &str) -> (r: bool)
    ensures
        r == spec_is_rate_limited_message(message@),
{
    contains_lowered(message, "rate limit") || contains_lowered(message, "too many requests")
        || contains_lowered(message, "quota")
}

/// Whether `message` matches known node-health failure phrasing,
/// case-insensitively.
pub fn is_node_error_rpc_message(message: &str) -> (r: bool)
    ensures
        r == spec_is_node_error_message(message@),
{
    contains_lowered(message, "header not found") || contains_lowered(message, "block not found")
        || contains_lowered(message, "syncing")
}

/// Classify a JSON-RPC error code/message pair into its semantic category.
pub fn classify_rpc_error(code: i32, message: &str) -> (r: Verdict)
    ensures
        r == spec_classify(code as int, message@),
{
    if !is_internal_error_rpc_code(code) {
        Verdict::Unclassified
    } else if is_rate_limited_error_rpc_message(message) {
        Verdict::RateLimited
    } else if is_node_error_rpc_message(message) {
        Verdict::NodeError
    } else {
        Verdict::InternalError
    }
}

} // verus!
