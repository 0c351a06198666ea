//! Keys and freshness of the prompt cache (the store itself is SQLite, driven by the service).
use vstd::prelude::*;

use sha2::Digest;
use vstd::string::StringSliceAdditionalSpecFns;

use crate::text::push_char_of;

verus! {

/// The SHA-256 digest of a byte string.
pub uninterp spec fn sha256(data: Seq<u8>) -> Seq<u8>;

/// `sha2::Sha256::digest`: the digest of `data`, named `sha256`, 32 bytes long.
#[verifier::external_body]
fn sha256_digest(data: &[u8]) -> (d: Vec<u8>)
    ensures
        d@ == sha256(data@),
        d@.len() == 32,
{
    sha2::Sha256::digest(data).to_vec()
}

/// The lowercase hexadecimal digit for `n` in `0..16`.
pub open spec fn hex_digit(n: int) -> char {
    if n < 10 {
        (n + 48) as char
    } else {
        (n + 87) as char
    }
}

/// Lowercase hexadecimal rendering of bytes, two digits each (`{:x}` of a digest).
pub open spec fn hex_lower(bytes: Seq<u8>) -> Seq<char>
    decreases bytes.len(),
{
    if bytes.len() == 0 {
        seq![]
    } else {
        hex_lower(bytes.drop_last()) + seq![hex_digit((bytes.last() / 16) as int), hex_digit((bytes.last() % 16) as int)]
    }
}

/// Executable `hex_digit`.
pub(crate) fn hex_char(n: u8) -> (c: char)
    requires
        n < 16,
    ensures
        c == hex_digit(n as int),
{
    if n < 10 {
        (n + 48) as char
    } else {
        (n + 87) as char
    }
}

/// Bytes in lowercase hexadecimal, two digits each.
pub fn hex_digest(digest: &Vec<u8>) -> (key: String)
    ensures
        key@ == hex_lower(digest@),
{
    let mut key = String::new();
    let mut i: usize = 0;
    while i < digest.len()
        invariant
            0 <= i <= digest.len(),
            key@ == hex_lower(digest@.take(i as int)),
        decreases digest.len() - i,
    {
        let b = digest[i];
        push_char_of(&mut key, hex_char(b / 16));
        push_char_of(&mut key, hex_char(b % 16));
        assert(digest@.take(i + 1).drop_last() =~= digest@.take(i as int));
        i = i + 1;
    }
    assert(digest@.take(digest.len() as int) =~= digest@);
    key
}

/// The cache key of a prompt: the SHA-256 of its UTF-8 bytes, in lowercase hex.
pub fn hash(input: &str) -> (key: String)
    ensures
        key@ == hex_lower(sha256(input.spec_bytes())),
        key@.len() == 64,
{
    let digest = sha256_digest(input.as_bytes());
    let key = hex_digest(&digest);
    proof {
        lemma_hex_lower_len(digest@);
    }
    key
}

proof fn lemma_hex_lower_len(bytes: Seq<u8>)
    ensures
        hex_lower(bytes).len() == 2 * bytes.len(),
    decreases bytes.len(),
{
    if bytes.len() > 0 {
        lemma_hex_lower_len(bytes.drop_last());
    }
}

/// `UNIX_EPOCH.elapsed()`: seconds since the Unix epoch by the system clock, 0 when the
/// clock is before the epoch. Nothing is stated of the value: it is the time.
#[verifier::external_body]
pub(crate) fn now_secs() -> u64 {
    std::time::UNIX_EPOCH.elapsed().unwrap_or_default().as_secs()
}

/// The oldest creation time that is still fresh at `now`.
pub open spec fn cutoff_spec(now: u64, ttl_secs: u64) -> u64 {
    if now >= ttl_secs {
        (now - ttl_secs) as u64
    } else {
        0
    }
}

/// Whether an entry created at `created_at` may be served at `now`.
pub open spec fn is_fresh(created_at: u64, now: u64, ttl_secs: u64) -> bool {
    created_at >= cutoff_spec(now, ttl_secs)
}

/// The oldest creation time that is still fresh at `now` (`now - ttl`, saturating).
pub fn cache_cutoff(now: u64, ttl_secs: u64) -> (c: u64)
    ensures
        c == cutoff_spec(now, ttl_secs),
{
    now.saturating_sub(ttl_secs)
}

/// The cache's clock: the current time in seconds, and the oldest creation time that is
/// still fresh at that time for entries that live `ttl_secs`.
pub fn cache_clock(ttl_secs: u64) -> (t: (u64, u64))
    ensures
        t.1 == cutoff_spec(t.0, ttl_secs),
{
    let now = now_secs();
    (now, cache_cutoff(now, ttl_secs))
}

/// A response written at `t` is served for `ttl` seconds and no longer: fresh at every
/// `now` from `t` to `t + ttl`, stale after.
pub proof fn law_fresh_for_ttl(t: u64, now: u64, ttl_secs: u64)
    ensures
        t <= now <= t + ttl_secs ==> is_fresh(t, now, ttl_secs),
        now > t + ttl_secs ==> !is_fresh(t, now, ttl_secs),
{
}

} // verus!
