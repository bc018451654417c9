use sha2::Digest;
use vstd::prelude::*;
use vstd::string::StringSliceAdditionalSpecFns;

verus! {

/// How long a cached body is served without a network fetch: one hour, in nanoseconds.
pub const CACHE_TTL_NANOS: u128 = 3_600_000_000_000;

/// The SHA-256 digest of a byte string.
pub uninterp spec fn sha256_of(data: Seq<u8>) -> Seq<u8>;

/// The lowercase hexadecimal digit for a value below 16.
pub open spec fn hex_digit(n: u8) -> char {
    if n < 10 {
        ((48 + n) as u8) as char
    } else {
        ((87 + n) as u8) as char
    }
}

/// Two lowercase hexadecimal digits for each byte, high digit first.
pub open spec fn hex_of(b: Seq<u8>) -> Seq<char> {
    Seq::new(
        2 * b.len(),
        |i: int|
            if i % 2 == 0 {
                hex_digit(b[i / 2] / 16)
            } else {
                hex_digit(b[i / 2] % 16)
            },
    )
}

/// The name of the cache file for a url: the hex SHA-256 digest of its bytes.
pub open spec fn cache_name(url: Seq<u8>) -> Seq<char> {
    hex_of(sha256_of(url))
}

/// Relies on sha2::Sha256::digest: the 32-byte SHA-256 digest of the input.
#[verifier::external_body]
fn sha256(data: &[u8]) -> (r: Vec<u8>)
    ensures
        r@ == sha256_of(data@),
        r@.len() == 32,
{
    sha2::Sha256::digest(data).to_vec()
}

/// Relies on hex::encode: two lowercase hexadecimal digits per byte, in order.
#[verifier::external_body]
fn to_hex(data: &Vec<u8>) -> (r: String)
    ensures
        r@ == hex_of(data@),
{
    hex::encode(data)
}

/// The file name under which the body fetched from `url` is cached.
pub fn cache_key(url: &str) -> (r: String)
    ensures
        r@ == cache_name(url.spec_bytes()),
        r@.len() == 64,
{
    let digest = sha256(url.as_bytes());
    to_hex(&digest)
}

/// Why a cache entry's age cannot be known.
#[derive(Debug, Clone, Copy, PartialEq, Eq)]
pub enum CacheError {
    /// The entry was modified later than the current time.
    ModifiedInFuture,
}

/// What to do with a url whose cache entry has been looked at.
#[derive(Debug, Clone, Copy, PartialEq, Eq)]
pub enum CacheStep {
    /// Read the cached body; should that fail, fetch.
    ReadCached,
    /// Fetch from the network and write the cache.
    Fetch,
}

/// Decides from the cache entry's modification time (`None` where there is no entry),
/// both in nanoseconds since the epoch, whether the cached body may be served: it may
/// when it is younger than the time to live.
pub fn cache_lookup(modified: Option<u128>, now: u128) -> (r: Result<CacheStep, CacheError>)
    ensures
        modified is None ==> r == Ok::<CacheStep, CacheError>(CacheStep::Fetch),
        modified matches Some(t) ==> {
            &&& now < t ==> r == Err::<CacheStep, CacheError>(CacheError::ModifiedInFuture)
            &&& t <= now && now - t < CACHE_TTL_NANOS ==> r == Ok::<CacheStep, CacheError>(CacheStep::ReadCached)
            &&& t <= now && now - t >= CACHE_TTL_NANOS ==> r == Ok::<CacheStep, CacheError>(CacheStep::Fetch)
        },
{
    match modified {
        None => Ok(CacheStep::Fetch),
        Some(t) => {
            if now < t {
                Err(CacheError::ModifiedInFuture)
            } else if now - t < CACHE_TTL_NANOS {
                Ok(CacheStep::ReadCached)
            } else {
                Ok(CacheStep::Fetch)
            }
        },
    }
}

proof fn lemma_hex_digit_injective(a: u8, b: u8)
    requires
        a < 16,
        b < 16,
        hex_digit(a) == hex_digit(b),
    ensures
        a == b,
{
}

/// Equal urls get equal cache names, and two urls get the same name only where their
/// SHA-256 digests agree.
pub proof fn lemma_cache_name_determined(u1: Seq<u8>, u2: Seq<u8>)
    ensures
        u1 == u2 ==> cache_name(u1) == cache_name(u2),
        cache_name(u1) == cache_name(u2) ==> sha256_of(u1) == sha256_of(u2),
{
    if cache_name(u1) == cache_name(u2) {
        lemma_hex_injective(sha256_of(u1), sha256_of(u2));
    }
}

/// Hex encoding loses nothing: distinct byte strings have distinct encodings.
pub proof fn lemma_hex_injective(a: Seq<u8>, b: Seq<u8>)
    requires
        hex_of(a) == hex_of(b),
    ensures
        a == b,
{
    assert(hex_of(a).len() == 2 * a.len());
    assert(a.len() == b.len());
    assert forall|k: int| 0 <= k < a.len() implies a[k] == b[k] by {
        let x = a[k];
        let y = b[k];
        assert((2 * k) % 2 == 0 && (2 * k) / 2 == k) by (nonlinear_arith);
        assert((2 * k + 1) % 2 == 1 && (2 * k + 1) / 2 == k) by (nonlinear_arith);
        assert(hex_of(a)[2 * k] == hex_digit(x / 16));
        assert(hex_of(b)[2 * k] == hex_digit(y / 16));
        assert(hex_of(a)[2 * k + 1] == hex_digit(x % 16));
        assert(hex_of(b)[2 * k + 1] == hex_digit(y % 16));
        lemma_hex_digit_injective(x / 16, y / 16);
        lemma_hex_digit_injective(x % 16, y % 16);
        assert(x == 16 * (x / 16) + x % 16);
        assert(y == 16 * (y / 16) + y % 16);
    }
    assert(a =~= b);
}

} // verus!
