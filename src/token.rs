//! Capability filenames: a keyed one-way digest over a device's API key and the
//! issuance time, hex-encoded, with the image suffix appended.
use vstd::prelude::*;
use vstd::utf8::encode_utf8;
use sha2::Digest;

verus! {

/// The SHA-256 digest of a byte string.
pub uninterp spec fn sha256_of(data: Seq<u8>) -> Seq<u8>;

/// The lowercase hexadecimal digit for a value below sixteen.
pub open spec fn hex_digit(n: int) -> char {
    seq!['0', '1', '2', '3', '4', '5', '6', '7', '8', '9', 'a', 'b', 'c', 'd', 'e', 'f'][n]
}

/// Two lowercase hexadecimal digits per byte, high nibble first.
pub open spec fn hex_of(bytes: Seq<u8>) -> Seq<char>
    decreases bytes.len(),
{
    if bytes.len() == 0 {
        Seq::empty()
    } else {
        let b = bytes.last();
        hex_of(bytes.drop_last()) + seq![hex_digit(b as int / 16), hex_digit(b as int % 16)]
    }
}

/// The eight bytes of `t`, most significant first.
pub open spec fn be_bytes(t: u64) -> Seq<u8> {
    seq![
        (t >> 56u64) as u8,
        (t >> 48u64) as u8,
        (t >> 40u64) as u8,
        (t >> 32u64) as u8,
        (t >> 24u64) as u8,
        (t >> 16u64) as u8,
        (t >> 8u64) as u8,
        t as u8,
    ]
}

/// The bytes that are digested: the key's UTF-8 bytes, then the issuance time.
pub open spec fn token_message(key: Seq<char>, issued_at: u64) -> Seq<u8> {
    encode_utf8(key) + be_bytes(issued_at)
}

pub open spec fn bmp_suffix() -> Seq<char> {
    seq!['.', 'b', 'm', 'p']
}

/// The capability filename issued for `key` at `issued_at`.
pub open spec fn filename_of(key: Seq<char>, issued_at: u64) -> Seq<char> {
    hex_of(sha256_of(token_message(key, issued_at))) + bmp_suffix()
}

/// Whether `candidate` is exactly the filename issued for `key` at `issued_at`.
pub open spec fn filename_verifies(candidate: Seq<char>, key: Seq<char>, issued_at: u64) -> bool {
    candidate == filename_of(key, issued_at)
}

/// Whether a capability issued at `issued_at` is stale at `now`.
pub open spec fn expired(issued_at: u64, now: u64, ttl: u64) -> bool {
    now as int - issued_at as int > ttl as int
}

/// Relies on sha2's `Sha256::digest`: the 32-byte SHA-256 digest of `data`.
#[verifier::external_body]
fn sha256(data: &[u8]) -> (r: Vec<u8>)
    ensures
        r@ == sha256_of(data@),
        r@.len() == 32,
{
    sha2::Sha256::digest(data).to_vec()
}

/// Relies on `hex::encode`: two lowercase hexadecimal digits per byte.
#[verifier::external_body]
pub(crate) fn hex_encode(bytes: &[u8]) -> (r: String)
    ensures
        r@ == hex_of(bytes@),
{
    hex::encode(bytes)
}

fn be_bytes_exec(t: u64) -> (r: Vec<u8>)
    ensures
        r@ == be_bytes(t),
{
    let r = vec![
        (t >> 56u64) as u8,
        (t >> 48u64) as u8,
        (t >> 40u64) as u8,
        (t >> 32u64) as u8,
        (t >> 24u64) as u8,
        (t >> 16u64) as u8,
        (t >> 8u64) as u8,
        t as u8,
    ];
    assert(r@ =~= be_bytes(t));
    r
}

/// The capability filename for `api_key` issued at `timestamp` (seconds since
/// the Unix epoch).
pub fn generate_filename(api_key: String, timestamp: u64) -> (r: String)
    ensures
        r@ == filename_of(api_key@, timestamp),
        r@.len() == 68,
{
    let mut message: Vec<u8> = Vec::new();
    message.extend_from_slice(api_key.as_str().as_bytes());
    let mut time_bytes = be_bytes_exec(timestamp);
    message.append(&mut time_bytes);
    let digest = sha256(message.as_slice());
    let mut name = hex_encode(digest.as_slice());
    name.append(".bmp");
    proof {
        reveal_strlit(".bmp");
        assert(message@ =~= token_message(api_key@, timestamp));
        assert(name@ =~= filename_of(api_key@, timestamp));
        lemma_hex_of_len(digest@);
    }
    name
}

/// Whether `candidate` is the filename issued for `api_key` at `issued_at`.
/// A mismatch is an authorization failure.
pub fn verify_filename(candidate: &str, api_key: String, issued_at: u64) -> (r: bool)
    ensures
        r == filename_verifies(candidate@, api_key@, issued_at),
{
    let expected = generate_filename(api_key, issued_at);
    let given = candidate.to_owned();
    given == expected
}

/// Whether a capability issued at `issued_at` has outlived `ttl` seconds at `now`.
pub fn is_expired(issued_at: u64, now: u64, ttl: u64) -> (r: bool)
    ensures
        r == expired(issued_at, now, ttl),
{
    now > issued_at && now - issued_at > ttl
}

proof fn lemma_hex_of_len(bytes: Seq<u8>)
    ensures
        hex_of(bytes).len() == 2 * bytes.len(),
    decreases bytes.len(),
{
    if bytes.len() > 0 {
        lemma_hex_of_len(bytes.drop_last());
    }
}

proof fn lemma_hex_of_injective(a: Seq<u8>, b: Seq<u8>)
    requires
        hex_of(a) == hex_of(b),
    ensures
        a == b,
    decreases a.len(),
{
    lemma_hex_of_len(a);
    lemma_hex_of_len(b);
    if a.len() > 0 {
        let ha = hex_of(a);
        let n = ha.len();
        lemma_hex_of_len(a.drop_last());
        lemma_hex_of_len(b.drop_last());
        assert(hex_of(a.drop_last()) =~= ha.subrange(0, n - 2));
        assert(hex_of(b.drop_last()) =~= ha.subrange(0, n - 2));
        lemma_hex_of_injective(a.drop_last(), b.drop_last());
        let x = a.last() as int;
        let y = b.last() as int;
        assert(ha[n - 2] == hex_digit(x / 16) && ha[n - 2] == hex_digit(y / 16));
        assert(ha[n - 1] == hex_digit(x % 16) && ha[n - 1] == hex_digit(y % 16));
        assert(x / 16 == y / 16);
        assert(x % 16 == y % 16);
        assert(a =~= a.drop_last().push(a.last()));
        assert(b =~= b.drop_last().push(b.last()));
    }
}

proof fn lemma_be_bytes_injective(t1: u64, t2: u64)
    requires
        be_bytes(t1) == be_bytes(t2),
    ensures
        t1 == t2,
{
    let a = be_bytes(t1);
    let b = be_bytes(t2);
    assert(a[0] == b[0] && a[1] == b[1] && a[2] == b[2] && a[3] == b[3]);
    assert(a[4] == b[4] && a[5] == b[5] && a[6] == b[6] && a[7] == b[7]);
    assert(((t1 >> 56u64) as u8 == (t2 >> 56u64) as u8 && (t1 >> 48u64) as u8 == (t2 >> 48u64) as u8
        && (t1 >> 40u64) as u8 == (t2 >> 40u64) as u8 && (t1 >> 32u64) as u8 == (t2 >> 32u64) as u8
        && (t1 >> 24u64) as u8 == (t2 >> 24u64) as u8 && (t1 >> 16u64) as u8 == (t2 >> 16u64) as u8
        && (t1 >> 8u64) as u8 == (t2 >> 8u64) as u8 && t1 as u8 == t2 as u8) ==> t1 == t2)
        by (bit_vector);
}

/// Distinct key and time pairs give distinct digested messages.
pub proof fn lemma_token_message_injective(k1: Seq<char>, t1: u64, k2: Seq<char>, t2: u64)
    requires
        token_message(k1, t1) == token_message(k2, t2),
    ensures
        k1 == k2,
        t1 == t2,
{
    let m = token_message(k1, t1);
    let n = m.len() as int;
    let e1 = encode_utf8(k1);
    let e2 = encode_utf8(k2);
    assert(m.subrange(n - 8, n) =~= be_bytes(t1));
    assert(token_message(k2, t2).subrange(n - 8, n) =~= be_bytes(t2));
    lemma_be_bytes_injective(t1, t2);
    assert(e1 =~= m.subrange(0, n - 8));
    assert(e2 =~= m.subrange(0, n - 8));
    vstd::utf8::encode_utf8_decode_utf8(k1);
    vstd::utf8::encode_utf8_decode_utf8(k2);
}

/// A filename issued for a key and time verifies against that same key and time.
pub proof fn lemma_issued_filename_verifies(key: Seq<char>, issued_at: u64)
    ensures
        filename_verifies(filename_of(key, issued_at), key, issued_at),
{
}

/// A filename issued for one key and time verifies against another key or time
/// only if the two digested messages, which differ, have the same SHA-256
/// digest: forging a filename takes a digest collision.
pub proof fn lemma_foreign_filename_needs_collision(k1: Seq<char>, t1: u64, k2: Seq<char>, t2: u64)
    requires
        k1 != k2 || t1 != t2,
    ensures
        token_message(k1, t1) != token_message(k2, t2),
        filename_verifies(filename_of(k1, t1), k2, t2)
            ==> sha256_of(token_message(k1, t1)) == sha256_of(token_message(k2, t2)),
{
    if token_message(k1, t1) == token_message(k2, t2) {
        lemma_token_message_injective(k1, t1, k2, t2);
    }
    if filename_verifies(filename_of(k1, t1), k2, t2) {
        let h1 = hex_of(sha256_of(token_message(k1, t1)));
        let h2 = hex_of(sha256_of(token_message(k2, t2)));
        let f = filename_of(k1, t1);
        assert(h1 =~= f.subrange(0, f.len() - 4));
        assert(h2 =~= f.subrange(0, f.len() - 4));
        lemma_hex_of_injective(sha256_of(token_message(k1, t1)), sha256_of(token_message(k2, t2)));
    }
}

/// A capability is stale one second past its lifetime, and still fresh at its
/// last second.
pub proof fn lemma_expiry_boundary(t: u64, ttl: u64)
    requires
        t as int + ttl as int + 1 <= u64::MAX,
    ensures
        expired(t, (t + ttl + 1) as u64, ttl),
        !expired(t, (t + ttl) as u64, ttl),
{
}

} // verus!
