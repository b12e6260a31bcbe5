use vstd::prelude::*;
use vstd::utf8::{decode_utf8, valid_utf8};
use vstd::wrapping::u64_specs;

verus! {

/// The file, under the per-user settings directory, that holds the
/// obfuscated credentials.
pub const CREDENTIAL_FILE: &'static str = "credentials.dat";

/// The least length of an obfuscation key.
pub const KEY_LEN: usize = 64;

pub const FNV_OFFSET: u64 = 0xcbf29ce484222325;

pub const FNV_PRIME: u64 = 0x100000001b3;

/// One hash step over a seed byte.
#[verifier::opaque]
pub open spec fn mix_byte(h: u64, b: u8) -> u64 {
    u64_specs::wrapping_mul(h ^ (b as u64), FNV_PRIME)
}

/// One hash step while padding, at key length `n`.
#[verifier::opaque]
pub open spec fn mix_pad(h: u64, n: u64) -> u64 {
    u64_specs::wrapping_add(u64_specs::wrapping_mul(h, FNV_PRIME), n)
}

/// The hash state after the first `n` bytes of the seed.
pub open spec fn seed_hash(seed: Seq<u8>, n: nat) -> u64
    decreases n,
{
    if n == 0 || n > seed.len() {
        FNV_OFFSET
    } else {
        mix_byte(seed_hash(seed, (n - 1) as nat), seed[n - 1])
    }
}

/// The hash state once the key holds `n` bytes, while padding past the seed.
pub open spec fn pad_hash(seed: Seq<u8>, n: nat) -> u64
    decreases n,
{
    if n <= seed.len() {
        seed_hash(seed, seed.len())
    } else {
        mix_pad(pad_hash(seed, (n - 1) as nat), (n - 1) as u64)
    }
}

fn hash_byte(h: u64, b: u8) -> (r: u64)
    ensures
        r == mix_byte(h, b),
{
    reveal(mix_byte);
    (h ^ (b as u64)).wrapping_mul(FNV_PRIME)
}

fn hash_pad(h: u64, n: u64) -> (r: u64)
    ensures
        r == mix_pad(h, n),
{
    reveal(mix_pad);
    h.wrapping_mul(FNV_PRIME).wrapping_add(n)
}

/// Byte `i` of the key derived from `seed`.
pub open spec fn key_byte(seed: Seq<u8>, i: nat) -> u8 {
    if i < seed.len() {
        #[verifier::truncate] ((seed_hash(seed, i + 1) >> 24u64) as u8)
    } else {
        #[verifier::truncate] ((pad_hash(seed, i + 1) >> 16u64) as u8)
    }
}

/// The length of the key derived from `seed`.
pub open spec fn key_len(seed: Seq<u8>) -> nat {
    if seed.len() < KEY_LEN {
        KEY_LEN as nat
    } else {
        seed.len()
    }
}

/// `data` with byte `i` combined with key byte `i` modulo the key length.
pub open spec fn xor_with(data: Seq<u8>, key: Seq<u8>) -> Seq<u8> {
    Seq::new(data.len(), |i: int| data[i] ^ key[i % key.len() as int])
}

/// `i` is the first `:` in `s`.
pub open spec fn is_first_colon(s: Seq<char>, i: int) -> bool {
    &&& 0 <= i < s.len()
    &&& s[i] == ':'
    &&& forall|j: int| 0 <= j < i ==> s[j] != ':'
}

/// A stored payload split at its first `:` into token and account id, both
/// non-empty; `None` otherwise.
pub open spec fn split_payload(s: Seq<char>) -> Option<(Seq<char>, Seq<char>)> {
    if exists|i: int| is_first_colon(s, i) {
        let i = choose|i: int| is_first_colon(s, i);
        if i > 0 && i + 1 < s.len() {
            Some((s.subrange(0, i), s.subrange(i + 1, s.len() as int)))
        } else {
            None
        }
    } else {
        None
    }
}

/// Relies on `String::from_utf8`: it succeeds exactly on valid UTF-8 and then
/// holds the decoded characters.
#[verifier::external_body]
fn utf8_text(bytes: Vec<u8>) -> (r: Option<String>)
    ensures
        r is Some <==> valid_utf8(bytes@),
        r matches Some(s) ==> s@ == decode_utf8(bytes@),
{
    String::from_utf8(bytes).ok()
}

/// Storage of the API credentials in a file of their own, obfuscated with a
/// key derived from the machine (not encryption: it keeps them from lying
/// on disk in plain text).
pub struct CredentialStore;

impl CredentialStore {
    /// The text that the key is derived from.
    pub fn key_seed(user: &str, host: &str) -> (r: String)
        ensures
            r@ == "qtunnel:"@ + user@ + "@"@ + host@,
    {
        String::from_str("qtunnel:").concat(user).concat("@").concat(host)
    }

    /// Expands a seed into a key of at least 64 bytes with an FNV-1a style hash.
    pub fn derive_key(seed: &[u8]) -> (r: Vec<u8>)
        ensures
            r@.len() == key_len(seed@),
            forall|i: int| 0 <= i < r@.len() ==> r@[i] == key_byte(seed@, i as nat),
    {
        let mut key: Vec<u8> = Vec::new();
        let mut h: u64 = FNV_OFFSET;
        let mut i: usize = 0;
        while i < seed.len()
            invariant
                i <= seed@.len(),
                key@.len() == i,
                h == seed_hash(seed@, i as nat),
                forall|j: int| 0 <= j < i ==> key@[j] == key_byte(seed@, j as nat),
            decreases seed@.len() - i,
        {
            h = hash_byte(h, seed[i]);
            assert(h == seed_hash(seed@, (i + 1) as nat));
            let b = #[verifier::truncate] ((h >> 24u64) as u8);
            assert(b == key_byte(seed@, i as nat));
            key.push(b);
            i = i + 1;
        }
        while key.len() < KEY_LEN
            invariant
                seed@.len() <= key@.len(),
                key@.len() <= key_len(seed@),
                h == pad_hash(seed@, key@.len() as nat),
                forall|j: int| 0 <= j < key@.len() ==> key@[j] == key_byte(seed@, j as nat),
            decreases KEY_LEN - key@.len(),
        {
            let ghost n = key@.len();
            h = hash_pad(h, key.len() as u64);
            assert(h == pad_hash(seed@, (n + 1) as nat));
            let b = #[verifier::truncate] ((h >> 16u64) as u8);
            assert(b == key_byte(seed@, n as nat));
            key.push(b);
        }
        key
    }

    /// Combines each byte of `data` with the key, cycling through the key.
    pub fn obfuscate(data: &[u8], key: &[u8]) -> (r: Vec<u8>)
        requires
            key@.len() > 0,
        ensures
            r@ == xor_with(data@, key@),
    {
        let mut out: Vec<u8> = Vec::new();
        let mut i: usize = 0;
        while i < data.len()
            invariant
                i <= data@.len(),
                key@.len() > 0,
                out@.len() == i,
                forall|j: int| 0 <= j < i ==> out@[j] == data@[j] ^ key@[j % key@.len() as int],
            decreases data@.len() - i,
        {
            out.push(data[i] ^ key[i % key.len()]);
            i = i + 1;
        }
        assert(out@ =~= xor_with(data@, key@));
        out
    }

    /// Undoes `obfuscate`: the combination is its own inverse.
    pub fn deobfuscate(data: &[u8], key: &[u8]) -> (r: Vec<u8>)
        requires
            key@.len() > 0,
        ensures
            r@ == xor_with(data@, key@),
    {
        Self::obfuscate(data, key)
    }

    /// The stored form of a credential pair before obfuscation.
    pub fn payload(token: &str, account_id: &str) -> (r: String)
        ensures
            r@ == token@ + ":"@ + account_id@,
    {
        String::from_str(token).concat(":").concat(account_id)
    }

    /// Splits a stored payload at its first `:`; both parts must be non-empty.
    pub fn split_payload(text: &str) -> (r: Option<(String, String)>)
        ensures
            match (r, split_payload(text@)) {
                (Some((t, a)), Some((st, sa))) => t@ == st && a@ == sa,
                (None, None) => true,
                _ => false,
            },
    {
        let n = text.unicode_len();
        let mut i: usize = 0;
        while i < n
            invariant
                n == text@.len(),
                i <= n,
                forall|j: int| 0 <= j < i ==> text@[j] != ':',
            decreases n - i,
        {
            if text.get_char(i) == ':' {
                proof {
                    assert(is_first_colon(text@, i as int));
                    let k = choose|k: int| is_first_colon(text@, k);
                    if k < i {
                        assert(text@[k] != ':');
                    } else if k > i {
                        assert(text@[i as int] != ':');
                    }
                }
                if i == 0 || i + 1 >= n {
                    return None;
                }
                let token = text.substring_char(0, i);
                let account = text.substring_char(i + 1, n);
                return Some((String::from_str(token), String::from_str(account)));
            }
            i = i + 1;
        }
        proof {
            if exists|k: int| is_first_colon(text@, k) {
                let k = choose|k: int| is_first_colon(text@, k);
                assert(text@[k] == ':');
            }
        }
        None
    }

    /// Reads a stored credential pair back: deobfuscates, decodes UTF-8 and
    /// splits; `None` where any step fails.
    pub fn decode(data: &[u8], key: &[u8]) -> (r: Option<(String, String)>)
        requires
            key@.len() > 0,
        ensures
            ({
                let plain = xor_with(data@, key@);
                match r {
                    Some((t, a)) => valid_utf8(plain) && split_payload(decode_utf8(plain)) == Some(
                        (t@, a@),
                    ),
                    None => !valid_utf8(plain) || split_payload(decode_utf8(plain)) is None,
                }
            }),
    {
        let plain = Self::deobfuscate(data, key);
        match utf8_text(plain) {
            Some(text) => Self::split_payload(text.as_str()),
            None => None,
        }
    }
}

/// Obfuscation round-trips: combining twice with the same non-empty key
/// gives back the bytes it started from.
pub proof fn lemma_obfuscation_round_trip(data: Seq<u8>, key: Seq<u8>)
    requires
        key.len() > 0,
    ensures
        xor_with(xor_with(data, key), key) == data,
{
    assert forall|i: int| 0 <= i < data.len() implies #[trigger] xor_with(
        xor_with(data, key),
        key,
    )[i] == data[i] by {
        let a = data[i];
        let k = key[i % key.len() as int];
        assert((a ^ k) ^ k == a) by (bit_vector);
    }
    assert(xor_with(xor_with(data, key), key) =~= data);
}

} // verus!
