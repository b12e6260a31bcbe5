use vstd::prelude::*;

verus! {

/// The standard base64 alphabet.
pub const BASE64_ALPHABET: &'static str = "ABCDEFGHIJKLMNOPQRSTUVWXYZabcdefghijklmnopqrstuvwxyz0123456789+/";

/// The base64 digit of a six-bit value.
pub open spec fn digit64(v: u8) -> char {
    BASE64_ALPHABET@[v as int]
}

/// The four characters of a three-byte group.
pub open spec fn quad(a: u8, b: u8, c: u8) -> Seq<char> {
    seq![
        digit64(a >> 2u8),
        digit64(((a & 3u8) << 4u8) | (b >> 4u8)),
        digit64(((b & 15u8) << 2u8) | (c >> 6u8)),
        digit64(c & 63u8),
    ]
}

/// Standard base64 with `=` padding.
pub open spec fn base64(b: Seq<u8>) -> Seq<char>
    decreases b.len(),
{
    if b.len() == 0 {
        Seq::empty()
    } else if b.len() == 1 {
        seq![digit64(b[0] >> 2u8), digit64((b[0] & 3u8) << 4u8), '=', '=']
    } else if b.len() == 2 {
        seq![
            digit64(b[0] >> 2u8),
            digit64(((b[0] & 3u8) << 4u8) | (b[1] >> 4u8)),
            digit64((b[1] & 15u8) << 2u8),
            '=',
        ]
    } else {
        quad(b[0], b[1], b[2]) + base64(b.skip(3))
    }
}

proof fn lemma_base64_split(b: Seq<u8>, i: int)
    requires
        0 <= i,
        i % 3 == 0,
        i + 3 <= b.len(),
    ensures
        base64(b.take(i + 3)) == base64(b.take(i)) + quad(b[i], b[i + 1], b[i + 2]),
    decreases i,
{
    if i == 0 {
        let t3 = b.take(3);
        assert(t3.skip(3) =~= Seq::<u8>::empty());
        assert(base64(t3.skip(3)) =~= Seq::<char>::empty());
        assert(t3.len() == 3 && t3[0] == b[0] && t3[1] == b[1] && t3[2] == b[2]);
        assert(base64(b.take(0)) =~= Seq::<char>::empty());
        assert(base64(t3) == quad(b[0], b[1], b[2]) + base64(t3.skip(3)));
        assert(base64(b.take(3)) =~= base64(b.take(0)) + quad(b[0], b[1], b[2]));
    } else {
        let t = b.skip(3);
        lemma_base64_split(t, i - 3);
        assert(b.take(i + 3).skip(3) =~= t.take(i));
        assert(b.take(i).skip(3) =~= t.take(i - 3));
        assert(t[i - 3] == b[i] && t[i - 2] == b[i + 1] && t[i - 1] == b[i + 2]);
        assert(b.take(i + 3)[0] == b[0] && b.take(i + 3)[1] == b[1] && b.take(i + 3)[2] == b[2]);
        assert(b.take(i)[0] == b[0] && b.take(i)[1] == b[1] && b.take(i)[2] == b[2]);
        assert(base64(b.take(i + 3)) == quad(b[0], b[1], b[2]) + base64(t.take(i)));
        assert(base64(b.take(i)) == quad(b[0], b[1], b[2]) + base64(t.take(i - 3)));
        assert(base64(b.take(i + 3)) =~= base64(b.take(i)) + quad(b[i], b[i + 1], b[i + 2]));
    }
}

proof fn lemma_base64_tail(b: Seq<u8>, i: int)
    requires
        0 <= i,
        i % 3 == 0,
        i <= b.len() < i + 3,
    ensures
        base64(b) == base64(b.take(i)) + base64(b.skip(i)),
    decreases i,
{
    if i == 0 {
        assert(b.take(0) =~= Seq::<u8>::empty());
        assert(b.skip(0) =~= b);
        assert(base64(b.take(0)) =~= Seq::<char>::empty());
        assert(base64(b) =~= Seq::<char>::empty() + base64(b));
    } else {
        let t = b.skip(3);
        lemma_base64_tail(t, i - 3);
        assert(b.take(i).skip(3) =~= t.take(i - 3));
        assert(t.skip(i - 3) =~= b.skip(i));
        assert(b.take(i)[0] == b[0] && b.take(i)[1] == b[1] && b.take(i)[2] == b[2]);
        assert(base64(b.take(i)) == quad(b[0], b[1], b[2]) + base64(t.take(i - 3)));
        assert(base64(b) =~= base64(b.take(i)) + base64(b.skip(i)));
    }
}

fn digit(v: u8) -> (r: String)
    requires
        v < 64,
    ensures
        r@ == seq![digit64(v)],
{
    proof {
        reveal_strlit("ABCDEFGHIJKLMNOPQRSTUVWXYZabcdefghijklmnopqrstuvwxyz0123456789+/");
    }
    String::from_str(BASE64_ALPHABET.substring_char(v as usize, v as usize + 1))
}

/// Encodes bytes as standard base64 with `=` padding.
pub fn encode_base64(bytes: &[u8]) -> (r: String)
    ensures
        r@ == base64(bytes@),
{
    let n = bytes.len();
    let mut out = String::new();
    let mut i: usize = 0;
    while n - i >= 3
        invariant
            n == bytes@.len(),
            i <= n,
            i % 3 == 0,
            out@ == base64(bytes@.take(i as int)),
        decreases n - i,
    {
        let a = bytes[i];
        let b = bytes[i + 1];
        let c = bytes[i + 2];
        assert(a >> 2u8 < 64) by (bit_vector);
        assert(((a & 3u8) << 4u8) | (b >> 4u8) < 64) by (bit_vector);
        assert(((b & 15u8) << 2u8) | (c >> 6u8) < 64) by (bit_vector);
        assert(c & 63u8 < 64) by (bit_vector);
        out.append(digit(a >> 2).as_str());
        out.append(digit(((a & 3) << 4) | (b >> 4)).as_str());
        out.append(digit(((b & 15) << 2) | (c >> 6)).as_str());
        out.append(digit(c & 63).as_str());
        proof {
            lemma_base64_split(bytes@, i as int);
        }
        assert(out@ =~= base64(bytes@.take(i as int)).add(quad(a, b, c)));
        i = i + 3;
    }
    let ghost rest = bytes@.skip(i as int);
    if n - i == 1 {
        let a = bytes[i];
        assert(a >> 2u8 < 64) by (bit_vector);
        assert((a & 3u8) << 4u8 < 64) by (bit_vector);
        out.append(digit(a >> 2).as_str());
        out.append(digit((a & 3) << 4).as_str());
        out.append("==");
        proof {
            reveal_strlit("==");
        }
    } else if n - i == 2 {
        let a = bytes[i];
        let b = bytes[i + 1];
        assert(a >> 2u8 < 64) by (bit_vector);
        assert(((a & 3u8) << 4u8) | (b >> 4u8) < 64) by (bit_vector);
        assert((b & 15u8) << 2u8 < 64) by (bit_vector);
        out.append(digit(a >> 2).as_str());
        out.append(digit(((a & 3) << 4) | (b >> 4)).as_str());
        out.append(digit((b & 15) << 2).as_str());
        out.append("=");
        proof {
            reveal_strlit("=");
        }
    }
    proof {
        lemma_base64_tail(bytes@, i as int);
        assert(rest.len() == n - i);
        if rest.len() == 0 {
            assert(base64(rest) =~= Seq::<char>::empty());
        }
    }
    assert(out@ =~= base64(bytes@.take(i as int)) + base64(rest));
    out
}

/// Relies on `uuid::Uuid::new_v4` and `Uuid::as_bytes`: sixteen bytes from
/// the system's random source.
#[verifier::external_body]
fn random_block() -> (r: Vec<u8>)
    ensures
        r@.len() == 16,
{
    uuid::Uuid::new_v4().as_bytes().to_vec()
}

/// A fresh tunnel secret: 32 random bytes in base64 (44 characters).
pub fn tunnel_secret() -> (r: String)
    ensures
        exists|b: Seq<u8>| b.len() == 32 && r@ == base64(b),
{
    let mut bytes = random_block();
    let mut more = random_block();
    bytes.append(&mut more);
    encode_base64(bytes.as_slice())
}

} // verus!
