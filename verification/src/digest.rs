use vstd::prelude::*;

verus! {

/// The SHA-256 digest of the UTF-8 encoding of `text`.
pub uninterp spec fn sha256_utf8(text: Seq<char>) -> Seq<u8>;

/// Calls `sha2::Sha256::digest` on the UTF-8 bytes of `text`; the digest is
/// named `sha256_utf8` and, as SHA-256's output size is fixed, is 32 bytes.
#[verifier::external_body]
fn sha256_of_str(text: &str) -> (r: Vec<u8>)
    ensures
        r@ == sha256_utf8(text@),
        r@.len() == 32,
{
    <sha2::Sha256 as sha2::Digest>::digest(text.as_bytes()).to_vec()
}

/// The lowercase hexadecimal digit for `d < 16`.
pub open spec fn hex_digit(d: int) -> char {
    seq!['0', '1', '2', '3', '4', '5', '6', '7', '8', '9', 'a', 'b', 'c', 'd', 'e', 'f'][d]
}

/// Each byte as two lowercase hexadecimal digits, high nibble first.
pub open spec fn lower_hex(bytes: Seq<u8>) -> Seq<char>
    decreases bytes.len(),
{
    if bytes.len() == 0 {
        Seq::empty()
    } else {
        lower_hex(bytes.drop_last()) + seq![
            hex_digit(bytes.last() as int / 16),
            hex_digit(bytes.last() as int % 16),
        ]
    }
}

/// Calls `hex::encode`, which writes each byte as two lowercase hexadecimal
/// digits from the table `0123456789abcdef`, high nibble first.
#[verifier::external_body]
fn hex_encode(bytes: &Vec<u8>) -> (r: String)
    ensures
        r@ == lower_hex(bytes@),
{
    hex::encode(bytes)
}

/// `0` to `9` and `a` to `f`.
pub open spec fn is_lower_hex_char(c: char) -> bool {
    48 <= (c as u32) <= 57 || 97 <= (c as u32) <= 102
}

/// Hexadecimal text is made of lowercase hexadecimal digits.
pub proof fn lemma_lower_hex_chars(bytes: Seq<u8>)
    ensures
        forall|i: int| 0 <= i < lower_hex(bytes).len() ==> is_lower_hex_char(#[trigger] lower_hex(bytes)[i]),
    decreases bytes.len(),
{
    if bytes.len() > 0 {
        let p = lower_hex(bytes.drop_last());
        lemma_lower_hex_chars(bytes.drop_last());
        let hi = bytes.last() as int / 16;
        let lo = bytes.last() as int % 16;
        assert(is_lower_hex_char(hex_digit(hi)));
        assert(is_lower_hex_char(hex_digit(lo)));
        assert forall|i: int| 0 <= i < lower_hex(bytes).len() implies is_lower_hex_char(#[trigger] lower_hex(bytes)[i]) by {
            if i < p.len() {
                assert(lower_hex(bytes)[i] == p[i]);
            }
        }
    }
}

/// The cache identity of a normalized query: its SHA-256 digest in hex.
pub open spec fn query_hash(normalized: Seq<char>) -> Seq<char> {
    lower_hex(sha256_utf8(normalized))
}

/// The hex SHA-256 digest of a normalized query.
pub fn hash_query(normalized: &str) -> (r: String)
    ensures
        r@ == query_hash(normalized@),
        r@.len() == 64,
        forall|i: int| 0 <= i < 64 ==> is_lower_hex_char(#[trigger] r@[i]),
{
    let digest = sha256_of_str(normalized);
    proof {
        lemma_lower_hex_len(digest@);
        lemma_lower_hex_chars(digest@);
    }
    hex_encode(&digest)
}

} // verus!

verus! {

/// Two hexadecimal digits per byte.
pub proof fn lemma_lower_hex_len(bytes: Seq<u8>)
    ensures
        lower_hex(bytes).len() == 2 * bytes.len(),
    decreases bytes.len(),
{
    if bytes.len() > 0 {
        lemma_lower_hex_len(bytes.drop_last());
    }
}

/// Hexadecimal encoding loses nothing: different byte strings give
/// different text.
pub proof fn lemma_lower_hex_injective(a: Seq<u8>, b: Seq<u8>)
    requires
        lower_hex(a) == lower_hex(b),
    ensures
        a == b,
    decreases a.len(),
{
    lemma_lower_hex_len(a);
    lemma_lower_hex_len(b);
    if a.len() > 0 {
        let n = lower_hex(a).len();
        assert(lower_hex(a)[n - 2] == hex_digit(a.last() as int / 16));
        assert(lower_hex(b)[n - 2] == hex_digit(b.last() as int / 16));
        assert(lower_hex(a)[n - 1] == hex_digit(a.last() as int % 16));
        assert(lower_hex(b)[n - 1] == hex_digit(b.last() as int % 16));
        assert(a.last() as int / 16 == b.last() as int / 16);
        assert(a.last() as int % 16 == b.last() as int % 16);
        assert(a.last() == b.last());
        lemma_lower_hex_len(a.drop_last());
        assert(lower_hex(a.drop_last()) =~= lower_hex(a).subrange(0, n - 2));
        assert(lower_hex(b.drop_last()) =~= lower_hex(b).subrange(0, n - 2));
        lemma_lower_hex_injective(a.drop_last(), b.drop_last());
        assert(a =~= b.drop_last().push(b.last()));
    } else {
        assert(b.len() == 0);
        assert(a =~= b);
    }
}

} // verus!
