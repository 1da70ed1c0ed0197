//! SHA3-256 digests of uploaded files, in the lowercase hexadecimal form
//! under which the service files and recognises them.

use crypto::digest::Digest;
use crypto::sha3::Sha3;
use vstd::prelude::*;

verus! {

/// The SHA3-256 digest of a byte string, as rust-crypto computes it.
pub uninterp spec fn sha3_256(data: Seq<u8>) -> Seq<u8>;

/// The lowercase hexadecimal character for a value in `0..16`.
pub open spec fn hex_char(v: int) -> char {
    if v < 10 {
        (('0' as int) + v) as char
    } else {
        (('a' as int) + v - 10) as char
    }
}

/// Bytes in lowercase hexadecimal, two characters per byte, high nibble
/// first (what rustc-serialize's `ToHex` writes).
pub open spec fn hex_lower(bytes: Seq<u8>) -> Seq<char>
    decreases bytes.len(),
{
    if bytes.len() == 0 {
        Seq::empty()
    } else {
        hex_lower(bytes.drop_last()) + seq![
            hex_char(bytes.last() as int / 16),
            hex_char(bytes.last() as int % 16),
        ]
    }
}

pub open spec fn is_hex_char(c: char) -> bool {
    ('0' <= c && c <= '9') || ('a' <= c && c <= 'f')
}

/// Text of the form that a SHA3-256 digest takes: 64 lowercase hex digits.
pub open spec fn is_hex_digest(s: Seq<char>) -> bool {
    &&& s.len() == 64
    &&& forall|i: int| 0 <= i < s.len() ==> is_hex_char(#[trigger] s[i])
}

/// Hashes `data` with rust-crypto's SHA3-256 and returns the digest in hex.
///
/// Calls `Sha3::sha3_256`, `Digest::input` and `Digest::result_str`. The
/// contract claims that the text is the `ToHex` encoding of the 32-byte
/// digest, which `result_str` fills to `output_bits() / 8` bytes; the digest
/// itself is only named.
#[verifier::external_body]
fn sha3_256_hex(data: &[u8]) -> (res: String)
    ensures
        res@ == hex_lower(sha3_256(data@)),
        res@.len() == 64,
{
    let mut hasher = Sha3::sha3_256();
    hasher.input(data);
    hasher.result_str()
}

proof fn lemma_hex_lower(bytes: Seq<u8>)
    ensures
        hex_lower(bytes).len() == 2 * bytes.len(),
        forall|i: int| 0 <= i < hex_lower(bytes).len() ==> is_hex_char(#[trigger] hex_lower(bytes)[i]),
    decreases bytes.len(),
{
    if bytes.len() > 0 {
        lemma_hex_lower(bytes.drop_last());
        let b = bytes.last() as int;
        let prev = hex_lower(bytes.drop_last());
        let pair = seq![hex_char(b / 16), hex_char(b % 16)];
        assert(is_hex_char(hex_char(b / 16)));
        assert(is_hex_char(hex_char(b % 16)));
        assert forall|i: int| 0 <= i < hex_lower(bytes).len() implies is_hex_char(#[trigger] hex_lower(bytes)[i]) by {
            if i < prev.len() {
                assert(hex_lower(bytes)[i] == prev[i]);
            } else {
                assert(hex_lower(bytes)[i] == pair[i - prev.len()]);
            }
        }
    }
}

/// The hex SHA3-256 digest of a file's contents: the key under which an
/// upload is stored and matched against earlier ones.
pub struct Sha3Hex {
    text: String,
}

impl View for Sha3Hex {
    type V = Seq<char>;

    closed spec fn view(&self) -> Seq<char> {
        self.text@
    }
}

impl Sha3Hex {
    #[verifier::type_invariant]
    closed spec fn well_formed(self) -> bool {
        is_hex_digest(self.text@)
    }

    /// Digests a file's contents.
    pub fn of_bytes(data: &[u8]) -> (res: Sha3Hex)
        ensures
            res@ == hex_lower(sha3_256(data@)),
            is_hex_digest(res@),
    {
        let text = sha3_256_hex(data);
        proof {
            lemma_hex_lower(sha3_256(data@));
        }
        Sha3Hex { text }
    }

    /// The digest as text.
    pub fn as_str(&self) -> (res: &str)
        ensures
            res@ == self@,
            is_hex_digest(res@),
    {
        proof {
            use_type_invariant(self);
        }
        self.text.as_str()
    }

    /// Another copy of the digest.
    pub fn copy(&self) -> (res: Sha3Hex)
        ensures
            res@ == self@,
    {
        proof {
            use_type_invariant(self);
        }
        Sha3Hex { text: self.text.clone() }
    }

    /// The digest as an owned string.
    pub fn to_string(&self) -> (res: String)
        ensures
            res@ == self@,
            is_hex_digest(res@),
    {
        proof {
            use_type_invariant(self);
        }
        self.text.clone()
    }
}

} // verus!
