//! Where an uploaded file is kept: under the static directory, in two
//! levels of folders named after the first two and the next two bytes of
//! its hash, in a file named after the hash with the extension `pdf`.

use vstd::prelude::*;
use vstd::string::*;
use vstd::utf8::{
    encode_utf8, encode_utf8_valid_utf8, is_ascii_chars, is_ascii_chars_encode_utf8,
    is_char_boundary, is_char_boundary_iff_not_is_continuation_byte,
};

verus! {

/// The path of a stored file, as the pieces that build it: start at `root`,
/// add the folders `first` and `second`, add `file`, then give the last
/// component the extension `extension`.
pub struct StoragePath {
    pub root: String,
    pub first: String,
    pub second: String,
    pub file: String,
    pub extension: String,
}

/// Whether `hash` can be cut into its first two and next two bytes: it has
/// at least four bytes, and bytes 2 and 4 start characters.
pub open spec fn splittable_hash(hash: &str) -> bool {
    &&& hash.spec_bytes().len() >= 4
    &&& is_char_boundary(hash.spec_bytes(), 2)
    &&& is_char_boundary(hash.spec_bytes(), 4)
}

/// Builds the path of the file with hash `hash` under `static_dir`: the
/// folders are the hash's bytes `0..2` and `2..4`, the file is the hash
/// itself, with the extension `pdf`.
pub fn build_file_path(static_dir: &str, hash: &str) -> (res: StoragePath)
    requires
        splittable_hash(hash),
    ensures
        res.root@ == static_dir@,
        encode_utf8(res.first@) == hash.spec_bytes().subrange(0, 2),
        encode_utf8(res.second@) == hash.spec_bytes().subrange(2, 4),
        is_ascii_chars(hash@) ==> res.first@ == hash@.subrange(0, 2) && res.second@ == hash@.subrange(2, 4),
        res.file@ == hash@,
        res.extension@ == "pdf"@,
{
    let ghost bytes = hash.spec_bytes();
    let (head, _) = hash.split_at(4);
    proof {
        encode_utf8_valid_utf8(hash@);
        encode_utf8_valid_utf8(head@);
        assert(head.spec_bytes() =~= bytes.subrange(0, 4));
        assert(head.spec_bytes()[2] == bytes[2]);
        is_char_boundary_iff_not_is_continuation_byte(bytes, 2);
        is_char_boundary_iff_not_is_continuation_byte(head.spec_bytes(), 2);
        assert(is_char_boundary(head.spec_bytes(), 2));
    }
    let (first, second) = head.split_at(2);
    proof {
        assert(first.spec_bytes() =~= bytes.subrange(0, 2));
        assert(second.spec_bytes() =~= bytes.subrange(2, 4));
        if is_ascii_chars(hash@) {
            is_ascii_chars_encode_utf8(hash@);
            lemma_ascii_prefix(hash@, 2);
            lemma_ascii_prefix(hash@, 4);
            lemma_encode_utf8_injective(first@, hash@.subrange(0, 2));
            assert(hash@.subrange(0, 4) =~= hash@.subrange(0, 2) + hash@.subrange(2, 4));
            lemma_ascii_prefix(hash@.subrange(2, 4), 2);
            assert(hash@.subrange(2, 4).subrange(0, 2) =~= hash@.subrange(2, 4));
            assert(encode_utf8(hash@.subrange(2, 4)) =~= bytes.subrange(2, 4)) by {
                is_ascii_chars_encode_utf8(hash@);
                is_ascii_chars_encode_utf8(hash@.subrange(2, 4));
            }
            lemma_encode_utf8_injective(second@, hash@.subrange(2, 4));
        }
    }
    let extension = String::from_str("pdf");
    StoragePath {
        root: static_dir.to_owned(),
        first: first.to_owned(),
        second: second.to_owned(),
        file: hash.to_owned(),
        extension,
    }
}

/// For ASCII text, the encoding of the first `n` characters is the first
/// `n` bytes of the encoding.
proof fn lemma_ascii_prefix(s: Seq<char>, n: int)
    requires
        is_ascii_chars(s),
        0 <= n <= s.len(),
    ensures
        is_ascii_chars(s.subrange(0, n)),
        encode_utf8(s.subrange(0, n)) == encode_utf8(s).subrange(0, n),
{
    let p = s.subrange(0, n);
    assert(is_ascii_chars(p));
    is_ascii_chars_encode_utf8(s);
    is_ascii_chars_encode_utf8(p);
    assert(encode_utf8(p) =~= encode_utf8(s).subrange(0, n));
}

proof fn lemma_encode_utf8_injective(a: Seq<char>, b: Seq<char>)
    requires
        encode_utf8(a) == encode_utf8(b),
    ensures
        a == b,
{
    vstd::utf8::encode_utf8_decode_utf8(a);
    vstd::utf8::encode_utf8_decode_utf8(b);
}

/// Two different hashes never give the same file component, so two uploads
/// with different hashes are never filed under the same name.
pub proof fn lemma_storage_paths_distinct(a: Seq<char>, b: Seq<char>, pa: StoragePath, pb: StoragePath)
    requires
        a != b,
        pa.file@ == a,
        pb.file@ == b,
    ensures
        pa.file@ != pb.file@,
        pa != pb,
{
}

/// For an ASCII hash, the two folder names spell the first four characters
/// of the hash, which is the start of the file's name.
pub proof fn lemma_folders_prefix_file(hash: Seq<char>, p: StoragePath)
    requires
        is_ascii_chars(hash),
        hash.len() >= 4,
        p.first@ == hash.subrange(0, 2),
        p.second@ == hash.subrange(2, 4),
        p.file@ == hash,
    ensures
        p.first@ + p.second@ == p.file@.subrange(0, 4),
{
    assert(p.first@ + p.second@ =~= p.file@.subrange(0, 4));
}

} // verus!
