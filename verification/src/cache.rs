use vstd::prelude::*;
use vstd::string::*;
use sha2::{Digest, Sha256};
use std::path::PathBuf;
use crate::text::{join3, str_eq};

verus! {

#[verifier::external_type_specification]
#[verifier::external_body]
pub struct ExPathBuf(PathBuf);

/// The SHA-256 digest of some bytes.
pub uninterp spec fn sha256_of(data: Seq<u8>) -> Seq<u8>;

/// `Sha256::digest` (sha2).  Claims that the digest is the SHA-256 function
/// of the bytes and, as sha2's 32-byte output type fixes, 32 bytes long.
#[verifier::external_body]
fn sha256_digest(data: &[u8]) -> (r: Vec<u8>)
    ensures
        r@ == sha256_of(data@),
        r@.len() == 32,
{
    Sha256::digest(data).to_vec()
}

/// The lowercase hexadecimal digit of a nibble.
pub open spec fn hex_digit(n: int) -> char {
    if n < 10 {
        ('0' as int + n) as char
    } else {
        ('a' as int + (n - 10)) as char
    }
}

/// What `hex::encode` writes: two lowercase digits per byte, high nibble first.
pub open spec fn hex_lower(data: Seq<u8>) -> Seq<char>
    decreases data.len(),
{
    if data.len() == 0 {
        Seq::empty()
    } else {
        hex_lower(data.drop_last()) + seq![
            hex_digit(data.last() as int / 16),
            hex_digit(data.last() as int % 16),
        ]
    }
}

/// `hex::encode`.  Claims what the hex crate documents and its source does:
/// each byte becomes two lowercase hexadecimal digits, high nibble first.
#[verifier::external_body]
fn hex_encode(data: &[u8]) -> (r: String)
    ensures
        r@ == hex_lower(data@),
{
    hex::encode(data)
}

/// The Unicode lowercase of a string.
pub uninterp spec fn lowercase(s: Seq<char>) -> Seq<char>;

/// `str::to_lowercase`.  Claims only that the result is the lowercase
/// function of the string; what Unicode lowercasing does is left unsaid.
#[verifier::external_body]
fn to_lowercase(s: &str) -> (r: String)
    ensures
        r@ == lowercase(s@),
{
    s.to_lowercase()
}

/// `s` without its leading dots.
pub open spec fn trim_leading_dots(s: Seq<char>) -> Seq<char>
    decreases s.len(),
{
    if s.len() > 0 && s[0] == '.' {
        trim_leading_dots(s.skip(1))
    } else {
        s
    }
}

/// The extension a cached file gets: `jpg` for none, else the extension
/// without its leading dots, lowercased.
pub open spec fn safe_ext_spec(ext: Seq<char>) -> Seq<char> {
    if ext.len() == 0 {
        "jpg"@
    } else {
        lowercase(trim_leading_dots(ext))
    }
}

/// The name of the file that caches `bytes`: the hex SHA-256 of the bytes,
/// a dot, and the safe extension.
pub open spec fn cache_file_name(bytes: Seq<u8>, ext: Seq<char>) -> Seq<char> {
    hex_lower(sha256_of(bytes)) + "."@ + safe_ext_spec(ext)
}

/// `ext.trim_start_matches('.')`.
pub fn trim_dots(ext: &str) -> (r: &str)
    ensures
        r@ == trim_leading_dots(ext@),
{
    let n = ext.unicode_len();
    let mut i: usize = 0;
    assert(ext@.skip(0) =~= ext@);
    while i < n && ext.get_char(i) == '.'
        invariant
            n == ext@.len(),
            i <= n,
            trim_leading_dots(ext@) == trim_leading_dots(ext@.skip(i as int)),
        decreases n - i,
    {
        assert(ext@.skip(i as int).skip(1) =~= ext@.skip(i + 1));
        i = i + 1;
    }
    let r = ext.substring_char(i, n);
    assert(r@ =~= ext@.skip(i as int));
    r
}

/// The extension a cached file gets.
pub fn safe_ext(ext: &str) -> (r: String)
    ensures
        r@ == safe_ext_spec(ext@),
{
    proof {
        reveal_strlit("");
        assert(""@.len() == 0);
        assert(ext@.len() == 0 ==> ext@ =~= ""@);
    }
    if str_eq(ext, "") {
        String::from_str("jpg")
    } else {
        to_lowercase(trim_dots(ext))
    }
}

/// The file name that a digest (already in hex) and an extension (already
/// made safe) give.
pub fn file_name_from(digest_hex: &str, ext: &str) -> (r: String)
    ensures
        r@ == digest_hex@ + "."@ + ext@,
{
    join3(digest_hex, ".", ext)
}

/// The name of the file that caches `bytes` with extension `ext`.
pub fn file_name_for(bytes: &[u8], ext: &str) -> (r: String)
    ensures
        r@ == cache_file_name(bytes@, ext@),
{
    let digest = sha256_digest(bytes);
    let hex = hex_encode(digest.as_slice());
    let e = safe_ext(ext);
    file_name_from(hex.as_str(), e.as_str())
}

/// The path that joining `name` onto the directory `dir` makes.
pub uninterp spec fn joined_path(dir: PathBuf, name: Seq<char>) -> PathBuf;

/// `PathBuf::join`.  Claims only that the result is the joining function of
/// the directory and the name; what joining does is left to `std::path`.
#[verifier::external_body]
fn join_path(dir: &PathBuf, name: &str) -> (r: PathBuf)
    ensures
        r == joined_path(*dir, name@),
{
    dir.join(name)
}

/// A directory of downloaded wallpapers, each stored under a name made from its content.
pub struct Cache {
    pub dir: PathBuf,
}

impl Cache {
    /// The path under which `bytes` are cached: the cache directory joined
    /// with `file_name_for(bytes, ext)`.
    pub fn path_for(&self, bytes: &[u8], ext: &str) -> (r: PathBuf)
        ensures
            r == joined_path(self.dir, cache_file_name(bytes@, ext@)),
    {
        let name = file_name_for(bytes, ext);
        join_path(&self.dir, name.as_str())
    }
}

/// Hex writing never merges two byte strings: equal texts come from equal bytes.
proof fn lemma_hex_injective(a: Seq<u8>, b: Seq<u8>)
    requires
        hex_lower(a) == hex_lower(b),
    ensures
        a == b,
    decreases a.len(),
{
    lemma_hex_len(a);
    lemma_hex_len(b);
    if a.len() > 0 {
        let ha = hex_lower(a);
        let hb = hex_lower(b);
        let n = ha.len();
        assert(ha[n - 2] == hex_digit(a.last() as int / 16));
        assert(hb[n - 2] == hex_digit(b.last() as int / 16));
        assert(ha[n - 1] == hex_digit(a.last() as int % 16));
        assert(hb[n - 1] == hex_digit(b.last() as int % 16));
        assert(a.last() as int / 16 == b.last() as int / 16);
        assert(a.last() as int % 16 == b.last() as int % 16);
        assert(hex_lower(a.drop_last()) =~= ha.take(n - 2));
        assert(hex_lower(b.drop_last()) =~= hb.take(n - 2));
        lemma_hex_injective(a.drop_last(), b.drop_last());
        assert(a =~= a.drop_last().push(a.last()));
        assert(b =~= b.drop_last().push(b.last()));
    }
}

proof fn lemma_hex_len(a: Seq<u8>)
    ensures
        hex_lower(a).len() == 2 * a.len(),
    decreases a.len(),
{
    if a.len() > 0 {
        lemma_hex_len(a.drop_last());
    }
}

/// The cache is content-addressed: the same bytes with the same extension
/// always get the same name, every name ends in a dot and the safe
/// extension, and two writes share a name only when their digests and their
/// safe extensions agree.
pub proof fn law_cache_names(b1: Seq<u8>, e1: Seq<char>, b2: Seq<u8>, e2: Seq<char>)
    ensures
        (b1 == b2 && e1 == e2) ==> cache_file_name(b1, e1) == cache_file_name(b2, e2),
        cache_file_name(b1, e1).len() >= 1 + safe_ext_spec(e1).len(),
        cache_file_name(b1, e1).skip(cache_file_name(b1, e1).len() - safe_ext_spec(e1).len() - 1)
            == "."@ + safe_ext_spec(e1),
        sha256_of(b1).len() == sha256_of(b2).len() && cache_file_name(b1, e1) == cache_file_name(b2, e2)
            ==> sha256_of(b1) == sha256_of(b2) && safe_ext_spec(e1) == safe_ext_spec(e2),
{
    reveal_strlit(".");
    let n1 = cache_file_name(b1, e1);
    let h1 = hex_lower(sha256_of(b1));
    let h2 = hex_lower(sha256_of(b2));
    lemma_hex_len(sha256_of(b1));
    lemma_hex_len(sha256_of(b2));
    assert(n1.skip(n1.len() - safe_ext_spec(e1).len() - 1) =~= "."@ + safe_ext_spec(e1));
    if sha256_of(b1).len() == sha256_of(b2).len() && cache_file_name(b1, e1) == cache_file_name(b2, e2) {
        let k = h1.len();
        assert(cache_file_name(b1, e1).take(k as int) =~= h1);
        assert(cache_file_name(b2, e2).take(k as int) =~= h2);
        lemma_hex_injective(sha256_of(b1), sha256_of(b2));
        assert(cache_file_name(b1, e1).skip((k + 1) as int) =~= safe_ext_spec(e1));
        assert(cache_file_name(b2, e2).skip((k + 1) as int) =~= safe_ext_spec(e2));
    }
}

} // verus!
