//! The local cache of base images: file names and checksum verification.
use vstd::prelude::*;
use crate::addressing::hex_byte;
use crate::cloud_init::chars_of;
use crate::dirs::{join_path, joined};
use crate::error::VmError;
use crate::scenario::ImageSource;
use crate::text::{push_str, str_eq, string_from_chars};
use vstd::string::StringSliceAdditionalSpecFns;
use vstd::utf8::encode_utf8;

verus! {

/// The SHA-256 digest of `b`.
pub uninterp spec fn sha256_of(b: Seq<u8>) -> Seq<u8>;

/// Lower-case hex, two digits per byte.
pub open spec fn hex_text(b: Seq<u8>) -> Seq<char>
    decreases b.len(),
{
    if b.len() == 0 {
        Seq::empty()
    } else {
        hex_text(b.drop_last()) + hex_byte(b.last() as nat)
    }
}

/// Relies on sha2's `Sha256` digest: 32 bytes that depend on the input alone.
#[verifier::external_body]
fn sha256_digest(b: &[u8]) -> (r: Vec<u8>)
    ensures
        r@ == sha256_of(b@),
        r@.len() == 32,
{
    <sha2::Sha256 as sha2::Digest>::digest(b).to_vec()
}

/// Relies on `hex::encode`: two lower-case hex digits per byte.
#[verifier::external_body]
fn hex_encode(b: &[u8]) -> (r: String)
    ensures
        r@ == hex_text(b@),
{
    hex::encode(b)
}

/// The last `/`-separated segment of `s`.
pub open spec fn last_segment(s: Seq<char>) -> Seq<char>
    decreases s.len(),
{
    if s.len() == 0 {
        s
    } else if s.last() == '/' {
        Seq::empty()
    } else {
        last_segment(s.drop_last()).push(s.last())
    }
}

/// `s` with every repetition of `suffix` at its end removed.
pub open spec fn trim_suffix_all(s: Seq<char>, suffix: Seq<char>) -> Seq<char>
    decreases s.len(),
{
    if suffix.len() > 0 && s.len() >= suffix.len() && s.subrange(
        s.len() - suffix.len(),
        s.len() as int,
    ) == suffix {
        trim_suffix_all(s.subrange(0, s.len() - suffix.len()), suffix)
    } else {
        s
    }
}

/// The file name of a cached image: the URL's base name without `.qcow2` and
/// `.img` endings, the architecture, and the hex of the first eight bytes of
/// the SHA-256 of the URL's UTF-8 bytes.
pub open spec fn cache_filename_text(url: Seq<char>, url_bytes: Seq<u8>, arch: Seq<char>) -> Seq<char> {
    trim_suffix_all(trim_suffix_all(last_segment(url), ".qcow2"@), ".img"@) + "-"@ + arch + "-"@
        + hex_text(sha256_of(url_bytes).subrange(0, 8)) + ".img"@
}

fn last_segment_of(url: &str) -> (r: Vec<char>)
    ensures
        r@ == last_segment(url@),
{
    let cs = chars_of(url);
    let mut out: Vec<char> = Vec::new();
    let mut i: usize = 0;
    while i < cs.len()
        invariant
            i <= cs@.len(),
            out@ == last_segment(cs@.subrange(0, i as int)),
        decreases cs@.len() - i,
    {
        proof {
            let pre = cs@.subrange(0, i as int + 1);
            assert(pre.drop_last() =~= cs@.subrange(0, i as int));
        }
        if cs[i] == '/' {
            out = Vec::new();
        } else {
            out.push(cs[i]);
        }
        i += 1;
    }
    assert(cs@.subrange(0, cs@.len() as int) =~= cs@);
    out
}

fn ends_with_at(s: &Vec<char>, len: usize, suffix: &Vec<char>) -> (r: bool)
    requires
        len <= s@.len(),
    ensures
        r == (suffix@.len() > 0 && len >= suffix@.len() && s@.subrange(0, len as int).subrange(
            len - suffix@.len(),
            len as int,
        ) == suffix@),
{
    if suffix.len() == 0 || len < suffix.len() {
        return false;
    }
    let start = len - suffix.len();
    let mut j: usize = 0;
    while j < suffix.len()
        invariant
            start + suffix@.len() == len,
            len <= s@.len(),
            j <= suffix@.len(),
            forall|k: int| 0 <= k < j ==> s@[start + k] == suffix@[k],
        decreases suffix@.len() - j,
    {
        if s[start + j] != suffix[j] {
            assert(s@.subrange(0, len as int).subrange(start as int, len as int)[j as int] != suffix@[j as int]);
            return false;
        }
        j += 1;
    }
    assert(s@.subrange(0, len as int).subrange(start as int, len as int) =~= suffix@);
    true
}

fn trim_all(s: &Vec<char>, suffix: &Vec<char>) -> (r: Vec<char>)
    ensures
        r@ == trim_suffix_all(s@, suffix@),
{
    let mut len = s.len();
    assert(s@.subrange(0, len as int) =~= s@);
    while ends_with_at(s, len, suffix)
        invariant
            len <= s@.len(),
            trim_suffix_all(s@, suffix@) == trim_suffix_all(s@.subrange(0, len as int), suffix@),
        decreases len,
    {
        assert(s@.subrange(0, len as int).subrange(0, len - suffix@.len()) =~= s@.subrange(
            0,
            len - suffix@.len(),
        ));
        len = len - suffix.len();
    }
    let mut out: Vec<char> = Vec::new();
    let mut i: usize = 0;
    while i < len
        invariant
            len <= s@.len(),
            i <= len,
            out@ == s@.subrange(0, i as int),
        decreases len - i,
    {
        out.push(s[i]);
        assert(out@ =~= s@.subrange(0, i as int + 1));
        i += 1;
    }
    out
}

/// The local cache of downloaded base images.
#[derive(Debug, Clone, PartialEq, Eq)]
pub struct ImageCache {
    pub dir: String,
}

impl ImageCache {
    pub fn new(dir: String) -> (r: Self)
        ensures
            r.dir@ == dir@,
    {
        ImageCache { dir }
    }

    /// The name under which the image at `url` for `arch` is cached.
    pub fn cache_filename(url: &str, arch: &str) -> (r: String)
        ensures
            r@ == cache_filename_text(url@, encode_utf8(url@), arch@),
    {
        let digest = sha256_digest(url.as_bytes());
        let head = slice_prefix(&digest, 8);
        let hash = hex_encode(head.as_slice());
        let seg = last_segment_of(url);
        let q = chars_of(".qcow2");
        let m = chars_of(".img");
        let base = trim_all(&trim_all(&seg, &q), &m);
        let mut s = string_from_chars(&base);
        push_str(&mut s, "-");
        push_str(&mut s, arch);
        push_str(&mut s, "-");
        push_str(&mut s, hash.as_str());
        push_str(&mut s, ".img");
        s
    }

    /// Where the image of `source` is cached.
    pub fn cached_path(&self, source: &ImageSource) -> (r: String)
        ensures
            r@ == joined(
                self.dir@,
                cache_filename_text(source.url@, encode_utf8(source.url@), source.arch@),
            ),
    {
        let url = source.url.as_str();
        let name = Self::cache_filename(url, source.arch.as_str());
        let r = join_path(self.dir.as_str(), name.as_str());
        r
    }
}

fn slice_prefix(v: &Vec<u8>, n: usize) -> (r: Vec<u8>)
    requires
        n <= v@.len(),
    ensures
        r@ == v@.subrange(0, n as int),
{
    let mut out: Vec<u8> = Vec::new();
    let mut i: usize = 0;
    while i < n
        invariant
            n <= v@.len(),
            i <= n,
            out@ == v@.subrange(0, i as int),
        decreases n - i,
    {
        out.push(v[i]);
        assert(out@ =~= v@.subrange(0, i as int + 1));
        i += 1;
    }
    out
}

/// What checking a downloaded image against its declared checksum found.
#[derive(Debug, Clone, PartialEq, Eq)]
pub enum ChecksumCheck {
    Verified,
    /// The checksum has no algorithm prefix this tool knows; nothing was checked.
    UnknownFormat,
}

/// Check `data` against `expected`, a `sha256:`-prefixed hex digest.
/// Checksums of other formats are not checked; a mismatch is an error that
/// names both digests.
pub fn verify_checksum(data: &[u8], expected: &str) -> (r: Result<ChecksumCheck, VmError>)
    ensures
        ({
            let e = expected@;
            let p = "sha256:"@;
            if e.len() >= 7 && e.subrange(0, 7) == p {
                if hex_text(sha256_of(data@)) == e.subrange(7, e.len() as int) {
                    r == Ok::<ChecksumCheck, VmError>(ChecksumCheck::Verified)
                } else {
                    r matches Err(VmError::CloudInit(m)) && m@ == "Checksum mismatch: expected "@
                        + e.subrange(7, e.len() as int) + ", got "@ + hex_text(sha256_of(data@))
                }
            } else {
                r == Ok::<ChecksumCheck, VmError>(ChecksumCheck::UnknownFormat)
            }
        }),
{
    proof {
        reveal_strlit("sha256:");
    }
    let n = expected.unicode_len();
    if n < 7 || !str_eq(expected.substring_char(0, 7), "sha256:") {
        return Ok(ChecksumCheck::UnknownFormat);
    }
    let want = expected.substring_char(7, n);
    let digest = sha256_digest(data);
    let got = hex_encode(digest.as_slice());
    if str_eq(got.as_str(), want) {
        Ok(ChecksumCheck::Verified)
    } else {
        let mut m = String::from_str("Checksum mismatch: expected ");
        push_str(&mut m, want);
        push_str(&mut m, ", got ");
        push_str(&mut m, got.as_str());
        Err(VmError::CloudInit(m))
    }
}

} // verus!
