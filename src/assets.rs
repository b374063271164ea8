//! Paths of static assets, versioned by a digest of their contents so that a
//! changed file gets a new URL.
use vstd::prelude::*;
use vstd::string::StringExecFns;

verus! {

/// The SHA-256 digest of some bytes.
pub uninterp spec fn sha256_of(data: Seq<u8>) -> Seq<u8>;

/// Relies on sha2's Sha256: the SHA-256 digest of the bytes, 32 bytes long.
#[verifier::external_body]
fn sha256(data: &[u8]) -> (r: Vec<u8>)
    ensures
        r@ == sha256_of(data@),
        r@.len() == 32,
{
    <sha2::Sha256 as sha2::Digest>::digest(data).to_vec()
}

/// The lower-case hex digit of `n`, for `n < 16`.
pub open spec fn hex_digit(n: u8) -> char {
    if n < 10 {
        (48 + n) as char
    } else {
        (87 + n) as char
    }
}

/// Bytes in lower-case hex, two digits each.
pub open spec fn hex_lower(bytes: Seq<u8>) -> Seq<char>
    decreases bytes.len(),
{
    if bytes.len() == 0 {
        Seq::empty()
    } else {
        hex_lower(bytes.drop_last()) + seq![hex_digit(bytes.last() / 16), hex_digit(bytes.last() % 16)]
    }
}

/// The URL of an asset that has not been read.
pub open spec fn plain_asset_path(path: Seq<char>) -> Seq<char> {
    "/static/"@ + path
}

/// The URL of an asset whose contents have the given digest.
pub open spec fn versioned_asset_path(path: Seq<char>, digest: Seq<u8>) -> Seq<char> {
    "/static/"@ + path + "?v="@ + hex_lower(digest)
}

fn append_hex_digit(s: &mut String, n: u8)
    requires
        n < 16,
    ensures
        final(s)@ == old(s)@.push(hex_digit(n)),
{
    let digits: [&str; 16] = ["0", "1", "2", "3", "4", "5", "6", "7", "8", "9", "a", "b", "c", "d", "e", "f"];
    let d = digits[n as usize];
    proof {
        reveal_strlit("0");
        reveal_strlit("1");
        reveal_strlit("2");
        reveal_strlit("3");
        reveal_strlit("4");
        reveal_strlit("5");
        reveal_strlit("6");
        reveal_strlit("7");
        reveal_strlit("8");
        reveal_strlit("9");
        reveal_strlit("a");
        reveal_strlit("b");
        reveal_strlit("c");
        reveal_strlit("d");
        reveal_strlit("e");
        reveal_strlit("f");
        assert(d@ =~= seq![hex_digit(n)]);
    }
    s.append(d);
}

/// Appends the bytes in lower-case hex.
fn append_hex(s: &mut String, bytes: &[u8])
    ensures
        final(s)@ == old(s)@ + hex_lower(bytes@),
{
    let mut i: usize = 0;
    assert(bytes@.subrange(0, 0) =~= Seq::<u8>::empty());
    assert(s@ + hex_lower(Seq::<u8>::empty()) =~= s@);
    while i < bytes.len()
        invariant
            i <= bytes@.len(),
            s@ == old(s)@ + hex_lower(bytes@.subrange(0, i as int)),
        decreases bytes@.len() - i,
    {
        let ghost before = s@;
        let b = bytes[i];
        append_hex_digit(s, b / 16);
        append_hex_digit(s, b % 16);
        assert(bytes@.subrange(0, i + 1).drop_last() =~= bytes@.subrange(0, i as int));
        assert(s@ =~= old(s)@ + hex_lower(bytes@.subrange(0, i + 1)));
        i = i + 1;
    }
    assert(bytes@.subrange(0, bytes@.len() as int) =~= bytes@);
}

/// The URL of an asset whose contents have digest `digest`.
pub fn hashed_asset_path(path: &str, digest: &[u8]) -> (r: String)
    ensures
        r@ == versioned_asset_path(path@, digest@),
{
    let mut s = String::new();
    s.append("/static/");
    s.append(path);
    s.append("?v=");
    append_hex(&mut s, digest);
    assert(s@ =~= versioned_asset_path(path@, digest@));
    s
}

/// The URL of an asset that could not be read.
pub fn unversioned_asset_path(path: &str) -> (r: String)
    ensures
        r@ == plain_asset_path(path@),
{
    let mut s = String::new();
    s.append("/static/");
    s.append(path);
    assert(s@ =~= plain_asset_path(path@));
    s
}

/// The URL stored for `path` among `cache`.
pub open spec fn cached_path(cache: Seq<(String, String)>, path: Seq<char>) -> Option<Seq<char>>
    decreases cache.len(),
{
    if cache.len() == 0 {
        None
    } else if cache.last().0@ == path {
        Some(cache.last().1@)
    } else {
        cached_path(cache.drop_last(), path)
    }
}

/// Hands out asset URLs and remembers those it versioned.
#[derive(Debug, Clone)]
pub struct AssetLoader {
    cache: Vec<(String, String)>,
}

impl AssetLoader {
    pub closed spec fn cached(&self, path: Seq<char>) -> Option<Seq<char>> {
        cached_path(self.cache@, path)
    }

    /// A loader that remembers nothing yet.
    pub fn new() -> (r: AssetLoader)
        ensures
            forall|p: Seq<char>| r.cached(p) is None,
    {
        AssetLoader { cache: Vec::new() }
    }

    /// The URL remembered for `path`, if any.
    pub fn cached_asset_path(&self, path: &str) -> (r: Option<String>)
        ensures
            match r {
                Some(s) => self.cached(path@) == Some(s@),
                None => self.cached(path@) is None,
            },
    {
        let key = path.to_owned();
        let mut i: usize = self.cache.len();
        assert(self.cache@.subrange(0, i as int) =~= self.cache@);
        while i > 0
            invariant
                i <= self.cache@.len(),
                key@ == path@,
                self.cached(path@) == cached_path(self.cache@.subrange(0, i as int), path@),
            decreases i,
        {
            assert(self.cache@.subrange(0, i as int).drop_last() =~= self.cache@.subrange(0, i - 1));
            if self.cache[i - 1].0 == key {
                return Some(self.cache[i - 1].1.clone());
            }
            i = i - 1;
        }
        None
    }

    /// The URL of asset `path`: the remembered one, or, when the caller could
    /// read the asset, one versioned by the digest of its contents, which is
    /// then remembered; otherwise the plain URL, not remembered.
    pub fn asset_path(&mut self, path: &str, contents: Option<&[u8]>) -> (r: String)
        ensures
            old(self).cached(path@) matches Some(c) ==> r@ == c && final(self).cached(path@) == Some(c),
            old(self).cached(path@) is None ==> match contents {
                Some(bytes) => r@ == versioned_asset_path(path@, sha256_of(bytes@))
                    && final(self).cached(path@) == Some(r@),
                None => r@ == plain_asset_path(path@) && final(self).cached(path@) is None,
            },
            forall|p: Seq<char>| p != path@ ==> #[trigger] final(self).cached(p) == old(self).cached(p),
    {
        if let Some(hit) = self.cached_asset_path(path) {
            return hit;
        }
        match contents {
            Some(bytes) => {
                let digest = sha256(bytes);
                let url = hashed_asset_path(path, digest.as_slice());
                let ghost before = self.cache@;
                self.cache.push((path.to_owned(), url.clone()));
                assert(self.cache@.drop_last() =~= before);
                url
            },
            None => unversioned_asset_path(path),
        }
    }
}

} // verus!
