//! The authorization pieces the library owns: the code-verifier and its
//! challenge for the PKCE exchange, the authorization URL, and the extraction
//! of the authorization code from the callback request. Opening the browser,
//! the loopback listener and the token exchange are the caller's I/O.

use vstd::prelude::*;
use vstd::string::{StrSliceExecFns, StringExecFns, StringSliceAdditionalSpecFns};

use crate::progress::is_space;
use base64::Engine;
use rand::Rng;
use sha2::Digest;

verus! {

/// What SHA-256 yields for the given bytes; a fixed function of the input.
pub uninterp spec fn sha256_of(b: Seq<u8>) -> Seq<u8>;

/// What the unpadded URL-safe base64 alphabet encodes the given bytes as; a
/// fixed function of the input.
pub uninterp spec fn b64url_of(b: Seq<u8>) -> Seq<char>;

/// Relies on sha2's Sha256 through digest's `Digest::digest`: the SHA-256
/// hash of the input, always 32 bytes.
#[verifier::external_body]
fn sha256_bytes(b: &[u8]) -> (r: Vec<u8>)
    ensures
        r@ == sha256_of(b@),
        r@.len() == 32,
{
    sha2::Sha256::digest(b).to_vec()
}

/// Relies on base64's `Engine::encode` with the `URL_SAFE_NO_PAD` engine:
/// the unpadded URL-safe encoding of the input bytes.
#[verifier::external_body]
fn b64url_nopad(b: &[u8]) -> (r: String)
    ensures
        r@ == b64url_of(b@),
{
    base64::engine::general_purpose::URL_SAFE_NO_PAD.encode(b)
}

/// Relies on rand's `Rng::gen_range` on `thread_rng`: a value of the
/// non-empty range `0..n`; nothing is assumed about which.
#[verifier::external_body]
fn rand_below(n: usize) -> (r: usize)
    requires
        n > 0,
    ensures
        r < n,
{
    rand::thread_rng().gen_range(0..n)
}

/// The characters a code verifier draws from.
pub open spec fn verifier_charset() -> Seq<char> {
    "abcdefghijklmnopqrstuvwxyzABCDEFGHIJKLMNOPQRSTUVWXYZ0123456789-._~"@
}

/// Draw a fresh 64-character code verifier from the verifier alphabet. The
/// characters are random; only their length and alphabet are promised.
#[verifier::loop_isolation(false)]
pub fn gen_verifier() -> (r: String)
    ensures
        r@.len() == 64,
        forall|k: int| 0 <= k < 64 ==> verifier_charset().contains(#[trigger] r@[k]),
{
    let chars = "abcdefghijklmnopqrstuvwxyzABCDEFGHIJKLMNOPQRSTUVWXYZ0123456789-._~";
    proof {
        reveal_strlit("abcdefghijklmnopqrstuvwxyzABCDEFGHIJKLMNOPQRSTUVWXYZ0123456789-._~");
    }
    assert(chars@.len() == 66);
    let mut out = String::new();
    let mut i: usize = 0;
    while i < 64
        invariant
            i <= 64,
            out@.len() == i,
            chars@ == verifier_charset(),
            forall|k: int| 0 <= k < i ==> verifier_charset().contains(#[trigger] out@[k]),
        decreases 64 - i,
    {
        let j = rand_below(66);
        let piece = chars.substring_char(j, j + 1);
        assert(piece@ =~= seq![chars@[j as int]]);
        out.append(piece);
        i = i + 1;
    }
    out
}

/// The PKCE challenge of a verifier: the unpadded URL-safe base64 encoding
/// of the SHA-256 hash of its bytes.
pub fn pkce_challenge(verifier: &str) -> (r: String)
    ensures
        r@ == b64url_of(sha256_of(verifier.spec_bytes())),
{
    let digest = sha256_bytes(verifier.as_bytes());
    b64url_nopad(digest.as_slice())
}

/// The authorization URL the browser is sent to: the client, the loopback
/// redirect, the challenge and the scopes the library asks for.
pub fn build_auth_url(client_id: &str, challenge: &str) -> (r: String)
    ensures
        r@ == "https://accounts.spotify.com/authorize?client_id="@
            .add(client_id@)
            .add("&response_type=code&redirect_uri=http://127.0.0.1:18492/callback&code_challenge="@)
            .add(challenge@)
            .add("&code_challenge_method=S256&scope=playlist-read-private playlist-read-collaborative user-library-read"@),
{
    let mut out = "https://accounts.spotify.com/authorize?client_id=".to_owned();
    out.append(client_id);
    out.append("&response_type=code&redirect_uri=http://127.0.0.1:18492/callback&code_challenge=");
    out.append(challenge);
    out.append("&code_challenge_method=S256&scope=playlist-read-private playlist-read-collaborative user-library-read");
    out
}

/// The first position in `[k, hi)` holding `c`, if any.
pub open spec fn find_char_to(s: Seq<char>, c: char, k: int, hi: int) -> Option<int>
    decreases hi - k,
        when k <= hi <= s.len()
{
    if k >= hi {
        None
    } else if s[k] == c {
        Some(k)
    } else {
        find_char_to(s, c, k + 1, hi)
    }
}

/// The first position in `[k, hi)` holding a non-separator, or `hi`.
pub open spec fn skip_spaces_to(s: Seq<char>, k: int, hi: int) -> int
    decreases hi - k,
        when k <= hi <= s.len()
{
    if k >= hi {
        hi
    } else if !is_space(s[k]) {
        k
    } else {
        skip_spaces_to(s, k + 1, hi)
    }
}

/// The first position in `[k, hi)` holding a separator, or `hi`.
pub open spec fn token_end_to(s: Seq<char>, k: int, hi: int) -> int
    decreases hi - k,
        when k <= hi <= s.len()
{
    if k >= hi {
        hi
    } else if is_space(s[k]) {
        k
    } else {
        token_end_to(s, k + 1, hi)
    }
}

/// The segment starts with `code=`.
pub open spec fn starts_code(seg: Seq<char>) -> bool {
    seg.len() >= 5 && seg.take(5) == "code="@
}

/// The segment with every leading `code=` removed.
pub open spec fn strip_code(seg: Seq<char>) -> Seq<char>
    decreases seg.len(),
{
    if starts_code(seg) {
        strip_code(seg.skip(5))
    } else {
        seg
    }
}

/// Where a character is found, it lies in the range searched.
pub proof fn lemma_find_char_bounds(s: Seq<char>, c: char, k: int, hi: int)
    requires
        0 <= k <= hi <= s.len(),
    ensures
        match find_char_to(s, c, k, hi) {
            Some(x) => k <= x < hi && s[x] == c,
            None => true,
        },
    decreases hi - k,
{
    if k < hi && s[k] != c {
        lemma_find_char_bounds(s, c, k + 1, hi);
    }
}

/// The code carried by the `&`-separated segments of `s[lo, hi)`: the first
/// segment starting with `code=`, its repeated prefix removed.
pub open spec fn find_code_in(s: Seq<char>, lo: int, hi: int) -> Option<Seq<char>>
    decreases hi - lo,
        when 0 <= lo <= hi <= s.len()
        via find_code_in_dec
{
    let e = match find_char_to(s, '&', lo, hi) {
        Some(x) => x,
        None => hi,
    };
    let seg = s.subrange(lo, e);
    if starts_code(seg) {
        Some(strip_code(seg))
    } else if e >= hi {
        None
    } else {
        find_code_in(s, e + 1, hi)
    }
}

#[via_fn]
proof fn find_code_in_dec(s: Seq<char>, lo: int, hi: int) {
    lemma_find_char_bounds(s, '&', lo, hi);
}

/// What `extract_auth_code` returns: in the request's first line, the second
/// whitespace-separated token is the path; the code is the first `code=`
/// segment of the query between the path's first `?` and its next `?`, with
/// the repeated `code=` prefix removed. Nothing otherwise.
pub open spec fn extract_code_spec(s: Seq<char>) -> Option<Seq<char>> {
    let eol = match find_char_to(s, '\n', 0, s.len() as int) {
        Some(x) => x,
        None => s.len() as int,
    };
    let b0 = skip_spaces_to(s, 0, eol);
    let e0 = token_end_to(s, b0, eol);
    let b1 = skip_spaces_to(s, e0, eol);
    let e1 = token_end_to(s, b1, eol);
    if b1 >= eol {
        None
    } else {
        match find_char_to(s, '?', b1, e1) {
            None => None,
            Some(q) => {
                let q2 = match find_char_to(s, '?', q + 1, e1) {
                    Some(x) => x,
                    None => e1,
                };
                find_code_in(s, q + 1, q2)
            },
        }
    }
}

/// Find the first position in `[from, to)` of the request holding `c`.
#[verifier::loop_isolation(false)]
fn find_char_exec(s: &str, from: usize, to: usize, c: char) -> (r: Option<usize>)
    requires
        from <= to <= s@.len(),
    ensures
        match r {
            Some(x) => from <= x < to && find_char_to(s@, c, from as int, to as int)
                == Some(x as int),
            None => find_char_to(s@, c, from as int, to as int) is None,
        },
{
    let mut k: usize = from;
    while k < to
        invariant
            from <= k <= to,
            find_char_to(s@, c, from as int, to as int)
                == find_char_to(s@, c, k as int, to as int),
        decreases to - k,
    {
        if s.get_char(k) == c {
            return Some(k);
        }
        k = k + 1;
    }
    None
}

#[verifier::loop_isolation(false)]
fn skip_spaces_exec(s: &str, from: usize, to: usize) -> (r: usize)
    requires
        from <= to <= s@.len(),
    ensures
        from <= r <= to,
        r as int == skip_spaces_to(s@, from as int, to as int),
{
    let mut k: usize = from;
    while k < to
        invariant
            from <= k <= to,
            skip_spaces_to(s@, from as int, to as int)
                == skip_spaces_to(s@, k as int, to as int),
        decreases to - k,
    {
        let c = s.get_char(k);
        if !(c == ' ' || c == '\t' || c == '\n' || c == '\r') {
            return k;
        }
        k = k + 1;
    }
    to
}

#[verifier::loop_isolation(false)]
fn token_end_exec(s: &str, from: usize, to: usize) -> (r: usize)
    requires
        from <= to <= s@.len(),
    ensures
        from <= r <= to,
        r as int == token_end_to(s@, from as int, to as int),
{
    let mut k: usize = from;
    while k < to
        invariant
            from <= k <= to,
            token_end_to(s@, from as int, to as int)
                == token_end_to(s@, k as int, to as int),
        decreases to - k,
    {
        let c = s.get_char(k);
        if c == ' ' || c == '\t' || c == '\n' || c == '\r' {
            return k;
        }
        k = k + 1;
    }
    to
}

/// Whether `s[lo, e)` starts with `code=`.
fn starts_code_exec(s: &str, lo: usize, e: usize) -> (r: bool)
    requires
        lo <= e <= s@.len(),
    ensures
        r == starts_code(s@.subrange(lo as int, e as int)),
{
    proof {
        reveal_strlit("code=");
    }
    let ghost seg = s@.subrange(lo as int, e as int);
    if e - lo < 5 {
        return false;
    }
    let ok = s.get_char(lo) == 'c' && s.get_char(lo + 1) == 'o' && s.get_char(lo + 2) == 'd'
        && s.get_char(lo + 3) == 'e' && s.get_char(lo + 4) == '=';
    if ok {
        assert(seg.take(5) =~= "code="@);
    } else {
        assert(seg.take(5) != "code="@) by {
            if seg.take(5) == "code="@ {
                assert(seg.take(5)[0] == s@[lo as int]);
                assert(seg.take(5)[1] == s@[lo as int + 1]);
                assert(seg.take(5)[2] == s@[lo as int + 2]);
                assert(seg.take(5)[3] == s@[lo as int + 3]);
                assert(seg.take(5)[4] == s@[lo as int + 4]);
            }
        }
    }
    ok
}

/// Extract the authorization code from the loopback callback request.
#[verifier::loop_isolation(false)]
pub fn extract_auth_code(req: &str) -> (r: Option<String>)
    ensures
        match r {
            Some(code) => extract_code_spec(req@) == Some(code@),
            None => extract_code_spec(req@) is None,
        },
{
    let n = req.unicode_len();
    let eol = match find_char_exec(req, 0, n, '\n') {
        Some(x) => x,
        None => n,
    };
    let b0 = skip_spaces_exec(req, 0, eol);
    let e0 = token_end_exec(req, b0, eol);
    let b1 = skip_spaces_exec(req, e0, eol);
    let e1 = token_end_exec(req, b1, eol);
    if b1 >= eol {
        return None;
    }
    let q = match find_char_exec(req, b1, e1, '?') {
        Some(x) => x,
        None => {
            return None;
        },
    };
    let q2 = match find_char_exec(req, q + 1, e1, '?') {
        Some(x) => x,
        None => e1,
    };

    // Walk the `&`-separated segments of [q + 1, q2).
    let mut lo: usize = q + 1;
    loop
        invariant
            q + 1 <= lo <= q2 <= n == req@.len(),
            find_code_in(req@, q + 1, q2 as int) == find_code_in(req@, lo as int, q2 as int),
        decreases q2 - lo,
    {
        let e = match find_char_exec(req, lo, q2, '&') {
            Some(x) => x,
            None => q2,
        };
        if starts_code_exec(req, lo, e) {
            // Strip the repeated `code=` prefix.
            let mut lo2: usize = lo;
            while starts_code_exec(req, lo2, e)
                invariant
                    lo <= lo2 <= e <= n,
                    strip_code(req@.subrange(lo as int, e as int))
                        == strip_code(req@.subrange(lo2 as int, e as int)),
                decreases e - lo2,
            {
                proof {
                    assert(req@.subrange(lo2 as int, e as int).skip(5)
                        =~= req@.subrange(lo2 as int + 5, e as int));
                }
                lo2 = lo2 + 5;
            }
            let code = req.substring_char(lo2, e).to_owned();
            return Some(code);
        }
        if e >= q2 {
            return None;
        }
        lo = e + 1;
    }
}

} // verus!
