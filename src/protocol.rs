use vstd::prelude::*;

verus! {

/// The HTTP version that a connection's first bytes announce.
#[derive(Clone, Copy, Debug, PartialEq, Eq, Structural)]
pub enum HttpVersion {
    Http1,
    H2,
}

/// What the accept loop knows of a connection before any byte is read.
#[derive(Clone, Copy, Debug, PartialEq, Eq, Structural)]
pub struct AcceptMeta {
    /// The port of the destination address that the client dialled.
    pub target_port: u16,
}

/// The outcome of detection for one connection.
#[derive(Clone, Copy, Debug, PartialEq, Eq, Structural)]
pub struct Protocol {
    pub http: Option<HttpVersion>,
    pub tls: AcceptMeta,
}

/// The fixed HTTP/2 connection preface, `PRI * HTTP/2.0\r\n\r\nSM\r\n\r\n`.
pub open spec fn h2_preface() -> Seq<u8> {
    seq![
        0x50u8, 0x52u8, 0x49u8, 0x20u8, 0x2au8, 0x20u8, 0x48u8, 0x54u8, 0x54u8, 0x50u8, 0x2fu8,
        0x32u8, 0x2eu8, 0x30u8, 0x0du8, 0x0au8, 0x0du8, 0x0au8, 0x53u8, 0x4du8, 0x0du8, 0x0au8,
        0x0du8, 0x0au8,
    ]
}

/// The version part of an HTTP/1 request line up to its last digit, `HTTP/1.`.
pub open spec fn http1_version_head() -> Seq<u8> {
    seq![0x48u8, 0x54u8, 0x54u8, 0x50u8, 0x2fu8, 0x31u8, 0x2eu8]
}

/// A byte that may stand in a method token.
pub open spec fn is_tchar(b: u8) -> bool {
    (0x30 <= b <= 0x39) || (0x41 <= b <= 0x5a) || (0x61 <= b <= 0x7a) || b == 0x21 || b == 0x23
        || b == 0x24 || b == 0x25 || b == 0x26 || b == 0x27 || b == 0x2a || b == 0x2b || b == 0x2d
        || b == 0x2e || b == 0x5e || b == 0x5f || b == 0x60 || b == 0x7c || b == 0x7e
}

/// A visible byte other than space, as in a request target.
pub open spec fn is_vchar(b: u8) -> bool {
    0x21 <= b <= 0x7e
}

/// The number of method-token bytes that start at `i`.
pub open spec fn tchar_run(s: Seq<u8>, i: int) -> nat
    decreases s.len() - i,
{
    if 0 <= i < s.len() && is_tchar(s[i]) {
        1 + tchar_run(s, i + 1)
    } else {
        0
    }
}

/// The number of visible bytes that start at `i`.
pub open spec fn vchar_run(s: Seq<u8>, i: int) -> nat
    decreases s.len() - i,
{
    if 0 <= i < s.len() && is_vchar(s[i]) {
        1 + vchar_run(s, i + 1)
    } else {
        0
    }
}

/// From `q` on, `s` holds `HTTP/1.` and a digit, then a line end, or a prefix of them.
pub open spec fn version_ok(s: Seq<u8>, q: int) -> bool {
    &&& forall|k: int| 0 <= k < 7 && q + k < s.len() ==> s[q + k] == #[trigger] http1_version_head()[k]
    &&& q + 7 < s.len() ==> 0x30 <= s[q + 7] <= 0x39
    &&& q + 8 < s.len() ==> (s[q + 8] == 0x0a || (s[q + 8] == 0x0d && (q + 9 < s.len() ==> s[q
        + 9] == 0x0a)))
}

/// `s` is a non-empty prefix of an HTTP/1 request line (method, space, target,
/// space, version, line end), or such a line followed by anything.
pub open spec fn looks_like_http1(s: Seq<u8>) -> bool {
    let m = tchar_run(s, 0) as int;
    let p = m + 1;
    let t = vchar_run(s, p) as int;
    &&& s.len() > 0
    &&& m >= 1
    &&& m < s.len() ==> {
        &&& s[m] == 0x20
        &&& p + t < s.len() ==> (t >= 1 && s[p + t] == 0x20 && version_ok(s, p + t + 1))
    }
}

/// `s` starts with the whole HTTP/2 connection preface.
pub open spec fn starts_with_h2_preface(s: Seq<u8>) -> bool {
    s.len() >= h2_preface().len() && s.subrange(0, h2_preface().len() as int) == h2_preface()
}

/// The protocol that a connection's first bytes announce.
pub open spec fn classify(s: Seq<u8>) -> Option<HttpVersion> {
    if starts_with_h2_preface(s) {
        Some(HttpVersion::H2)
    } else if looks_like_http1(s) {
        Some(HttpVersion::Http1)
    } else {
        None
    }
}

fn is_token_byte(b: u8) -> (r: bool)
    ensures
        r == is_tchar(b),
{
    (0x30 <= b && b <= 0x39) || (0x41 <= b && b <= 0x5a) || (0x61 <= b && b <= 0x7a) || b == 0x21
        || b == 0x23 || b == 0x24 || b == 0x25 || b == 0x26 || b == 0x27 || b == 0x2a || b == 0x2b
        || b == 0x2d || b == 0x2e || b == 0x5e || b == 0x5f || b == 0x60 || b == 0x7c || b == 0x7e
}

fn token_run(s: &[u8], i: usize) -> (r: usize)
    requires
        i <= s@.len(),
    ensures
        r == tchar_run(s@, i as int),
        i + r <= s@.len(),
{
    let mut j: usize = i;
    while j < s.len() && is_token_byte(s[j])
        invariant
            i <= j <= s@.len(),
            tchar_run(s@, i as int) == (j - i) + tchar_run(s@, j as int),
        decreases s@.len() - j,
    {
        j = j + 1;
    }
    j - i
}

fn visible_run(s: &[u8], i: usize) -> (r: usize)
    requires
        i <= s@.len(),
    ensures
        r == vchar_run(s@, i as int),
        i + r <= s@.len(),
{
    let mut j: usize = i;
    while j < s.len() && 0x21 <= s[j] && s[j] <= 0x7e
        invariant
            i <= j <= s@.len(),
            vchar_run(s@, i as int) == (j - i) + vchar_run(s@, j as int),
        decreases s@.len() - j,
    {
        j = j + 1;
    }
    j - i
}

fn version_matches(s: &[u8], q: usize) -> (r: bool)
    requires
        q <= s@.len(),
    ensures
        r == version_ok(s@, q as int),
{
    let head: [u8; 7] = [0x48, 0x54, 0x54, 0x50, 0x2f, 0x31, 0x2e];
    assert(head@ == http1_version_head());
    let rem: usize = s.len() - q;
    let mut k: usize = 0;
    while k < 7 && k < rem
        invariant
            k <= 7,
            q <= s@.len(),
            rem == s@.len() - q,
            q + rem <= usize::MAX,
            head@ == http1_version_head(),
            forall|x: int| 0 <= x < k ==> s@[q + x] == #[trigger] http1_version_head()[x],
        decreases 7 - k,
    {
        if s[q + k] != head[k] {
            return false;
        }
        k = k + 1;
    }
    if 7 < rem && !(0x30 <= s[q + 7] && s[q + 7] <= 0x39) {
        return false;
    }
    if 8 < rem {
        let b = s[q + 8];
        if b == 0x0a {
            return true;
        }
        return b == 0x0d && (9 >= rem || s[q + 9] == 0x0a);
    }
    true
}

impl HttpVersion {
    /// Classifies the first bytes of a connection: the HTTP/2 preface gives
    /// `H2`, the shape of an HTTP/1 request line gives `Http1`, anything else
    /// gives `None`.
    pub fn from_prefix(bytes: &[u8]) -> (r: Option<HttpVersion>)
        ensures
            r == classify(bytes@),
    {
        let preface: [u8; 24] = [
            0x50, 0x52, 0x49, 0x20, 0x2a, 0x20, 0x48, 0x54, 0x54, 0x50, 0x2f, 0x32, 0x2e, 0x30,
            0x0d, 0x0a, 0x0d, 0x0a, 0x53, 0x4d, 0x0d, 0x0a, 0x0d, 0x0a,
        ];
        assert(preface@ == h2_preface());
        if bytes.len() >= 24 {
            let mut k: usize = 0;
            let mut same = true;
            while k < 24
                invariant
                    k <= 24,
                    bytes@.len() >= 24,
                    preface@ == h2_preface(),
                    same == (forall|x: int| 0 <= x < k ==> bytes@[x] == #[trigger] h2_preface()[x]),
                decreases 24 - k,
            {
                same = same && bytes[k] == preface[k];
                k = k + 1;
            }
            if same {
                assert(bytes@.subrange(0, 24) =~= h2_preface());
                return Some(HttpVersion::H2);
            }
            assert(!starts_with_h2_preface(bytes@)) by {
                if starts_with_h2_preface(bytes@) {
                    assert forall|x: int| 0 <= x < 24 implies bytes@[x] == #[trigger] h2_preface()[x] by {
                        assert(bytes@.subrange(0, 24)[x] == bytes@[x]);
                    }
                }
            }
        }
        if Self::http1_shaped(bytes) {
            Some(HttpVersion::Http1)
        } else {
            None
        }
    }

    fn http1_shaped(s: &[u8]) -> (r: bool)
        ensures
            r == looks_like_http1(s@),
    {
        if s.len() == 0 {
            return false;
        }
        let m = token_run(s, 0);
        if m == 0 {
            return false;
        }
        if m == s.len() {
            return true;
        }
        if s[m] != 0x20 {
            return false;
        }
        let p = m + 1;
        let t = visible_run(s, p);
        if p + t == s.len() {
            return true;
        }
        if t == 0 || s[p + t] != 0x20 {
            return false;
        }
        version_matches(s, p + t + 1)
    }
}

} // verus!
