//! Classification of a download response body.
//!
//! The asset host answers a download either with the binary asset
//! itself, or with a small XML indirection document whose root element
//! is `roblox` and whose `url` element names the canonical asset id.
//! The scanner decides which of the two arrived: bytes that do not look
//! like such a document are handed back unchanged; a document with the
//! `roblox` root yields the id found after the asset-url marker inside
//! its `url` element.

use vstd::prelude::*;
use vstd::string::StringSliceAdditionalSpecFns;

verus! {

/// Whitespace as XML knows it.
pub open spec fn spec_is_ws(b: u8) -> bool {
    b == 32 || b == 9 || b == 13 || b == 10
}

/// An ASCII letter, as an element name starts with one.
pub open spec fn spec_is_letter(b: u8) -> bool {
    (65 <= b && b <= 90) || (97 <= b && b <= 122)
}

/// What may follow an element name: whitespace, `>`, or `/`.
pub open spec fn spec_is_name_end(b: u8) -> bool {
    spec_is_ws(b) || b == 62 || b == 47
}

/// The first position at or after `from` that is not whitespace.
pub open spec fn spec_skip_ws(s: Seq<u8>, from: int) -> int
    recommends
        0 <= from <= s.len(),
    decreases s.len() - from,
{
    if from < 0 || from >= s.len() {
        from
    } else if spec_is_ws(s[from]) {
        spec_skip_ws(s, from + 1)
    } else {
        from
    }
}

/// Whether `pat` occurs in `s` at position `i`.
pub open spec fn spec_match_bytes_at(s: Seq<u8>, pat: Seq<u8>, i: int) -> bool {
    0 <= i && i + pat.len() <= s.len() && forall|k: int|
        0 <= k < pat.len() ==> s[i + k] == #[trigger] pat[k]
}

/// The first position at or after `from` where `pat` occurs in `s`.
pub open spec fn spec_find_bytes(s: Seq<u8>, pat: Seq<u8>, from: int) -> Option<int>
    recommends
        0 <= from,
    decreases s.len() - from,
{
    if from + pat.len() > s.len() || from < 0 {
        None
    } else if spec_match_bytes_at(s, pat, from) {
        Some(from)
    } else {
        spec_find_bytes(s, pat, from + 1)
    }
}

/// Whether every byte of the sequence is a decimal digit.
pub open spec fn spec_all_digit_bytes(s: Seq<u8>) -> bool {
    forall|i: int| 0 <= i < s.len() ==> 48 <= #[trigger] s[i] && s[i] <= 57
}

/// The value of a sequence of decimal digit bytes (empty reads as zero).
pub open spec fn spec_dec_val_bytes(s: Seq<u8>) -> nat
    decreases s.len(),
{
    if s.len() == 0 {
        0
    } else {
        spec_dec_val_bytes(s.drop_last()) * 10 + (s.last() - 48) as nat
    }
}

/// Where the root element of the document would start: after leading
/// whitespace and an optional `<?...?>` prolog. `None` when the prolog
/// never closes.
pub open spec fn spec_root_pos(s: Seq<u8>) -> Option<int> {
    let i0 = spec_skip_ws(s, 0);
    if spec_match_bytes_at(s, "<?".spec_bytes(), i0) {
        match spec_find_bytes(s, "?>".spec_bytes(), i0) {
            None => None,
            Some(j) => Some(spec_skip_ws(s, j + "?>".spec_bytes().len())),
        }
    } else {
        Some(i0)
    }
}

/// How a download response body reads.
#[derive(Clone, Copy, PartialEq, Eq, Structural, Debug)]
pub enum XmlClass {
    /// Not the indirection document: the body is the asset itself.
    NotXml,
    /// An XML document, but not the known indirection shape.
    BadDoc,
    /// The indirection document, with an id that is not a number.
    BadId,
    /// The indirection document naming this canonical asset id.
    Indirect(u64),
}

/// What the indirection document's `url` element yields once the root
/// was recognized at `i1`.
pub open spec fn spec_classify_url(s: Seq<u8>, i1: int) -> XmlClass {
    match spec_find_bytes(s, "<url>".spec_bytes(), i1) {
        None => XmlClass::BadDoc,
        Some(u0) => {
            let c0 = u0 + "<url>".spec_bytes().len();
            match spec_find_bytes(s, "</url>".spec_bytes(), c0) {
                None => XmlClass::BadDoc,
                Some(u1) => {
                    let content = s.subrange(c0, u1);
                    match spec_find_bytes(
                        content,
                        "http://www.roblox.com/asset/?id=".spec_bytes(),
                        0,
                    ) {
                        None => XmlClass::BadDoc,
                        Some(m0) => {
                            let digits = content.skip(
                                m0 + "http://www.roblox.com/asset/?id=".spec_bytes().len(),
                            );
                            if digits.len() > 0 && spec_all_digit_bytes(digits)
                                && spec_dec_val_bytes(digits) <= u64::MAX {
                                XmlClass::Indirect(spec_dec_val_bytes(digits) as u64)
                            } else {
                                XmlClass::BadId
                            }
                        },
                    }
                },
            }
        },
    }
}

/// How the whole body reads: the indirection document when the `roblox`
/// root is present, some other document when another element opens the
/// body, and plain bytes otherwise.
pub open spec fn spec_classify_download(s: Seq<u8>) -> XmlClass {
    match spec_root_pos(s) {
        None => XmlClass::NotXml,
        Some(i1) => {
            let rootlen = "<roblox".spec_bytes().len();
            if spec_match_bytes_at(s, "<roblox".spec_bytes(), i1) && i1 + rootlen < s.len()
                && spec_is_name_end(s[i1 + rootlen]) {
                spec_classify_url(s, i1)
            } else if i1 + 1 < s.len() && s[i1] == 60 && spec_is_letter(s[i1 + 1]) {
                XmlClass::BadDoc
            } else {
                XmlClass::NotXml
            }
        },
    }
}

/// The bytes of an ASCII pattern literal.
fn pat_bytes(p: &str) -> (r: Vec<u8>)
    ensures
        r@ == p.spec_bytes(),
{
    p.as_bytes_vec()
}

/// The first non-whitespace position at or after `from`.
fn skip_ws(v: &Vec<u8>, from: usize) -> (r: usize)
    requires
        from <= v@.len(),
    ensures
        r == spec_skip_ws(v@, from as int),
        from <= r <= v@.len(),
{
    let n = v.len();
    let mut i = from;
    while i < n && (v[i] == 32 || v[i] == 9 || v[i] == 13 || v[i] == 10)
        invariant
            n == v@.len(),
            from <= i <= n,
            spec_skip_ws(v@, from as int) == spec_skip_ws(v@, i as int),
        decreases n - i,
    {
        i = i + 1;
    }
    i
}

/// Whether `pat` occurs in `v` at position `at`.
fn match_bytes_at(v: &Vec<u8>, pat: &Vec<u8>, at: usize) -> (r: bool)
    ensures
        r == spec_match_bytes_at(v@, pat@, at as int),
{
    let n = v.len();
    let m = pat.len();
    if at > n || m > n - at {
        return false;
    }
    let mut k: usize = 0;
    while k < m
        invariant
            n == v@.len(),
            m == pat@.len(),
            at + m <= n,
            0 <= k <= m,
            forall|j: int| 0 <= j < k ==> v@[at + j] == #[trigger] pat@[j],
        decreases m - k,
    {
        if v[at + k] != pat[k] {
            return false;
        }
        k = k + 1;
    }
    true
}

/// The first occurrence of `pat` in `v` at or after `from`.
fn find_bytes(v: &Vec<u8>, pat: &Vec<u8>, from: usize) -> (r: Option<usize>)
    ensures
        r is Some <==> spec_find_bytes(v@, pat@, from as int) is Some,
        r matches Some(i) ==> spec_find_bytes(v@, pat@, from as int) == Some(i as int) && from <= i
            && i + pat@.len() <= v@.len(),
{
    let n = v.len();
    let m = pat.len();
    if from > n || m > n - from {
        return None;
    }
    let mut i = from;
    while i <= n - m
        invariant
            n == v@.len(),
            m == pat@.len(),
            m <= n,
            from <= i,
            i <= n - m + 1,
            spec_find_bytes(v@, pat@, from as int) == spec_find_bytes(v@, pat@, i as int),
        decreases n + 1 - m - i,
    {
        if match_bytes_at(v, pat, i) {
            return Some(i);
        }
        i = i + 1;
    }
    None
}

/// Parses the decimal digits in `v[from..to]` as a `u64`.
///
/// `Some` exactly when the range is nonempty, all digits, and the value
/// fits.
fn parse_u64_bytes(v: &Vec<u8>, from: usize, to: usize) -> (r: Option<u64>)
    requires
        from <= to <= v@.len(),
    ensures
        ({
            let digits = v@.subrange(from as int, to as int);
            &&& (r is Some <==> (digits.len() > 0 && spec_all_digit_bytes(digits)
                && spec_dec_val_bytes(digits) <= u64::MAX))
            &&& (r matches Some(x) ==> x == spec_dec_val_bytes(digits))
        }),
{
    let ghost digits = v@.subrange(from as int, to as int);
    if from == to {
        return None;
    }
    let mut acc: u64 = 0;
    let mut i = from;
    while i < to
        invariant
            from <= i <= to <= v@.len(),
            digits == v@.subrange(from as int, to as int),
            spec_all_digit_bytes(digits.take(i - from)),
            acc == spec_dec_val_bytes(digits.take(i - from)),
        decreases to - i,
    {
        let b = v[i];
        proof {
            assert(digits[i - from] == v@[i as int]);
        }
        if b < 48 || b > 57 {
            return None;
        }
        let d: u64 = (b - 48) as u64;
        proof {
            assert(digits.take(i - from + 1).drop_last() =~= digits.take(i - from));
            assert(digits.take(i - from + 1).last() == digits[i - from]);
        }
        if acc > (u64::MAX - d) / 10 {
            proof {
                assert(spec_dec_val_bytes(digits.take(i - from + 1)) == acc * 10 + d);
                assert(acc * 10 + d > u64::MAX) by (nonlinear_arith)
                    requires
                        acc > (u64::MAX - d) / 10,
                        d < 10,
                ;
                if spec_all_digit_bytes(digits) {
                    lemma_dec_val_bytes_prefix(digits, i - from + 1);
                }
            }
            return None;
        }
        acc = acc * 10 + d;
        i = i + 1;
    }
    proof {
        assert(digits.take(to - from) =~= digits);
    }
    Some(acc)
}

/// The value of a digit-byte string never falls when more digits follow.
proof fn lemma_dec_val_bytes_prefix(s: Seq<u8>, i: int)
    requires
        spec_all_digit_bytes(s),
        0 <= i <= s.len(),
    ensures
        spec_dec_val_bytes(s.take(i)) <= spec_dec_val_bytes(s),
    decreases s.len() - i,
{
    if i < s.len() {
        assert(s.take(i + 1).drop_last() =~= s.take(i));
        assert(s.take(i + 1).last() == s[i]);
        lemma_dec_val_bytes_prefix(s, i + 1);
    } else {
        assert(s.take(i) =~= s);
    }
}

/// Classifies a download response body, executable form.
pub fn classify_download(v: &Vec<u8>) -> (r: XmlClass)
    ensures
        r == spec_classify_download(v@),
{
    let total = v.len();
    proof {
        assert(total == v@.len());
    }
    let prolog_open = pat_bytes("<?");
    let prolog_close = pat_bytes("?>");
    let i0 = skip_ws(v, 0);
    let i1 = if match_bytes_at(v, &prolog_open, i0) {
        match find_bytes(v, &prolog_close, i0) {
            None => {
                return XmlClass::NotXml;
            },
            Some(j) => {
                proof {
                    assert(j + prolog_close@.len() <= v@.len());
                }
                skip_ws(v, j + prolog_close.len())
            },
        }
    } else {
        i0
    };
    proof {
        assert(spec_root_pos(v@) == Some(i1 as int));
    }
    let root = pat_bytes("<roblox");
    let rootlen = root.len();
    if match_bytes_at(v, &root, i1) && rootlen < v.len() - i1 && {
        let b = v[i1 + rootlen];
        b == 32 || b == 9 || b == 13 || b == 10 || b == 62 || b == 47
    } {
        classify_url(v, i1)
    } else if i1 < v.len() && v.len() - i1 > 1 && v[i1] == 60 && {
        let c = v[i1 + 1];
        (65 <= c && c <= 90) || (97 <= c && c <= 122)
    } {
        XmlClass::BadDoc
    } else {
        XmlClass::NotXml
    }
}

/// Classifies the `url` element of a recognized indirection document.
fn classify_url(v: &Vec<u8>, i1: usize) -> (r: XmlClass)
    ensures
        r == spec_classify_url(v@, i1 as int),
{
    let total = v.len();
    proof {
        assert(total == v@.len());
    }
    let url_open = pat_bytes("<url>");
    let url_close = pat_bytes("</url>");
    let marker = pat_bytes("http://www.roblox.com/asset/?id=");
    let u0 = match find_bytes(v, &url_open, i1) {
        None => {
            return XmlClass::BadDoc;
        },
        Some(u0) => u0,
    };
    proof {
        assert(u0 + url_open@.len() <= v@.len());
    }
    let c0 = u0 + url_open.len();
    let u1 = match find_bytes(v, &url_close, c0) {
        None => {
            return XmlClass::BadDoc;
        },
        Some(u1) => u1,
    };
    let ghost content = v@.subrange(c0 as int, u1 as int);
    let content_vec = copy_range(v, c0, u1);
    let m0 = match find_bytes(&content_vec, &marker, 0) {
        None => {
            return XmlClass::BadDoc;
        },
        Some(m0) => m0,
    };
    let d0 = m0 + marker.len();
    proof {
        assert(content.skip(d0 as int) =~= content.subrange(d0 as int, content.len() as int));
    }
    match parse_u64_bytes(&content_vec, d0, content_vec.len()) {
        Some(x) => XmlClass::Indirect(x),
        None => XmlClass::BadId,
    }
}

/// A fresh copy of `v[from..to]`.
fn copy_range(v: &Vec<u8>, from: usize, to: usize) -> (r: Vec<u8>)
    requires
        from <= to <= v@.len(),
    ensures
        r@ == v@.subrange(from as int, to as int),
{
    let mut out: Vec<u8> = Vec::new();
    let mut i = from;
    while i < to
        invariant
            from <= i <= to <= v@.len(),
            out@ =~= v@.subrange(from as int, i as int),
        decreases to - i,
    {
        out.push(v[i]);
        proof {
            assert(out@ =~= v@.subrange(from as int, i + 1));
        }
        i = i + 1;
    }
    proof {
        assert(out@ =~= v@.subrange(from as int, to as int));
    }
    out
}

} // verus!
