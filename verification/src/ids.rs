//! Identifier types for simulcast layers, media streams and payload types.
//!
//! A layer identifier (RID, RFC 8852) is an ASCII label of at most eight
//! bytes, stored space-padded to eight bytes exactly as the WebRTC engine
//! stores it; a media stream identifier (MID) is the same with sixteen bytes.
use vstd::prelude::*;
use vstd::std_specs::iter::IteratorSpec;
use vstd::string::StringSliceAdditionalSpecFns;

verus! {

/// Whether `b` is an ASCII letter or digit.
pub open spec fn is_alnum(b: u8) -> bool {
    (48 <= b <= 57) || (65 <= b <= 90) || (97 <= b <= 122)
}

/// Whether `b` is ASCII whitespace in the sense of `char::is_whitespace`.
pub open spec fn is_ws(b: u8) -> bool {
    b == 32 || (9 <= b <= 13)
}

/// A label a layer identifier may be parsed from: 1 to 8 ASCII letters or digits.
pub open spec fn valid_rid_label(s: Seq<u8>) -> bool {
    &&& 1 <= s.len() <= 8
    &&& forall|i: int| 0 <= i < s.len() ==> is_alnum(#[trigger] s[i])
}

/// `s` cut to `n` bytes and padded with spaces up to `n` bytes.
pub open spec fn padded(s: Seq<u8>, n: nat) -> Seq<u8> {
    Seq::new(n, |i: int| if i < s.len() { s[i] } else { 32u8 })
}

/// Whether `c` is an ASCII letter or digit.
pub open spec fn is_alnum_char(c: char) -> bool {
    (48 <= c as int <= 57) || (65 <= c as int <= 90) || (97 <= c as int <= 122)
}

/// One byte per character: ASCII letters and digits are kept, every other
/// character (including any non-ASCII one) becomes `_`.
pub open spec fn mangled(s: Seq<char>) -> Seq<u8> {
    Seq::new(s.len(), |i: int| if is_alnum_char(s[i]) { s[i] as u8 } else { 95u8 })
}

/// `s` without its leading whitespace.
pub open spec fn trim_start(s: Seq<u8>) -> Seq<u8>
    decreases s.len(),
{
    if s.len() > 0 && is_ws(s[0]) {
        trim_start(s.drop_first())
    } else {
        s
    }
}

/// `s` without its trailing whitespace.
pub open spec fn trim_end(s: Seq<u8>) -> Seq<u8>
    decreases s.len(),
{
    if s.len() > 0 && is_ws(s.last()) {
        trim_end(s.drop_last())
    } else {
        s
    }
}

/// `s` without leading and trailing whitespace.
pub open spec fn trimmed(s: Seq<u8>) -> Seq<u8> {
    trim_end(trim_start(s))
}

/// The eight bytes of `code`, most significant first.
pub open spec fn code_bytes(code: u64) -> Seq<u8> {
    seq![
        ((code >> 56u64) & 0xffu64) as u8,
        ((code >> 48u64) & 0xffu64) as u8,
        ((code >> 40u64) & 0xffu64) as u8,
        ((code >> 32u64) & 0xffu64) as u8,
        ((code >> 24u64) & 0xffu64) as u8,
        ((code >> 16u64) & 0xffu64) as u8,
        ((code >> 8u64) & 0xffu64) as u8,
        (code & 0xffu64) as u8,
    ]
}

/// Simulcast layer identifier (RFC 8852 RID).
///
/// Holds the space-padded eight-byte label, packed most significant byte first.
#[derive(Debug, Clone, Copy, PartialEq, Eq, Hash, Structural)]
pub struct SfuRid {
    code: u64,
}

/// Error returned when a string cannot be parsed as a [`SfuRid`].
#[derive(Debug, Clone, Copy, PartialEq, Eq, Structural)]
pub struct InvalidRid;

impl SfuRid {
    /// Every byte of the identifier is ASCII.
    #[verifier::type_invariant]
    spec fn ascii(self) -> bool {
        self.code & 0x8080808080808080u64 == 0
    }
}

/// A code whose bytes are all below 128 has no high bit set.
proof fn lemma_ascii_code(code: u64)
    ensures
        (code & 0x8080808080808080u64 == 0) <==> (forall|i: int|
            0 <= i < 8 ==> #[trigger] code_bytes(code)[i] < 128),
{
    let c = code;
    assert((c & 0x8080808080808080u64 == 0) <==> (
        ((((c >> 56u64) & 0xffu64) as u8) < 128u8)
        && ((((c >> 48u64) & 0xffu64) as u8) < 128u8)
        && ((((c >> 40u64) & 0xffu64) as u8) < 128u8)
        && ((((c >> 32u64) & 0xffu64) as u8) < 128u8)
        && ((((c >> 24u64) & 0xffu64) as u8) < 128u8)
        && ((((c >> 16u64) & 0xffu64) as u8) < 128u8)
        && ((((c >> 8u64) & 0xffu64) as u8) < 128u8)
        && (((c & 0xffu64) as u8) < 128u8))) by (bit_vector);
    let b = code_bytes(code);
    assert((forall|i: int| 0 <= i < 8 ==> #[trigger] b[i] < 128) <==> (b[0] < 128 && b[1] < 128
        && b[2] < 128 && b[3] < 128 && b[4] < 128 && b[5] < 128 && b[6] < 128 && b[7] < 128));
}

impl View for SfuRid {
    type V = Seq<u8>;

    /// The eight space-padded label bytes.
    closed spec fn view(&self) -> Seq<u8> {
        code_bytes(self.code)
    }
}

/// Two identifiers are equal exactly when their bytes are; the three
/// standard layers are `q`, `h` and `f`, padded, and pairwise distinct.
pub broadcast proof fn lemma_rid_view(a: SfuRid, b: SfuRid)
    ensures
        #![trigger a@, b@]
        (a == b) <==> (a@ == b@),
        SfuRid::spec_low()@ == padded(seq![113u8], 8),
        SfuRid::spec_medium()@ == padded(seq![104u8], 8),
        SfuRid::spec_high()@ == padded(seq![102u8], 8),
        SfuRid::spec_low() != SfuRid::spec_medium(),
        SfuRid::spec_low() != SfuRid::spec_high(),
        SfuRid::spec_medium() != SfuRid::spec_high(),
{
    assert(0x7120202020202020u64 == ((113u8 as u64) << 56u64) | 0x20202020202020u64) by (bit_vector);
    lemma_single_letter(0x7120202020202020u64, 113u8);
    assert(0x6820202020202020u64 == ((104u8 as u64) << 56u64) | 0x20202020202020u64) by (bit_vector);
    lemma_single_letter(0x6820202020202020u64, 104u8);
    assert(0x6620202020202020u64 == ((102u8 as u64) << 56u64) | 0x20202020202020u64) by (bit_vector);
    lemma_single_letter(0x6620202020202020u64, 102u8);
    if a@ == b@ {
        let (x, y) = (a.code, b.code);
        assert(code_bytes(x)[0] == code_bytes(y)[0] && code_bytes(x)[1] == code_bytes(y)[1]
            && code_bytes(x)[2] == code_bytes(y)[2] && code_bytes(x)[3] == code_bytes(y)[3]
            && code_bytes(x)[4] == code_bytes(y)[4] && code_bytes(x)[5] == code_bytes(y)[5]
            && code_bytes(x)[6] == code_bytes(y)[6] && code_bytes(x)[7] == code_bytes(y)[7]);
        assert(x == y) by (bit_vector)
            requires
                ((x >> 56u64) & 0xffu64) as u8 == ((y >> 56u64) & 0xffu64) as u8,
                ((x >> 48u64) & 0xffu64) as u8 == ((y >> 48u64) & 0xffu64) as u8,
                ((x >> 40u64) & 0xffu64) as u8 == ((y >> 40u64) & 0xffu64) as u8,
                ((x >> 32u64) & 0xffu64) as u8 == ((y >> 32u64) & 0xffu64) as u8,
                ((x >> 24u64) & 0xffu64) as u8 == ((y >> 24u64) & 0xffu64) as u8,
                ((x >> 16u64) & 0xffu64) as u8 == ((y >> 16u64) & 0xffu64) as u8,
                ((x >> 8u64) & 0xffu64) as u8 == ((y >> 8u64) & 0xffu64) as u8,
                (x & 0xffu64) as u8 == (y & 0xffu64) as u8,
        ;
    }
    assert(padded(seq![113u8], 8)[0] != padded(seq![104u8], 8)[0]);
    assert(padded(seq![113u8], 8)[0] != padded(seq![102u8], 8)[0]);
    assert(padded(seq![104u8], 8)[0] != padded(seq![102u8], 8)[0]);
}

/// The code of a one-letter label `c` followed by seven spaces.
proof fn lemma_single_letter(code: u64, c: u8)
    requires
        code == ((c as u64) << 56u64) | 0x20202020202020u64,
    ensures
        code_bytes(code) == padded(seq![c], 8),
{
    assert(((code >> 56u64) & 0xffu64) as u8 == c && ((code >> 48u64) & 0xffu64) as u8 == 32u8
        && ((code >> 40u64) & 0xffu64) as u8 == 32u8 && ((code >> 32u64) & 0xffu64) as u8 == 32u8
        && ((code >> 24u64) & 0xffu64) as u8 == 32u8 && ((code >> 16u64) & 0xffu64) as u8 == 32u8
        && ((code >> 8u64) & 0xffu64) as u8 == 32u8 && (code & 0xffu64) as u8 == 32u8)
        by (bit_vector)
        requires
            code == ((c as u64) << 56u64) | 0x20202020202020u64,
    ;
    assert(code_bytes(code) =~= padded(seq![c], 8));
}

/// Pack eight bytes, the first most significant.
fn pack8(a: &[u8; 8]) -> (code: u64)
    ensures
        code_bytes(code) == a@,
{
    let b0 = a[0];
    let b1 = a[1];
    let b2 = a[2];
    let b3 = a[3];
    let b4 = a[4];
    let b5 = a[5];
    let b6 = a[6];
    let b7 = a[7];
    let code: u64 = ((b0 as u64) << 56u64) | ((b1 as u64) << 48u64) | ((b2 as u64) << 40u64) | ((
    b3 as u64) << 32u64) | ((b4 as u64) << 24u64) | ((b5 as u64) << 16u64) | ((b6 as u64) << 8u64)
        | (b7 as u64);
    proof {
        assert(((code >> 56u64) & 0xffu64) as u8 == b0 && ((code >> 48u64) & 0xffu64) as u8 == b1
            && ((code >> 40u64) & 0xffu64) as u8 == b2 && ((code >> 32u64) & 0xffu64) as u8 == b3
            && ((code >> 24u64) & 0xffu64) as u8 == b4 && ((code >> 16u64) & 0xffu64) as u8 == b5
            && ((code >> 8u64) & 0xffu64) as u8 == b6 && (code & 0xffu64) as u8 == b7)
            by (bit_vector)
            requires
                code == ((b0 as u64) << 56u64) | ((b1 as u64) << 48u64) | ((b2 as u64) << 40u64)
                    | ((b3 as u64) << 32u64) | ((b4 as u64) << 24u64) | ((b5 as u64) << 16u64) | ((
                b6 as u64) << 8u64) | (b7 as u64),
        ;
        assert(code_bytes(code) =~= a@);
    }
    code
}

/// Unpack the eight bytes of a code, the first most significant.
fn unpack8(code: u64) -> (a: [u8; 8])
    ensures
        a@ == code_bytes(code),
{
    let a: [u8; 8] = [
        ((code >> 56u64) & 0xffu64) as u8,
        ((code >> 48u64) & 0xffu64) as u8,
        ((code >> 40u64) & 0xffu64) as u8,
        ((code >> 32u64) & 0xffu64) as u8,
        ((code >> 24u64) & 0xffu64) as u8,
        ((code >> 16u64) & 0xffu64) as u8,
        ((code >> 8u64) & 0xffu64) as u8,
        (code & 0xffu64) as u8,
    ];
    assert(a@ =~= code_bytes(code));
    a
}

/// A space-padded eight-byte array holding the first (at most eight) bytes of `s`.
fn padded_array(s: &[u8]) -> (a: [u8; 8])
    ensures
        a@ == padded(s@, 8),
{
    let mut a: [u8; 8] = [32u8, 32u8, 32u8, 32u8, 32u8, 32u8, 32u8, 32u8];
    let n = if s.len() < 8 { s.len() } else { 8 };
    let mut i: usize = 0;
    while i < n
        invariant
            n <= 8,
            n <= s@.len(),
            n == s@.len() || n == 8,
            i <= n,
            a@.len() == 8,
            forall|k: int| 0 <= k < i ==> a@[k] == s@[k],
            forall|k: int| i <= k < 8 ==> a@[k] == 32u8,
        decreases n - i,
    {
        a[i] = s[i];
        i = i + 1;
    }
    assert(a@ =~= padded(s@, 8));
    a
}

impl SfuRid {
    /// Low-resolution simulcast layer (`q`).
    pub closed spec fn spec_low() -> SfuRid {
        SfuRid { code: 0x7120202020202020u64 }
    }

    /// Mid-resolution simulcast layer (`h`).
    pub closed spec fn spec_medium() -> SfuRid {
        SfuRid { code: 0x6820202020202020u64 }
    }

    /// Full-resolution simulcast layer (`f`).
    pub closed spec fn spec_high() -> SfuRid {
        SfuRid { code: 0x6620202020202020u64 }
    }

    /// Low-resolution simulcast layer (`q`).
    #[verifier::when_used_as_spec(spec_low)]
    pub fn low() -> (r: SfuRid)
        ensures
            r == SfuRid::spec_low(),
    {
        assert(0x7120202020202020u64 & 0x8080808080808080u64 == 0) by (bit_vector);
        SfuRid { code: 0x7120202020202020u64 }
    }

    /// Mid-resolution simulcast layer (`h`).
    #[verifier::when_used_as_spec(spec_medium)]
    pub fn medium() -> (r: SfuRid)
        ensures
            r == SfuRid::spec_medium(),
    {
        assert(0x6820202020202020u64 & 0x8080808080808080u64 == 0) by (bit_vector);
        SfuRid { code: 0x6820202020202020u64 }
    }

    /// Full-resolution simulcast layer (`f`).
    #[verifier::when_used_as_spec(spec_high)]
    pub fn high() -> (r: SfuRid)
        ensures
            r == SfuRid::spec_high(),
    {
        assert(0x6620202020202020u64 & 0x8080808080808080u64 == 0) by (bit_vector);
        SfuRid { code: 0x6620202020202020u64 }
    }

    /// Parse a simulcast layer identifier from a string.
    ///
    /// Accepts ASCII alphanumeric strings of 1 to 8 bytes; rejects empty
    /// input, any byte outside `[A-Za-z0-9]`, and input longer than 8 bytes.
    pub fn from_str(s: &str) -> (r: Result<SfuRid, InvalidRid>)
        ensures
            r is Ok <==> valid_rid_label(s.spec_bytes()),
            r matches Ok(rid) ==> rid@ == padded(s.spec_bytes(), 8),
    {
        let bytes = s.as_bytes();
        if bytes.len() == 0 || bytes.len() > 8 {
            return Err(InvalidRid);
        }
        let mut i: usize = 0;
        while i < bytes.len()
            invariant
                bytes@ == s.spec_bytes(),
                1 <= bytes@.len() <= 8,
                i <= bytes@.len(),
                forall|k: int| 0 <= k < i ==> is_alnum(#[trigger] bytes@[k]),
            decreases bytes@.len() - i,
        {
            let b = bytes[i];
            if !((48 <= b && b <= 57) || (65 <= b && b <= 90) || (97 <= b && b <= 122)) {
                assert(s.spec_bytes()[i as int] == b);
                assert(!is_alnum(s.spec_bytes()[i as int]));
                return Err(InvalidRid);
            }
            i = i + 1;
        }
        let a = padded_array(bytes);
        let code = pack8(&a);
        proof {
            lemma_ascii_code(code);
        }
        Ok(SfuRid { code })
    }

    /// A layer identifier from any label, the way the WebRTC engine stores
    /// one: each character that is not an ASCII letter or digit becomes `_`, the
    /// result is cut to 8 bytes and padded with spaces.
    pub fn from_label(s: &str) -> (r: SfuRid)
        ensures
            r@ == padded(mangled(s@), 8),
    {
        let m = mangle_chars(s);
        let a = padded_array(m.as_slice());
        assert(a@ =~= padded(mangled(s@), 8));
        let code = pack8(&a);
        proof {
            lemma_ascii_code(code);
        }
        SfuRid { code }
    }

    /// The eight space-padded bytes of this identifier.
    pub fn to_array(&self) -> (a: [u8; 8])
        ensures
            a@ == self@,
    {
        unpack8(self.code)
    }

    /// The label of this identifier: its bytes without leading and trailing
    /// whitespace. The bytes must be ASCII.
    pub fn to_string(&self) -> (s: String)
        ensures
            s@ == trimmed(self@).map_values(|b: u8| b as char),
    {
        proof {
            use_type_invariant(self);
            lemma_ascii_code(self.code);
        }
        let a = unpack8(self.code);
        let v = trim_bytes(&a);
        ascii_string(v)
    }
}

/// `a` without leading and trailing whitespace.
fn trim_bytes(a: &[u8; 8]) -> (v: Vec<u8>)
    ensures
        v@ == trimmed(a@),
        forall|k: int| 0 <= k < v@.len() ==> exists|j: int| 0 <= j < 8 && #[trigger] v@[k] == a@[j],
{
    let mut start: usize = 0;
    assert(a@.subrange(0, 8) =~= a@);
    while start < 8 && (a[start] == 32 || (9 <= a[start] && a[start] <= 13))
        invariant
            start <= 8,
            trim_start(a@) == trim_start(a@.subrange(start as int, 8)),
        decreases 8 - start,
    {
        assert(a@.subrange(start as int, 8).drop_first() =~= a@.subrange(start + 1, 8));
        start = start + 1;
    }
    assert(trim_start(a@) == a@.subrange(start as int, 8));
    let mut end: usize = 8;
    while end > start && (a[end - 1] == 32 || (9 <= a[end - 1] && a[end - 1] <= 13))
        invariant
            start <= end <= 8,
            trim_end(a@.subrange(start as int, 8)) == trim_end(a@.subrange(start as int, end as int)),
        decreases end - start,
    {
        assert(a@.subrange(start as int, end as int).drop_last() =~= a@.subrange(
            start as int,
            end - 1,
        ));
        end = end - 1;
    }
    let mut v: Vec<u8> = Vec::new();
    let mut k: usize = start;
    while k < end
        invariant
            start <= k <= end <= 8,
            v@ == a@.subrange(start as int, k as int),
        decreases end - k,
    {
        v.push(a[k]);
        k = k + 1;
        assert(v@ =~= a@.subrange(start as int, k as int));
    }
    v
}

/// A `String` from ASCII bytes, via `std::string::String::from_utf8`.
///
/// Trusted: ASCII bytes are valid UTF-8, so `from_utf8` succeeds (the
/// `unwrap` never panics under the precondition), and each byte becomes the
/// character with that code.
#[verifier::external_body]
fn ascii_string(v: Vec<u8>) -> (s: String)
    requires
        forall|i: int| 0 <= i < v@.len() ==> #[trigger] v@[i] < 128,
    ensures
        s@ == v@.map_values(|b: u8| b as char),
{
    String::from_utf8(v).unwrap()
}

/// The characters of `s` mangled like an identifier label.
fn mangle_chars(s: &str) -> (v: Vec<u8>)
    ensures
        v@ == mangled(s@),
{
    let mut v: Vec<u8> = Vec::new();
    let mut chars = s.chars();
    loop
        invariant
            v@.len() <= s@.len(),
            chars.remaining() == s@.skip(v@.len() as int),
            v@ == mangled(s@.take(v@.len() as int)),
        ensures
            v@ == mangled(s@),
        decreases s@.len() - v@.len(),
    {
        let ghost before = v@.len() as int;
        match chars.next() {
            Some(c) => {
                assert(c == s@[before]);
                let b: u8 = if ('0' <= c && c <= '9') || ('A' <= c && c <= 'Z') || ('a' <= c && c <= 'z') {
                    c as u8
                } else {
                    95u8
                };
                v.push(b);
                assert(s@.skip(before).drop_first() =~= s@.skip(before + 1));
                assert(v@ =~= mangled(s@.take(before + 1)));
            },
            None => {
                assert(s@.take(before) =~= s@);
                break;
            },
        }
    }
    v
}

/// `s` cut to `n` bytes and padded with spaces up to `n` bytes.
fn padded_vec(s: &[u8], n: usize) -> (v: Vec<u8>)
    ensures
        v@ == padded(s@, n as nat),
{
    let mut v: Vec<u8> = Vec::new();
    let mut i: usize = 0;
    while i < n
        invariant
            i <= n,
            v@ == padded(s@, n as nat).subrange(0, i as int),
        decreases n - i,
    {
        if i < s.len() {
            v.push(s[i]);
        } else {
            v.push(32u8);
        }
        i = i + 1;
        assert(v@ =~= padded(s@, n as nat).subrange(0, i as int));
    }
    assert(v@ =~= padded(s@, n as nat));
    v
}

/// The code of the eight bytes of `v` starting at `off`.
fn pack_at(v: &Vec<u8>, off: usize) -> (code: u64)
    requires
        off + 8 <= v@.len(),
    ensures
        code_bytes(code) == v@.subrange(off as int, off + 8),
{
    let _n = v.len();
    let a: [u8; 8] = [
        v[off],
        v[off + 1],
        v[off + 2],
        v[off + 3],
        v[off + 4],
        v[off + 5],
        v[off + 6],
        v[off + 7],
    ];
    assert(a@ =~= v@.subrange(off as int, off + 8));
    pack8(&a)
}

/// Media stream identifier within a single peer connection.
///
/// Holds the sixteen space-padded label bytes as two big-endian halves, so
/// the derived order is the byte-wise (lexicographic) order of the label.
#[derive(Debug, Clone, Copy, PartialEq, Eq, Hash, PartialOrd, Ord, Structural)]
pub struct SfuMid {
    hi: u64,
    lo: u64,
}

impl View for SfuMid {
    type V = Seq<u8>;

    /// The sixteen space-padded label bytes.
    closed spec fn view(&self) -> Seq<u8> {
        code_bytes(self.hi) + code_bytes(self.lo)
    }
}

impl SfuMid {
    /// A media identifier from any label, the way the WebRTC engine stores
    /// one: each character that is not an ASCII letter or digit becomes `_`,
    /// the result is cut to 16 bytes and padded with spaces. Never fails.
    pub fn from_str(s: &str) -> (r: Result<SfuMid, core::convert::Infallible>)
        ensures
            r matches Ok(mid) && mid@ == padded(mangled(s@), 16),
    {
        let m = mangle_chars(s);
        let v = padded_vec(m.as_slice(), 16);
        let hi = pack_at(&v, 0);
        let lo = pack_at(&v, 8);
        let mid = SfuMid { hi, lo };
        assert(mid@ =~= padded(mangled(s@), 16));
        Ok(mid)
    }

    /// The sixteen space-padded bytes of this identifier.
    pub fn to_array(&self) -> (a: [u8; 16])
        ensures
            a@ == self@,
    {
        let h = unpack8(self.hi);
        let l = unpack8(self.lo);
        let a: [u8; 16] = [
            h[0],
            h[1],
            h[2],
            h[3],
            h[4],
            h[5],
            h[6],
            h[7],
            l[0],
            l[1],
            l[2],
            l[3],
            l[4],
            l[5],
            l[6],
            l[7],
        ];
        assert(a@ =~= self@);
        a
    }

    /// A media identifier from its sixteen space-padded bytes.
    pub fn from_array(a: [u8; 16]) -> (r: SfuMid)
        ensures
            r@ == a@,
    {
        let mut v: Vec<u8> = Vec::new();
        let mut i: usize = 0;
        while i < 16
            invariant
                i <= 16,
                v@ == a@.subrange(0, i as int),
            decreases 16 - i,
        {
            v.push(a[i]);
            i = i + 1;
            assert(v@ =~= a@.subrange(0, i as int));
        }
        let r = SfuMid { hi: pack_at(&v, 0), lo: pack_at(&v, 8) };
        assert(r@ =~= a@);
        r
    }
}

/// RTP payload type (codec binding within a session).
#[derive(Debug, Clone, Copy, PartialEq, Eq, Hash, PartialOrd, Ord, Structural)]
pub struct SfuPt {
    value: u8,
}

impl View for SfuPt {
    type V = u8;

    closed spec fn view(&self) -> u8 {
        self.value
    }
}

impl SfuPt {
    /// The payload type with number `value`.
    pub fn from_u8(value: u8) -> (r: SfuPt)
        ensures
            r@ == value,
    {
        SfuPt { value }
    }

    /// The payload type number.
    pub fn as_u8(&self) -> (v: u8)
        ensures
            v == self@,
    {
        self.value
    }
}

/// Round trip of a layer label: a valid label, stored space-padded to
/// eight bytes (as `SfuRid::from_str` stores it), reads back without its
/// padding as exactly that label (as `SfuRid::to_string` returns it).
pub proof fn lemma_rid_label_roundtrip(label: Seq<u8>)
    requires
        valid_rid_label(label),
    ensures
        trimmed(padded(label, 8)) == label,
{
    let p = padded(label, 8);
    let k = (8 - label.len()) as nat;
    assert(p =~= label + Seq::new(k, |i: int| 32u8));
    assert(!is_ws(p[0])) by {
        assert(is_alnum(label[0]));
    }
    assert(trim_start(p) == p);
    assert(!is_ws(label.last())) by {
        assert(is_alnum(label[label.len() - 1]));
    }
    lemma_trim_end_spaces(label, k);
}

/// Trailing spaces are all that `trim_end` removes from a label that does
/// not end in whitespace.
proof fn lemma_trim_end_spaces(l: Seq<u8>, k: nat)
    requires
        l.len() > 0,
        !is_ws(l.last()),
    ensures
        trim_end(l + Seq::new(k, |i: int| 32u8)) == l,
    decreases k,
{
    let s = l + Seq::new(k, |i: int| 32u8);
    if k == 0 {
        assert(s =~= l);
    } else {
        assert(s.last() == 32u8);
        assert(s.drop_last() =~= l + Seq::new((k - 1) as nat, |i: int| 32u8));
        lemma_trim_end_spaces(l, (k - 1) as nat);
    }
}

} // verus!
