//! A bounds-checked, read-only view over a borrowed byte region.

use vstd::prelude::*;
use vstd::slice::slice_subrange;

verus! {

/// The lowercase hexadecimal digit for a value below sixteen, as an ASCII
/// byte.
pub open spec fn hex_digit(n: u8) -> u8
    recommends
        n < 16,
{
    if n < 10 {
        (0x30 + n) as u8  // '0' through '9'
    } else {
        (0x61 + (n - 10)) as u8  // 'a' through 'f'
    }
}

/// How one byte appears in the diagnostic rendering, as ASCII bytes: a
/// two-character escape for newline, carriage return, tab, backslash, the
/// quote character and the zero byte; the byte itself for printable bytes
/// (0x20 inclusive to 0x7f exclusive); and a lowercase, zero-padded `\xhh`
/// escape for everything else. Total over all 256 byte values.
pub open spec fn escape_byte(b: u8) -> Seq<u8> {
    if b == 0x0a {  // '\n'
        seq![0x5c, 0x6e]
    } else if b == 0x0d {  // '\r'
        seq![0x5c, 0x72]
    } else if b == 0x09 {  // '\t'
        seq![0x5c, 0x74]
    } else if b == 0x5c || b == 0x22 {  // '\\' and '"'
        seq![0x5c, b]
    } else if b == 0x00 {
        seq![0x5c, 0x30]
    } else if 0x20 <= b < 0x7f {
        seq![b]
    } else {
        seq![0x5c, 0x78, hex_digit(b / 16), hex_digit(b % 16)]
    }
}

/// The escapes of all bytes of `s`, concatenated in order.
pub open spec fn escape_bytes(s: Seq<u8>) -> Seq<u8>
    decreases s.len(),
{
    if s.len() == 0 {
        Seq::empty()
    } else {
        escape_byte(s[0]) + escape_bytes(s.skip(1))
    }
}

/// The full diagnostic rendering of the bytes `s`: a `b"..."` byte-string
/// form whose interior escapes each byte of `s` in order. A total,
/// deterministic function of the byte content alone.
pub open spec fn debug_render(s: Seq<u8>) -> Seq<u8> {
    seq![0x62, 0x22] + escape_bytes(s) + seq![0x22]
}

/// The ASCII bytes `s` read as a sequence of characters.
pub open spec fn ascii_chars(s: Seq<u8>) -> Seq<char> {
    Seq::new(s.len(), |i: int| s[i] as char)
}

/// Appending one byte extends the escape concatenation by that byte's
/// escape.
proof fn lemma_escape_bytes_push(s: Seq<u8>, b: u8)
    ensures
        escape_bytes(s.push(b)) == escape_bytes(s) + escape_byte(b),
    decreases s.len(),
{
    if s.len() == 0 {
        assert(s.push(b)[0] == b);
        assert(s.push(b).skip(1) =~= Seq::<u8>::empty());
        assert(escape_bytes(s.push(b)) == escape_byte(b) + escape_bytes(Seq::<u8>::empty()));
    } else {
        assert(s.push(b)[0] == s[0]);
        assert(s.push(b).skip(1) =~= s.skip(1).push(b));
        lemma_escape_bytes_push(s.skip(1), b);
        assert(escape_bytes(s.push(b)) == escape_byte(s[0]) + (escape_bytes(s.skip(1))
            + escape_byte(b)));
    }
    assert(escape_bytes(s.push(b)) =~= escape_bytes(s) + escape_byte(b));
}

/// Compares two byte regions by content.
pub fn bytes_eq(a: &[u8], b: &[u8]) -> (r: bool)
    ensures
        r <==> a@ == b@,
{
    if a.len() != b.len() {
        proof {
            assert(a@.len() != b@.len());
        }
        return false;
    }
    let n = a.len();
    let mut i: usize = 0;
    while i < n
        invariant
            i <= n,
            n == a@.len() == b@.len(),
            forall|k: int| 0 <= k < i ==> a@[k] == b@[k],
        decreases n - i,
    {
        if a[i] != b[i] {
            proof {
                assert(a@[i as int] != b@[i as int]);
            }
            return false;
        }
        i += 1;
    }
    proof {
        assert(a@ =~= b@);
    }
    true
}

impl<'a> PartialEq for Slice<'a> {
    /// Equality is byte-content equality, never identity of the borrowed
    /// region.
    fn eq(&self, other: &Self) -> (r: bool) {
        bytes_eq(self.bytes, other.bytes)
    }
}

impl<'a> vstd::std_specs::cmp::PartialEqSpecImpl for Slice<'a> {
    open spec fn obeys_eq_spec() -> bool {
        true
    }

    open spec fn eq_spec(&self, other: &Self) -> bool {
        self@ == other@
    }
}

impl<'a> Eq for Slice<'a> {

}

/// Relies on `String::from_utf8`: it succeeds on valid UTF-8, and ASCII
/// bytes are valid UTF-8 decoding to exactly one identical character per
/// byte.
#[verifier::external_body]
fn utf8_to_string(bytes: Vec<u8>) -> (r: Option<String>)
    requires
        forall|i: int| 0 <= i < bytes@.len() ==> bytes@[i] < 0x80,
    ensures
        r is Some,
        r matches Some(s) ==> s@ == ascii_chars(bytes@),
{
    match String::from_utf8(bytes) {
        Ok(s) => Some(s),
        Err(_) => None,
    }
}

/// A wrapper around a byte slice that exposes no operation that can panic:
/// every access is bounds-checked and reports "absent" instead of trapping.
#[derive(Clone, Copy, Debug)]
pub struct Slice<'a> {
    bytes: &'a [u8],
}

impl<'a> View for Slice<'a> {
    type V = Seq<u8>;

    closed spec fn view(&self) -> Seq<u8> {
        self.bytes@
    }
}

impl<'a> Slice<'a> {
    /// The value `new` returns, at the specification level.
    pub closed spec fn new_spec(bytes: &'a [u8]) -> Self {
        Slice { bytes }
    }

    /// Wraps `bytes` as a checked view; never fails, for regions of any length.
    pub fn new(bytes: &'a [u8]) -> (s: Self)
        ensures
            s == Slice::new_spec(bytes),
            s@ == bytes@,
    {
        Self { bytes }
    }

    /// Returns the byte at position `i`, or `None` if `i` is out of bounds.
    pub fn get(&self, i: usize) -> (r: Option<&u8>)
        ensures
            i < self@.len() ==> r == Some(&self@[i as int]),
            i >= self@.len() ==> r is None,
    {
        self.bytes.get(i)
    }

    /// Returns the sub-view covering `r`, or `None` unless `r` lies fully
    /// within bounds.
    pub fn subslice(&self, r: core::ops::Range<usize>) -> (out: Option<Self>)
        ensures
            r.start <= r.end <= self@.len() ==> (out matches Some(s) && s@ == self@.subrange(
                r.start as int,
                r.end as int,
            )),
            !(r.start <= r.end <= self@.len()) ==> out is None,
    {
        if r.start <= r.end && r.end <= self.bytes.len() {
            Some(Self { bytes: slice_subrange(self.bytes, r.start, r.end) })
        } else {
            None
        }
    }

    /// Returns `true` iff the view covers no bytes.
    pub fn is_empty(&self) -> (b: bool)
        ensures
            b <==> self@.len() == 0,
    {
        self.bytes.is_empty()
    }

    /// Returns the exact number of bytes in view.
    pub fn len(&self) -> (n: usize)
        ensures
            n == self@.len(),
    {
        self.bytes.len()
    }

    /// Exposes the raw underlying region, forfeiting the checked-access
    /// discipline for whoever consumes the result.
    pub fn as_slice_less_safe(&self) -> (r: &'a [u8])
        ensures
            r@ == self@,
    {
        self.bytes
    }

    /// The diagnostic rendering of the view as ASCII bytes: a quoted byte
    /// string escaping each byte per `escape_byte`.
    pub fn to_debug_bytes(&self) -> (out: Vec<u8>)
        ensures
            out@ == debug_render(self@),
            forall|k: int| 0 <= k < out@.len() ==> out@[k] < 0x80,
    {
        let s = self.bytes;
        let mut out: Vec<u8> = Vec::new();
        out.push(0x62);  // 'b'
        out.push(0x22);  // '"'
        let mut i: usize = 0;
        while i < s.len()
            invariant
                i <= s@.len(),
                out@ == seq![0x62u8, 0x22u8] + escape_bytes(s@.take(i as int)),
                forall|k: int| 0 <= k < out@.len() ==> out@[k] < 0x80,
            decreases s@.len() - i,
        {
            let b = s[i];
            proof {
                assert(s@.take(i as int + 1) =~= s@.take(i as int).push(s@[i as int]));
                lemma_escape_bytes_push(s@.take(i as int), s@[i as int]);
            }
            if b == 0x0a {
                out.push(0x5c);
                out.push(0x6e);  // "\n"
            } else if b == 0x0d {
                out.push(0x5c);
                out.push(0x72);  // "\r"
            } else if b == 0x09 {
                out.push(0x5c);
                out.push(0x74);  // "\t"
            } else if b == 0x5c || b == 0x22 {
                out.push(0x5c);
                out.push(b);  // escaped backslash or quote
            } else if b == 0x00 {
                out.push(0x5c);
                out.push(0x30);  // "\0"
            } else if 0x20 <= b && b < 0x7f {
                out.push(b);  // printable ASCII, as itself
            } else {
                out.push(0x5c);
                out.push(0x78);  // "\x"
                let hi = b / 16;
                let lo = b % 16;
                out.push(if hi < 10 { 0x30 + hi } else { 0x61 + (hi - 10) });
                out.push(if lo < 10 { 0x30 + lo } else { 0x61 + (lo - 10) });
            }
            i += 1;
        }
        out.push(0x22);  // closing '"'
        proof {
            assert(s@.take(s@.len() as int) =~= s@);
            assert(out@ =~= debug_render(self@));
        }
        out
    }

    /// The diagnostic rendering of the view as a string: a total,
    /// deterministic function of the byte content alone.
    pub fn to_debug_string(&self) -> (r: String)
        ensures
            r@ == ascii_chars(debug_render(self@)),
    {
        let bytes = self.to_debug_bytes();
        match utf8_to_string(bytes) {
            Some(s) => s,
            None => vstd::pervasive::unreached(),
        }
    }
}

} // verus!
