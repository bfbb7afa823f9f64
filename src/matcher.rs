use crate::ir::{ByteRange, CharRange};
use vstd::prelude::*;
use vstd::utf8::encode_utf8;

verus! {

/// `lit` occurs in `hay` starting at offset `i`.
pub open spec fn occurs_at(hay: Seq<u8>, lit: Seq<u8>, i: int) -> bool {
    0 <= i && i + lit.len() <= hay.len() && hay.subrange(i, i + lit.len()) == lit
}

/// `lit` occurs somewhere in `hay` as a contiguous window.
pub open spec fn occurs(hay: Seq<u8>, lit: Seq<u8>) -> bool {
    exists|i: int| occurs_at(hay, lit, i)
}

pub open spec fn in_byte_ranges(rs: Seq<ByteRange>, b: u8) -> bool {
    exists|k: int| 0 <= k < rs.len() && (#[trigger] rs[k]).contains(b)
}

pub open spec fn in_char_ranges(rs: Seq<CharRange>, c: char) -> bool {
    exists|k: int| 0 <= k < rs.len() && (#[trigger] rs[k]).contains(c)
}

/// Some byte of the UTF-8 encoding of `input` lies in one of the ranges.
pub open spec fn some_byte_in(rs: Seq<ByteRange>, input: Seq<char>) -> bool {
    exists|i: int| 0 <= i < encode_utf8(input).len() && in_byte_ranges(rs, #[trigger] encode_utf8(input)[i])
}

/// Some scalar value of `input` lies in one of the ranges.
pub open spec fn some_char_in(rs: Seq<CharRange>, input: Seq<char>) -> bool {
    exists|i: int| 0 <= i < input.len() && in_char_ranges(rs, #[trigger] input[i])
}

/// The matching program produced for one pattern: the body of the
/// generated `is_match` function, held as data.
#[derive(Clone, Debug)]
pub enum Matcher {
    /// Rejects every input.
    Never,
    /// Accepts every input.
    Always,
    /// Accepts an input whose bytes contain this sequence.
    Literal(Vec<u8>),
    /// Accepts an input with a byte in one of these ranges.
    Bytes(Vec<ByteRange>),
    /// Accepts an input with a scalar value in one of these ranges.
    Unicode(Vec<CharRange>),
}

impl Matcher {
    /// The inputs that the program accepts.
    pub open spec fn accepts(&self, input: Seq<char>) -> bool {
        match self {
            Matcher::Never => false,
            Matcher::Always => true,
            Matcher::Literal(lit) => occurs(encode_utf8(input), lit@),
            Matcher::Bytes(rs) => some_byte_in(rs@, input),
            Matcher::Unicode(rs) => some_char_in(rs@, input),
        }
    }

    /// Runs the program on `input`.
    pub fn is_match(&self, input: &str) -> (r: bool)
        ensures
            r == self.accepts(input@),
    {
        match self {
            Matcher::Never => false,
            Matcher::Always => true,
            Matcher::Literal(lit) => contains_window(input.as_bytes(), lit.as_slice()),
            Matcher::Bytes(rs) => any_byte_in(input.as_bytes(), rs),
            Matcher::Unicode(rs) => any_char_in(input, rs),
        }
    }
}

/// Whether `hay[i..i + lit.len()]` equals `lit`.
fn window_equals(hay: &[u8], i: usize, lit: &[u8]) -> (r: bool)
    requires
        i + lit@.len() <= hay@.len(),
    ensures
        r == (hay@.subrange(i as int, i + lit@.len()) == lit@),
{
    let n = hay.len();
    let mut k: usize = 0;
    while k < lit.len()
        invariant
            n == hay@.len(),
            k <= lit@.len(),
            i + lit@.len() <= hay@.len(),
            forall|j: int| 0 <= j < k ==> hay@[i + j] == lit@[j],
        decreases lit@.len() - k,
    {
        if hay[i + k] != lit[k] {
            assert(hay@.subrange(i as int, i + lit@.len())[k as int] != lit@[k as int]);
            return false;
        }
        k += 1;
    }
    assert(hay@.subrange(i as int, i + lit@.len()) =~= lit@);
    true
}

/// Unanchored search for `lit` among the windows of `hay`.
fn contains_window(hay: &[u8], lit: &[u8]) -> (r: bool)
    ensures
        r == occurs(hay@, lit@),
{
    let n = hay.len();
    let m = lit.len();
    if m > n {
        return false;
    }
    let mut i: usize = 0;
    loop
        invariant
            n == hay@.len(),
            m == lit@.len(),
            m <= n,
            i <= n - m,
            forall|j: int| 0 <= j < i ==> !occurs_at(hay@, lit@, j),
        decreases n - m - i,
    {
        if window_equals(hay, i, lit) {
            assert(occurs_at(hay@, lit@, i as int));
            return true;
        }
        if i == n - m {
            return false;
        }
        i += 1;
    }
}

fn byte_in_ranges(rs: &Vec<ByteRange>, b: u8) -> (r: bool)
    ensures
        r == in_byte_ranges(rs@, b),
{
    let mut k: usize = 0;
    while k < rs.len()
        invariant
            k <= rs@.len(),
            forall|j: int| 0 <= j < k ==> !(#[trigger] rs@[j]).contains(b),
        decreases rs@.len() - k,
    {
        if rs[k].start <= b && b <= rs[k].end {
            return true;
        }
        k += 1;
    }
    false
}

fn char_in_ranges(rs: &Vec<CharRange>, c: char) -> (r: bool)
    ensures
        r == in_char_ranges(rs@, c),
{
    let mut k: usize = 0;
    while k < rs.len()
        invariant
            k <= rs@.len(),
            forall|j: int| 0 <= j < k ==> !(#[trigger] rs@[j]).contains(c),
        decreases rs@.len() - k,
    {
        if (rs[k].start as u32) <= (c as u32) && (c as u32) <= (rs[k].end as u32) {
            return true;
        }
        k += 1;
    }
    false
}

fn any_byte_in(bytes: &[u8], rs: &Vec<ByteRange>) -> (r: bool)
    ensures
        r == (exists|i: int| 0 <= i < bytes@.len() && in_byte_ranges(rs@, #[trigger] bytes@[i])),
{
    let mut i: usize = 0;
    while i < bytes.len()
        invariant
            i <= bytes@.len(),
            forall|j: int| 0 <= j < i ==> !in_byte_ranges(rs@, #[trigger] bytes@[j]),
        decreases bytes@.len() - i,
    {
        if byte_in_ranges(rs, bytes[i]) {
            return true;
        }
        i += 1;
    }
    false
}

fn any_char_in(input: &str, rs: &Vec<CharRange>) -> (r: bool)
    ensures
        r == some_char_in(rs@, input@),
{
    let n = input.unicode_len();
    let mut i: usize = 0;
    while i < n
        invariant
            n == input@.len(),
            i <= n,
            forall|j: int| 0 <= j < i ==> !in_char_ranges(rs@, #[trigger] input@[j]),
        decreases n - i,
    {
        if char_in_ranges(rs, input.get_char(i)) {
            return true;
        }
        i += 1;
    }
    false
}

} // verus!
