use vstd::prelude::*;

verus! {

/// An inclusive range of raw byte values.
#[derive(Clone, Copy, Debug, PartialEq, Eq, Structural)]
pub struct ByteRange {
    pub start: u8,
    pub end: u8,
}

/// An inclusive range of Unicode scalar values.
#[derive(Clone, Copy, Debug, PartialEq, Eq, Structural)]
pub struct CharRange {
    pub start: char,
    pub end: char,
}

/// A character class: a union of inclusive ranges, over bytes or over
/// Unicode scalar values.
#[derive(Clone, Debug)]
pub enum Class {
    Bytes(Vec<ByteRange>),
    Unicode(Vec<CharRange>),
}

/// The kinds of node of a parsed pattern.
#[derive(Debug)]
pub enum IrKind {
    Empty,
    Literal(Vec<u8>),
    Class(Class),
    /// A zero-width assertion, identified by its bit representation.
    Look(u32),
    Repetition { min: u32, max: Option<u32>, greedy: bool, sub: Box<Ir> },
    Capture { index: u32, name: Option<String>, sub: Box<Ir> },
    Concat(Vec<Ir>),
    Alternation(Vec<Ir>),
}

/// A node of a parsed pattern together with its static properties.
/// `minimum_len` is `None` exactly when the node can match nothing at all.
#[derive(Debug)]
pub struct Ir {
    pub kind: IrKind,
    pub minimum_len: Option<usize>,
}

impl ByteRange {
    pub open spec fn contains(self, b: u8) -> bool {
        self.start <= b && b <= self.end
    }
}

impl CharRange {
    pub open spec fn contains(self, c: char) -> bool {
        (self.start as u32) <= (c as u32) && (c as u32) <= (self.end as u32)
    }
}

impl Class {
    pub open spec fn wf(self) -> bool {
        match self {
            Class::Bytes(rs) => forall|k: int| 0 <= k < rs@.len() ==> rs@[k].start <= rs@[k].end,
            Class::Unicode(rs) => forall|k: int|
                0 <= k < rs@.len() ==> (rs@[k].start as u32) <= (rs@[k].end as u32),
        }
    }
}

impl Ir {
    /// Every literal of the tree is non-empty (the empty string is `Empty`)
    /// and every class range is ordered, down to the first concatenation
    /// or alternation: no rule reads below those.
    pub open spec fn wf(self) -> bool
        decreases self,
    {
        match self.kind {
            IrKind::Empty => true,
            IrKind::Literal(lit) => lit@.len() > 0,
            IrKind::Class(c) => c.wf(),
            IrKind::Look(_) => true,
            IrKind::Repetition { sub, .. } => sub.wf(),
            IrKind::Capture { sub, .. } => sub.wf(),
            IrKind::Concat(_) => true,
            IrKind::Alternation(_) => true,
        }
    }
}

} // verus!
