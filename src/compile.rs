use crate::hir::{
    byte_ranges, hir_into_node, hir_kind_debug, hir_minimum_len, hir_properties_debug, parse_hir,
    pattern_parses, unicode_ranges, HirNode, ParseOptions,
};
use crate::ir::{Class, Ir, IrKind};
use crate::assemble::body_text;
use crate::matcher::{occurs, some_byte_in, some_char_in, Matcher};
use regex_syntax::hir::Hir;
use vstd::prelude::*;
use vstd::utf8::encode_utf8;

verus! {

/// The node kinds for which no matching program is generated.
#[derive(Clone, Copy, Debug, PartialEq, Eq, Structural)]
pub enum NodeKind {
    Look,
    Repetition,
    Concat,
    Alternation,
}

/// Why a pattern could not be compiled.
#[derive(Debug)]
pub enum CompileError {
    /// The pattern text is not valid regular-expression syntax.
    Syntax(regex_syntax::Error),
    /// The parsed pattern holds a node kind that has no code generation rule.
    Unsupported(NodeKind),
    /// The parsed pattern is nested deeper than the compiler descends.
    TooDeep,
}

impl Ir {
    /// A matching program can be generated for this tree: it is statically
    /// unmatchable, or it is made of captures around an empty pattern, a
    /// literal or a class.
    pub open spec fn supported(self) -> bool
        decreases self,
    {
        match self.minimum_len {
            None => true,
            Some(_) => match self.kind {
                IrKind::Empty => true,
                IrKind::Literal(_) => true,
                IrKind::Class(_) => true,
                IrKind::Capture { sub, .. } => sub.supported(),
                _ => false,
            },
        }
    }

    /// The first node kind without a code generation rule that the
    /// dispatcher reaches in an unsupported tree.
    pub open spec fn unsupported_kind(self) -> NodeKind
        decreases self,
    {
        match self.kind {
            IrKind::Capture { sub, .. } => sub.unsupported_kind(),
            IrKind::Look(_) => NodeKind::Look,
            IrKind::Repetition { .. } => NodeKind::Repetition,
            IrKind::Concat(_) => NodeKind::Concat,
            _ => NodeKind::Alternation,
        }
    }

    /// Unanchored search on a supported tree: `input` holds a match of the
    /// pattern somewhere. A tree without a minimum length matches nothing;
    /// the empty pattern matches everywhere; a literal matches where its
    /// bytes occur in the UTF-8 encoding of the input; a byte class matches
    /// a byte of that encoding; a Unicode class matches a scalar value; a
    /// capture matches where its sub-pattern does.
    pub open spec fn search(self, input: Seq<char>) -> bool
        decreases self,
    {
        match self.minimum_len {
            None => false,
            Some(_) => match self.kind {
                IrKind::Empty => true,
                IrKind::Literal(lit) => occurs(encode_utf8(input), lit@),
                IrKind::Class(Class::Bytes(rs)) => some_byte_in(rs@, input),
                IrKind::Class(Class::Unicode(rs)) => some_char_in(rs@, input),
                IrKind::Capture { sub, .. } => sub.search(input),
                _ => false,
            },
        }
    }
}

impl Ir {
    /// `m` is the program generated for this tree: the program that rejects
    /// everything for a tree without a minimum length; otherwise the one
    /// that accepts everything for the empty pattern, the literal's bytes,
    /// the class's ranges in order, and for a capture the program of its
    /// sub-tree, whatever its index and name.
    pub open spec fn emits(self, m: Matcher) -> bool
        decreases self,
    {
        match self.minimum_len {
            None => m is Never,
            Some(_) => match self.kind {
                IrKind::Empty => m is Always,
                IrKind::Literal(lit) => m matches Matcher::Literal(l) && l@ == lit@,
                IrKind::Class(Class::Bytes(rs)) => m matches Matcher::Bytes(r) && r@ == rs@,
                IrKind::Class(Class::Unicode(rs)) => m matches Matcher::Unicode(r) && r@ == rs@,
                IrKind::Capture { sub, .. } => sub.emits(m),
                _ => false,
            },
        }
    }
}

/// `r` is what compiling `ir` yields: a program that accepts exactly the
/// inputs that the tree matches, or the unsupported node kind that stops it.
pub open spec fn compiled_as(ir: Ir, r: Result<Matcher, CompileError>) -> bool {
    &&& (r is Ok <==> ir.supported())
    &&& (r matches Ok(m) ==> ir.emits(m))
    &&& (r matches Ok(m) ==> forall|s: Seq<char>| #[trigger] m.accepts(s) == ir.search(s))
    &&& (r matches Err(e) ==> e == CompileError::Unsupported(ir.unsupported_kind()))
}

/// A copy of a vector of plain values.
fn copy_vec<T: Copy>(v: &Vec<T>) -> (r: Vec<T>)
    ensures
        r@ == v@,
{
    let mut out: Vec<T> = Vec::new();
    let mut k: usize = 0;
    while k < v.len()
        invariant
            k <= v@.len(),
            out@ == v@.subrange(0, k as int),
        decreases v@.len() - k,
    {
        out.push(v[k]);
        k += 1;
        assert(out@ =~= v@.subrange(0, k as int));
    }
    assert(out@ =~= v@);
    out
}

/// Translates a parsed pattern into its matching program. A tree without a
/// minimum length becomes the program that rejects everything, whatever its
/// kind; otherwise each node kind has its own rule, and a kind without one
/// is an error.
pub fn implement_parser(ir: &Ir) -> (r: Result<Matcher, CompileError>)
    requires
        ir.wf(),
    ensures
        compiled_as(*ir, r),
    decreases ir,
{
    if ir.minimum_len.is_none() {
        return Ok(Matcher::Never);
    }
    match &ir.kind {
        IrKind::Empty => Ok(Matcher::Always),
        IrKind::Literal(lit) => Ok(Matcher::Literal(copy_vec(lit))),
        IrKind::Class(Class::Bytes(rs)) => Ok(Matcher::Bytes(copy_vec(rs))),
        IrKind::Class(Class::Unicode(rs)) => Ok(Matcher::Unicode(copy_vec(rs))),
        IrKind::Capture { sub, .. } => implement_parser(sub),
        IrKind::Look(_) => Err(CompileError::Unsupported(NodeKind::Look)),
        IrKind::Repetition { .. } => Err(CompileError::Unsupported(NodeKind::Repetition)),
        IrKind::Concat(_) => Err(CompileError::Unsupported(NodeKind::Concat)),
        IrKind::Alternation(_) => Err(CompileError::Unsupported(NodeKind::Alternation)),
    }
}

/// How many levels of nesting the compiler descends into. The parser's
/// nodes are opaque here, so this bound is what ends the descent; the parser
/// itself refuses patterns nested past 250 levels.
pub const NEST_DEPTH: usize = 512;

/// Brings one parsed node and, within `depth` levels, everything below it
/// into the library's tree.
fn ir_from_hir(h: Hir, depth: usize) -> (r: Result<Ir, CompileError>)
    ensures
        r matches Ok(ir) ==> ir.wf(),
        r matches Err(e) ==> e is TooDeep,
    decreases depth, 0nat,
{
    if depth == 0 {
        return Err(CompileError::TooDeep);
    }
    let minimum_len = hir_minimum_len(&h);
    let kind = match hir_into_node(h) {
        HirNode::Empty => IrKind::Empty,
        HirNode::Literal(lit) => IrKind::Literal(lit),
        HirNode::Bytes(c) => IrKind::Class(Class::Bytes(byte_ranges(&c))),
        HirNode::Unicode(c) => IrKind::Class(Class::Unicode(unicode_ranges(&c))),
        HirNode::Look(l) => IrKind::Look(l),
        HirNode::Repetition { min, max, greedy, sub } => match ir_from_hir(sub, depth - 1) {
            Ok(sub) => IrKind::Repetition { min, max, greedy, sub: Box::new(sub) },
            Err(e) => return Err(e),
        },
        HirNode::Capture { index, name, sub } => match ir_from_hir(sub, depth - 1) {
            Ok(sub) => IrKind::Capture { index, name, sub: Box::new(sub) },
            Err(e) => return Err(e),
        },
        HirNode::Concat(subs) => match irs_from_hirs(subs, depth - 1) {
            Ok(subs) => IrKind::Concat(subs),
            Err(e) => return Err(e),
        },
        HirNode::Alternation(subs) => match irs_from_hirs(subs, depth - 1) {
            Ok(subs) => IrKind::Alternation(subs),
            Err(e) => return Err(e),
        },
    };
    Ok(Ir { kind, minimum_len })
}

/// Brings a sequence of parsed nodes, in order, into the library's trees.
fn irs_from_hirs(subs: Vec<Hir>, depth: usize) -> (r: Result<Vec<Ir>, CompileError>)
    ensures
        r matches Ok(v) ==> v@.len() == subs@.len() && forall|k: int|
            0 <= k < v@.len() ==> #[trigger] v@[k].wf(),
        r matches Err(e) ==> e is TooDeep,
    decreases depth, 1nat,
{
    let mut rest = subs;
    let mut out: Vec<Ir> = Vec::new();
    while rest.len() > 0
        invariant
            out@.len() + rest@.len() == subs@.len(),
            forall|k: int| 0 <= k < out@.len() ==> #[trigger] out@[k].wf(),
        decreases rest@.len(),
    {
        let h = rest.remove(0);
        match ir_from_hir(h, depth) {
            Ok(ir) => out.push(ir),
            Err(e) => return Err(e),
        }
    }
    Ok(out)
}

/// Parses `pattern` and brings the result into the library's tree, with
/// the parser's own printed forms of the tree and of its properties.
pub(crate) fn parse_to_ir(pattern: &str, options: ParseOptions) -> (r: Result<(Ir, String, String), CompileError>)
    ensures
        (r matches Err(CompileError::Syntax(_))) <==> !pattern_parses(
            pattern@,
            options.case_insensitive,
            options.multi_line,
            options.dot_matches_new_line,
            options.ignore_whitespace,
            options.unicode,
            options.crlf,
        ),
        r matches Ok(t) ==> t.0.wf(),
        r matches Err(e) ==> e is Syntax || e is TooDeep,
{
    match parse_hir(pattern, options) {
        Err(e) => Err(CompileError::Syntax(e)),
        Ok(h) => {
            let kind_text = hir_kind_debug(&h);
            let properties_text = hir_properties_debug(&h);
            match ir_from_hir(h, NEST_DEPTH) {
                Ok(ir) => Ok((ir, kind_text, properties_text)),
                Err(e) => Err(e),
            }
        },
    }
}

/// Parses and compiles `pattern` into its matching program. A syntax error
/// comes exactly when the parser rejects the pattern; past the parser, the
/// result is what `implement_parser` gives on the parsed tree.
pub fn compile_pattern(pattern: &str, options: ParseOptions) -> (r: Result<Matcher, CompileError>)
    ensures
        (r matches Err(CompileError::Syntax(_))) <==> !pattern_parses(
            pattern@,
            options.case_insensitive,
            options.multi_line,
            options.dot_matches_new_line,
            options.ignore_whitespace,
            options.unicode,
            options.crlf,
        ),
        !(r matches Err(CompileError::Syntax(_))) && !(r matches Err(CompileError::TooDeep))
            ==> exists|ir: Ir| ir.wf() && compiled_as(ir, r),
{
    match parse_to_ir(pattern, options) {
        Err(e) => Err(e),
        Ok((ir, _, _)) => implement_parser(&ir),
    }
}

/// A pattern without a minimum length is supported whatever its kind, and
/// matches no input at all, the empty one included.
pub proof fn lemma_unmatchable_rejects_all(ir: Ir)
    requires
        ir.minimum_len is None,
    ensures
        ir.supported(),
        forall|s: Seq<char>| !#[trigger] ir.search(s),
{
}

/// The two programs are the same: the same variant, with equal bytes or
/// equal ranges in the same order.
pub open spec fn same_program(m1: Matcher, m2: Matcher) -> bool {
    match (m1, m2) {
        (Matcher::Never, Matcher::Never) => true,
        (Matcher::Always, Matcher::Always) => true,
        (Matcher::Literal(a), Matcher::Literal(b)) => a@ == b@,
        (Matcher::Bytes(a), Matcher::Bytes(b)) => a@ == b@,
        (Matcher::Unicode(a), Matcher::Unicode(b)) => a@ == b@,
        _ => false,
    }
}

/// A tree has at most one program.
pub proof fn lemma_emits_unique(ir: Ir, m1: Matcher, m2: Matcher)
    requires
        ir.emits(m1),
        ir.emits(m2),
    ensures
        same_program(m1, m2),
    decreases ir,
{
    if ir.minimum_len is Some {
        if let IrKind::Capture { sub, .. } = ir.kind {
            lemma_emits_unique(*sub, m1, m2);
        }
    }
}

/// Compiling one tree twice gives the same program, hence the same
/// generated statements and the same answer on every input, or the same
/// error twice.
pub proof fn lemma_compile_deterministic(
    ir: Ir,
    r1: Result<Matcher, CompileError>,
    r2: Result<Matcher, CompileError>,
)
    requires
        compiled_as(ir, r1),
        compiled_as(ir, r2),
    ensures
        r1 is Ok <==> r2 is Ok,
        r1 matches Ok(m1) ==> r2 matches Ok(m2) ==> same_program(m1, m2) && body_text(m1)
            == body_text(m2) && forall|s: Seq<char>| #[trigger] m1.accepts(s) == m2.accepts(s),
        r1 matches Err(e1) ==> r2 matches Err(e2) ==> e1 == e2,
{
    if let Ok(m1) = r1 {
        if let Ok(m2) = r2 {
            lemma_emits_unique(ir, m1, m2);
            assert forall|s: Seq<char>| #[trigger] m1.accepts(s) == m2.accepts(s) by {
                assert(m1.accepts(s) == ir.search(s));
                assert(m2.accepts(s) == ir.search(s));
            }
        }
    }
}

/// Wrapping a pattern in a capturing group, with any index and name,
/// changes neither whether it can be compiled, nor its program, nor which
/// inputs it matches.
pub proof fn lemma_capture_transparent(p: Ir, wrapped: Ir)
    requires
        wrapped.kind matches IrKind::Capture { sub, .. } && *sub == p,
        wrapped.minimum_len == p.minimum_len,
    ensures
        wrapped.supported() == p.supported(),
        forall|m: Matcher| #[trigger] wrapped.emits(m) == p.emits(m),
        forall|s: Seq<char>| #[trigger] wrapped.search(s) == p.search(s),
{
}

} // verus!
