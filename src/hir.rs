use crate::ir::{ByteRange, CharRange};
use regex_syntax::hir::{Class as HirClass, ClassBytes, ClassUnicode, Hir, HirKind};
use vstd::prelude::*;

verus! {

/// The switches of the pattern parser.
#[derive(Clone, Copy, Debug, PartialEq, Eq, Structural)]
pub struct ParseOptions {
    pub case_insensitive: bool,
    pub multi_line: bool,
    pub dot_matches_new_line: bool,
    pub ignore_whitespace: bool,
    pub unicode: bool,
    pub crlf: bool,
}

impl Default for ParseOptions {
    /// Every switch off but `unicode`.
    fn default() -> (r: Self)
        ensures
            r == (ParseOptions {
                case_insensitive: false,
                multi_line: false,
                dot_matches_new_line: false,
                ignore_whitespace: false,
                unicode: true,
                crlf: false,
            }),
    {
        ParseOptions {
            case_insensitive: false,
            multi_line: false,
            dot_matches_new_line: false,
            ignore_whitespace: false,
            unicode: true,
            crlf: false,
        }
    }
}

#[verifier::external_type_specification]
#[verifier::external_body]
pub struct ExError(regex_syntax::Error);

#[verifier::external_type_specification]
#[verifier::external_body]
pub struct ExHir(Hir);

#[verifier::external_type_specification]
#[verifier::external_body]
pub struct ExClassBytes(ClassBytes);

#[verifier::external_type_specification]
#[verifier::external_body]
pub struct ExClassUnicode(ClassUnicode);

/// Whether the parser accepts `pattern` under the given switches.
pub uninterp spec fn pattern_parses(
    pattern: Seq<char>,
    case_insensitive: bool,
    multi_line: bool,
    dot_matches_new_line: bool,
    ignore_whitespace: bool,
    unicode: bool,
    crlf: bool,
) -> bool;

pub open spec fn options_parse(pattern: Seq<char>, o: ParseOptions) -> bool {
    pattern_parses(
        pattern,
        o.case_insensitive,
        o.multi_line,
        o.dot_matches_new_line,
        o.ignore_whitespace,
        o.unicode,
        o.crlf,
    )
}

/// Relies on regex_syntax::ParserBuilder and Parser::parse: whether a
/// pattern is accepted depends on its text and the switches alone.
#[verifier::external_body]
pub(crate) fn parse_hir(pattern: &str, options: ParseOptions) -> (r: Result<Hir, regex_syntax::Error>)
    ensures
        r is Ok == pattern_parses(
            pattern@,
            options.case_insensitive,
            options.multi_line,
            options.dot_matches_new_line,
            options.ignore_whitespace,
            options.unicode,
            options.crlf,
        ),
{
    regex_syntax::ParserBuilder::new().case_insensitive(options.case_insensitive).multi_line(
        options.multi_line,
    ).dot_matches_new_line(options.dot_matches_new_line).ignore_whitespace(
        options.ignore_whitespace,
    ).unicode(options.unicode).crlf(options.crlf).build().parse(pattern)
}

/// Relies on regex_syntax's Properties::minimum_len of a node.
#[verifier::external_body]
pub(crate) fn hir_minimum_len(h: &Hir) -> (r: Option<usize>) {
    h.properties().minimum_len()
}

/// Relies on the Debug impl of regex_syntax's HirKind, for documentation.
#[verifier::external_body]
pub(crate) fn hir_kind_debug(h: &Hir) -> (r: String) {
    format!("{:#?}", h.kind())
}

/// Relies on the Debug impl of regex_syntax's Properties, for documentation.
#[verifier::external_body]
pub(crate) fn hir_properties_debug(h: &Hir) -> (r: String) {
    format!("{:#?}", h.properties())
}

/// One level of a parsed pattern, its sub-patterns still in the parser's
/// form.
pub(crate) enum HirNode {
    Empty,
    Literal(Vec<u8>),
    Bytes(ClassBytes),
    Unicode(ClassUnicode),
    Look(u32),
    Repetition { min: u32, max: Option<u32>, greedy: bool, sub: Hir },
    Capture { index: u32, name: Option<String>, sub: Hir },
    Concat(Vec<Hir>),
    Alternation(Vec<Hir>),
}

/// Relies on Hir::into_kind. A Hir is built only by regex_syntax's smart
/// constructors, and Hir::literal turns an empty literal into Hir::empty,
/// so a literal node is never empty.
#[verifier::external_body]
pub(crate) fn hir_into_node(h: Hir) -> (r: HirNode)
    ensures
        r matches HirNode::Literal(lit) ==> lit@.len() > 0,
{
    match h.into_kind() {
        HirKind::Empty => HirNode::Empty,
        HirKind::Literal(regex_syntax::hir::Literal(b)) => HirNode::Literal(b.into_vec()),
        HirKind::Class(HirClass::Bytes(c)) => HirNode::Bytes(c),
        HirKind::Class(HirClass::Unicode(c)) => HirNode::Unicode(c),
        HirKind::Look(l) => HirNode::Look(l.as_repr()),
        HirKind::Repetition(r) => HirNode::Repetition { min: r.min, max: r.max, greedy: r.greedy, sub: *r.sub },
        HirKind::Capture(c) => HirNode::Capture { index: c.index, name: c.name.map(String::from), sub: *c.sub },
        HirKind::Concat(v) => HirNode::Concat(v),
        HirKind::Alternation(v) => HirNode::Alternation(v),
    }
}

/// Relies on ClassBytes::ranges, whose ranges have `start <= end`.
#[verifier::external_body]
pub(crate) fn byte_ranges(c: &ClassBytes) -> (r: Vec<ByteRange>)
    ensures
        forall|k: int| 0 <= k < r@.len() ==> r@[k].start <= r@[k].end,
{
    c.ranges().iter().map(|x| ByteRange { start: x.start(), end: x.end() }).collect()
}

/// Relies on ClassUnicode::ranges, whose ranges have `start <= end`.
#[verifier::external_body]
pub(crate) fn unicode_ranges(c: &ClassUnicode) -> (r: Vec<CharRange>)
    ensures
        forall|k: int| 0 <= k < r@.len() ==> (r@[k].start as u32) <= (r@[k].end as u32),
{
    c.ranges().iter().map(|x| CharRange { start: x.start(), end: x.end() }).collect()
}

} // verus!
