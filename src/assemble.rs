use crate::compile::{implement_parser, lemma_emits_unique, parse_to_ir, CompileError};
use crate::hir::pattern_parses;
pub use crate::hir::ParseOptions;
use crate::ir::{ByteRange, CharRange, Ir};
use crate::matcher::Matcher;
use crate::text::{decimal, doc_attr, hexadecimal, push_digits, push_doc_attr, push_str};
use vstd::prelude::*;

verus! {

/// The bytes of a literal as the items of an array expression.
pub open spec fn bytes_list(bs: Seq<u8>) -> Seq<char>
    decreases bs.len(),
{
    if bs.len() == 0 {
        Seq::empty()
    } else {
        bytes_list(bs.drop_last()) + decimal(bs.last() as nat) + ", "@
    }
}

/// One disjunct per range, testing a byte `c`.
pub open spec fn byte_tests(rs: Seq<ByteRange>) -> Seq<char>
    decreases rs.len(),
{
    if rs.len() == 0 {
        Seq::empty()
    } else {
        byte_tests(rs.drop_last()) + " || ("@ + decimal(rs.last().start as nat) + " <= c && c <= "@
            + decimal(rs.last().end as nat) + ")"@
    }
}

/// One disjunct per range, testing a `char` `c`.
pub open spec fn char_tests(rs: Seq<CharRange>) -> Seq<char>
    decreases rs.len(),
{
    if rs.len() == 0 {
        Seq::empty()
    } else {
        char_tests(rs.drop_last()) + " || ('\\u{"@ + hexadecimal(rs.last().start as u32 as nat)
            + "}' <= c && c <= '\\u{"@ + hexadecimal(rs.last().end as u32 as nat) + "}')"@
    }
}

/// The statements of the generated `is_match`, whose parameter is `input`.
pub open spec fn body_text(m: Matcher) -> Seq<char> {
    match m {
        Matcher::Never => "        let _ = input;\n        false\n"@,
        Matcher::Always => "        let _ = input;\n        true\n"@,
        Matcher::Literal(lit) => "        const LITERAL: [u8; "@ + decimal(lit@.len()) + "] = ["@
            + bytes_list(lit@) + "];\n        input.as_bytes().windows(LITERAL.len()).any(|window| window == LITERAL)\n"@,
        Matcher::Bytes(rs) => "        input.as_bytes().iter().any(|&c| false"@ + byte_tests(rs@)
            + ")\n"@,
        Matcher::Unicode(rs) => "        input.chars().any(|c| false"@ + char_tests(rs@) + ")\n"@,
    }
}

/// The generated unit: a module named `name` holding `is_match`, documented
/// with the pattern and the parser's printed tree and properties.
pub open spec fn unit_text(
    name: Seq<char>,
    pattern: Seq<char>,
    kind_text: Seq<char>,
    properties_text: Seq<char>,
    m: Matcher,
) -> Seq<char> {
    "#[doc = \"Regex:\"]\n#[doc = \"```text\"]\n"@ + doc_attr(pattern)
        + "#[doc = \"```\"]\n#[doc = \"HIR:\"]\n#[doc = \"```text\"]\n"@ + doc_attr(kind_text)
        + "#[doc = \"```\"]\n#[doc = \"HIR properties:\"]\n#[doc = \"```text\"]\n"@ + doc_attr(
        properties_text,
    ) + "#[doc = \"```\"]\nmod "@ + name + " {\n    pub fn is_match(input: &str) -> bool {\n"@
        + body_text(m) + "    }\n}\n"@
}

pub open spec fn is_ident_start(c: char) -> bool {
    ('a' <= c && c <= 'z') || ('A' <= c && c <= 'Z') || c == '_'
}

pub open spec fn is_ident_continue(c: char) -> bool {
    is_ident_start(c) || ('0' <= c && c <= '9')
}

/// An ASCII identifier: a letter or underscore, then letters, digits and
/// underscores.
pub open spec fn is_identifier(name: Seq<char>) -> bool {
    &&& name.len() > 0
    &&& is_ident_start(name[0])
    &&& forall|i: int| 0 <= i < name.len() ==> is_ident_continue(#[trigger] name[i])
}

/// Relies on String's FromIterator impl over `&char`: the string holds the
/// characters in order.
#[verifier::external_body]
fn string_of(chars: &Vec<char>) -> (r: String)
    ensures
        r@ == chars@,
{
    chars.iter().collect()
}

/// Whether `name` is an ASCII identifier.
pub fn check_identifier(name: &str) -> (r: bool)
    ensures
        r == is_identifier(name@),
{
    let n = name.unicode_len();
    if n == 0 {
        return false;
    }
    let first = name.get_char(0);
    if !(('a' <= first && first <= 'z') || ('A' <= first && first <= 'Z') || first == '_') {
        return false;
    }
    let mut i: usize = 0;
    while i < n
        invariant
            n == name@.len(),
            i <= n,
            forall|j: int| 0 <= j < i ==> is_ident_continue(#[trigger] name@[j]),
        decreases n - i,
    {
        let c = name.get_char(i);
        if !(('a' <= c && c <= 'z') || ('A' <= c && c <= 'Z') || c == '_' || ('0' <= c && c
            <= '9')) {
            return false;
        }
        i += 1;
    }
    true
}

fn push_body(out: &mut Vec<char>, m: &Matcher)
    ensures
        final(out)@ == old(out)@ + body_text(*m),
{
    match m {
        Matcher::Never => push_str(out, "        let _ = input;\n        false\n"),
        Matcher::Always => push_str(out, "        let _ = input;\n        true\n"),
        Matcher::Literal(lit) => {
            push_str(out, "        const LITERAL: [u8; ");
            push_digits(out, lit.len(), 10);
            push_str(out, "] = [");
            let ghost mid = out@;
            let mut k: usize = 0;
            while k < lit.len()
                invariant
                    k <= lit@.len(),
                    out@ == mid + bytes_list(lit@.subrange(0, k as int)),
                decreases lit@.len() - k,
            {
                push_digits(out, lit[k] as usize, 10);
                push_str(out, ", ");
                proof {
                    assert(lit@.subrange(0, k + 1).drop_last() =~= lit@.subrange(0, k as int));
                }
                k += 1;
                assert(out@ =~= mid + bytes_list(lit@.subrange(0, k as int)));
            }
            assert(lit@.subrange(0, lit@.len() as int) =~= lit@);
            push_str(
                out,
                "];\n        input.as_bytes().windows(LITERAL.len()).any(|window| window == LITERAL)\n",
            );
            assert(out@ =~= old(out)@ + body_text(*m));
        },
        Matcher::Bytes(rs) => {
            push_str(out, "        input.as_bytes().iter().any(|&c| false");
            let ghost mid = out@;
            let mut k: usize = 0;
            while k < rs.len()
                invariant
                    k <= rs@.len(),
                    out@ == mid + byte_tests(rs@.subrange(0, k as int)),
                decreases rs@.len() - k,
            {
                push_str(out, " || (");
                push_digits(out, rs[k].start as usize, 10);
                push_str(out, " <= c && c <= ");
                push_digits(out, rs[k].end as usize, 10);
                push_str(out, ")");
                proof {
                    assert(rs@.subrange(0, k + 1).drop_last() =~= rs@.subrange(0, k as int));
                }
                k += 1;
                assert(out@ =~= mid + byte_tests(rs@.subrange(0, k as int)));
            }
            assert(rs@.subrange(0, rs@.len() as int) =~= rs@);
            push_str(out, ")\n");
            assert(out@ =~= old(out)@ + body_text(*m));
        },
        Matcher::Unicode(rs) => {
            push_str(out, "        input.chars().any(|c| false");
            let ghost mid = out@;
            let mut k: usize = 0;
            while k < rs.len()
                invariant
                    k <= rs@.len(),
                    out@ == mid + char_tests(rs@.subrange(0, k as int)),
                decreases rs@.len() - k,
            {
                push_str(out, " || ('\\u{");
                push_digits(out, rs[k].start as u32 as usize, 16);
                push_str(out, "}' <= c && c <= '\\u{");
                push_digits(out, rs[k].end as u32 as usize, 16);
                push_str(out, "}')");
                proof {
                    assert(rs@.subrange(0, k + 1).drop_last() =~= rs@.subrange(0, k as int));
                }
                k += 1;
                assert(out@ =~= mid + char_tests(rs@.subrange(0, k as int)));
            }
            assert(rs@.subrange(0, rs@.len() as int) =~= rs@);
            push_str(out, ")\n");
            assert(out@ =~= old(out)@ + body_text(*m));
        },
    }
}

/// Writes the generated unit for a compiled matching program.
pub fn assemble_unit(
    name: &str,
    pattern: &str,
    kind_text: &str,
    properties_text: &str,
    m: &Matcher,
) -> (r: String)
    ensures
        r@ == unit_text(name@, pattern@, kind_text@, properties_text@, *m),
{
    let mut out: Vec<char> = Vec::new();
    push_str(&mut out, "#[doc = \"Regex:\"]\n#[doc = \"```text\"]\n");
    push_doc_attr(&mut out, pattern);
    push_str(&mut out, "#[doc = \"```\"]\n#[doc = \"HIR:\"]\n#[doc = \"```text\"]\n");
    push_doc_attr(&mut out, kind_text);
    push_str(&mut out, "#[doc = \"```\"]\n#[doc = \"HIR properties:\"]\n#[doc = \"```text\"]\n");
    push_doc_attr(&mut out, properties_text);
    push_str(&mut out, "#[doc = \"```\"]\nmod ");
    push_str(&mut out, name);
    push_str(&mut out, " {\n    pub fn is_match(input: &str) -> bool {\n");
    push_body(&mut out, m);
    push_str(&mut out, "    }\n}\n");
    assert(out@ =~= unit_text(name@, pattern@, kind_text@, properties_text@, *m));
    string_of(&out)
}

/// `text` is the unit named `name` written for the tree `ir`, documented
/// with the printed forms `k` and `p`: the text over the tree's program.
pub open spec fn writes_unit(
    text: Seq<char>,
    name: Seq<char>,
    pattern: Seq<char>,
    ir: Ir,
    k: Seq<char>,
    p: Seq<char>,
) -> bool {
    &&& ir.supported()
    &&& exists|m: Matcher| #[trigger] ir.emits(m)
    &&& forall|m: Matcher| #[trigger] ir.emits(m) ==> text == unit_text(name, pattern, k, p, m)
}

/// Writes the unit named `name` for an already parsed tree: the text holds
/// the tree's program, or the error names the node kind that has no rule.
pub fn unit_from_tree(
    name: &str,
    pattern: &str,
    ir: &Ir,
    kind_text: &str,
    properties_text: &str,
) -> (r: Result<String, CompileError>)
    requires
        ir.wf(),
        is_identifier(name@),
    ensures
        r is Ok <==> ir.supported(),
        r matches Ok(text) ==> writes_unit(text@, name@, pattern@, *ir, kind_text@, properties_text@),
        r matches Err(e) ==> e == CompileError::Unsupported(ir.unsupported_kind()),
{
    match implement_parser(ir) {
        Ok(m) => {
            let text = assemble_unit(name, pattern, kind_text, properties_text, &m);
            proof {
                assert forall|m2: Matcher| ir.emits(m2) implies text@ == unit_text(
                    name@,
                    pattern@,
                    kind_text@,
                    properties_text@,
                    m2,
                ) by {
                    lemma_emits_unique(*ir, m, m2);
                }
            }
            Ok(text)
        },
        Err(e) => Err(e),
    }
}

/// Compiles `pattern` into the source text of a unit named `name`. A syntax
/// error comes
/// exactly when the parser rejects the pattern; past the parser, the result
/// is what `unit_from_tree` gives on the parsed tree and the parser's
/// printed forms of it.
pub fn regex_to_code(name: &str, pattern: &str, options: ParseOptions) -> (r: Result<
    String,
    CompileError,
>)
    requires
        is_identifier(name@),
    ensures
        (r matches Err(CompileError::Syntax(_))) <==> !pattern_parses(
            pattern@,
            options.case_insensitive,
            options.multi_line,
            options.dot_matches_new_line,
            options.ignore_whitespace,
            options.unicode,
            options.crlf,
        ),
        r matches Ok(text) ==> exists|ir: Ir, k: Seq<char>, p: Seq<char>|
            ir.wf() && #[trigger] writes_unit(text@, name@, pattern@, ir, k, p),
        r matches Err(CompileError::Unsupported(kind)) ==> exists|ir: Ir|
            ir.wf() && !ir.supported() && kind == ir.unsupported_kind(),
{
    match parse_to_ir(pattern, options) {
        Err(e) => Err(e),
        Ok((ir, kind_text, properties_text)) => unit_from_tree(
            name,
            pattern,
            &ir,
            kind_text.as_str(),
            properties_text.as_str(),
        ),
    }
}

} // verus!
