use vstd::prelude::*;

verus! {

pub open spec fn digit_char(d: nat) -> char {
    "0123456789abcdef"@[d as int]
}

/// `n` in decimal, most significant digit first.
pub open spec fn decimal(n: nat) -> Seq<char>
    decreases n,
{
    if n < 10 {
        seq![digit_char(n)]
    } else {
        decimal(n / 10).push(digit_char(n % 10))
    }
}

/// `n` in hexadecimal with lower-case letters, most significant digit first.
pub open spec fn hexadecimal(n: nat) -> Seq<char>
    decreases n,
{
    if n < 16 {
        seq![digit_char(n)]
    } else {
        hexadecimal(n / 16).push(digit_char(n % 16))
    }
}

/// `n` in base `b`, for the two bases that the generated code uses.
pub open spec fn digits(n: nat, b: nat) -> Seq<char> {
    if b == 16 {
        hexadecimal(n)
    } else {
        decimal(n)
    }
}

/// Appends the characters of `s`.
pub fn push_str(out: &mut Vec<char>, s: &str)
    ensures
        final(out)@ == old(out)@ + s@,
{
    let n = s.unicode_len();
    let mut i: usize = 0;
    while i < n
        invariant
            n == s@.len(),
            i <= n,
            out@ == old(out)@ + s@.subrange(0, i as int),
        decreases n - i,
    {
        out.push(s.get_char(i));
        i += 1;
        assert(out@ =~= old(out)@ + s@.subrange(0, i as int));
    }
    assert(s@.subrange(0, n as int) =~= s@);
}

/// Appends `n` written in base `b`.
pub fn push_digits(out: &mut Vec<char>, n: usize, b: usize)
    requires
        b == 10 || b == 16,
    ensures
        final(out)@ == old(out)@ + digits(n as nat, b as nat),
    decreases n,
{
    proof {
        reveal_strlit("0123456789abcdef");
    }
    let table = "0123456789abcdef";
    if n >= b {
        assert(n / b < n) by (nonlinear_arith)
            requires
                n >= b,
                b >= 10,
        ;
        push_digits(out, n / b, b);
        out.push(table.get_char((n % b) as usize));
        assert(out@ =~= old(out)@ + digits(n as nat, b as nat));
    } else {
        out.push(table.get_char(n as usize));
        assert(out@ =~= old(out)@ + digits(n as nat, b as nat));
    }
}

/// What stands for one character inside a Rust string literal: a quote,
/// a backslash and the control characters that a literal cannot hold bare
/// are escaped, every other character stands for itself.
pub open spec fn escape_char(c: char) -> Seq<char> {
    if c == '"' {
        "\\\""@
    } else if c == '\\' {
        "\\\\"@
    } else if c == '\n' {
        "\\n"@
    } else if c == '\r' {
        "\\r"@
    } else if c == '\t' {
        "\\t"@
    } else if c == '\0' {
        "\\0"@
    } else {
        seq![c]
    }
}

/// The body of a string literal whose value is `t`.
pub open spec fn escaped(t: Seq<char>) -> Seq<char>
    decreases t.len(),
{
    if t.len() == 0 {
        Seq::empty()
    } else {
        escaped(t.drop_last()) + escape_char(t.last())
    }
}

/// A documentation attribute whose text is `t`, verbatim.
pub open spec fn doc_attr(t: Seq<char>) -> Seq<char> {
    "#[doc = \""@ + escaped(t) + "\"]\n"@
}

/// Appends a documentation attribute whose text is `t`.
pub fn push_doc_attr(out: &mut Vec<char>, t: &str)
    ensures
        final(out)@ == old(out)@ + doc_attr(t@),
{
    push_str(out, "#[doc = \"");
    let ghost start = out@;
    let n = t.unicode_len();
    let mut i: usize = 0;
    while i < n
        invariant
            n == t@.len(),
            i <= n,
            out@ == start + escaped(t@.subrange(0, i as int)),
        decreases n - i,
    {
        let c = t.get_char(i);
        if c == '"' {
            push_str(out, "\\\"");
        } else if c == '\\' {
            push_str(out, "\\\\");
        } else if c == '\n' {
            push_str(out, "\\n");
        } else if c == '\r' {
            push_str(out, "\\r");
        } else if c == '\t' {
            push_str(out, "\\t");
        } else if c == '\0' {
            push_str(out, "\\0");
        } else {
            out.push(c);
        }
        proof {
            assert(t@.subrange(0, i + 1).drop_last() =~= t@.subrange(0, i as int));
        }
        i += 1;
        assert(out@ =~= start + escaped(t@.subrange(0, i as int)));
    }
    assert(t@.subrange(0, n as int) =~= t@);
    push_str(out, "\"]\n");
    assert(out@ =~= old(out)@ + doc_attr(t@));
}

} // verus!
