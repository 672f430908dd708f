//! Escaping of arbitrary text for embedding in a single-quoted string
//! literal of a generated script expression.

use vstd::prelude::*;
use vstd::string::StrSliceExecFns;
use vstd::string::StringExecFns;

verus! {

/// How one character is written inside a single-quoted script literal:
/// backslashes and single quotes gain a leading backslash, every other
/// character stands as it is.
pub open spec fn escaped_char(c: char) -> Seq<char> {
    if c == '\\' {
        seq!['\\', '\\']
    } else if c == '\'' {
        seq!['\\', '\'']
    } else {
        seq![c]
    }
}

/// The escaped form of a whole string: each character replaced by its
/// escaped form, in order.
pub open spec fn escaped(s: Seq<char>) -> Seq<char>
    decreases s.len(),
{
    if s.len() == 0 {
        Seq::<char>::empty()
    } else {
        escaped_char(s[0]) + escaped(s.subrange(1, s.len() as int))
    }
}

/// Reading an escaped string back: a backslash followed by any character
/// stands for that character; everything else stands for itself.
pub open spec fn unescaped(s: Seq<char>) -> Seq<char>
    decreases s.len(),
{
    if s.len() == 0 {
        Seq::<char>::empty()
    } else if s[0] == '\\' && s.len() >= 2 {
        seq![s[1]] + unescaped(s.subrange(2, s.len() as int))
    } else {
        seq![s[0]] + unescaped(s.subrange(1, s.len() as int))
    }
}

/// Whether a character sequence can stand between single quotes without
/// ending the literal early: every backslash starts a two-character escape,
/// and no single quote appears outside such an escape.
pub open spec fn fits_single_quoted_literal(s: Seq<char>) -> bool
    decreases s.len(),
{
    if s.len() == 0 {
        true
    } else if s[0] == '\\' {
        s.len() >= 2 && fits_single_quoted_literal(s.subrange(2, s.len() as int))
    } else {
        s[0] != '\'' && fits_single_quoted_literal(s.subrange(1, s.len() as int))
    }
}

/// The first replacement pass taken alone: every backslash doubled,
/// everything else untouched.
pub open spec fn backslashes_doubled(s: Seq<char>) -> Seq<char>
    decreases s.len(),
{
    if s.len() == 0 {
        Seq::<char>::empty()
    } else {
        (if s[0] == '\\' {
            seq!['\\', '\\']
        } else {
            seq![s[0]]
        }) + backslashes_doubled(s.subrange(1, s.len() as int))
    }
}

/// The second replacement pass taken alone: every single quote given a
/// leading backslash, everything else untouched.
pub open spec fn quotes_escaped(s: Seq<char>) -> Seq<char>
    decreases s.len(),
{
    if s.len() == 0 {
        Seq::<char>::empty()
    } else {
        (if s[0] == '\'' {
            seq!['\\', '\'']
        } else {
            seq![s[0]]
        }) + quotes_escaped(s.subrange(1, s.len() as int))
    }
}

/// Escaping is exactly the two replacement passes in their required
/// order: backslashes doubled first, quotes escaped second. (The backslash
/// put in front of a quote by the second pass is never doubled, because
/// the doubling has already happened.)
pub proof fn lemma_escape_is_both_passes(s: Seq<char>)
    ensures
        quotes_escaped(backslashes_doubled(s)) == escaped(s),
    decreases s.len(),
{
    if s.len() == 0 {
    } else {
        let rest = s.subrange(1, s.len() as int);
        lemma_escape_is_both_passes(rest);
        let d = backslashes_doubled(s);
        if s[0] == '\\' {
            reveal_with_fuel(quotes_escaped, 3);
            assert(d =~= seq!['\\'] + (seq!['\\'] + backslashes_doubled(rest)));
            assert(d.subrange(1, d.len() as int) =~= seq!['\\'] + backslashes_doubled(rest));
            let d1 = seq!['\\'] + backslashes_doubled(rest);
            assert(d[0] == '\\');
            assert(d1[0] == '\\');
            assert(d1.subrange(1, d1.len() as int) =~= backslashes_doubled(rest));
            assert(quotes_escaped(d) =~= seq!['\\'] + (seq!['\\'] + escaped(rest)));
            assert(seq!['\\'] + (seq!['\\'] + escaped(rest)) =~= escaped_char('\\') + escaped(
                rest,
            ));
        } else {
            assert(d =~= seq![s[0]] + backslashes_doubled(rest));
            assert(d.subrange(1, d.len() as int) =~= backslashes_doubled(rest));
            if s[0] == '\'' {
                assert(quotes_escaped(d) =~= escaped_char(s[0]) + escaped(rest));
            } else {
                assert(quotes_escaped(d) =~= seq![s[0]] + escaped(rest));
            }
        }
        assert(quotes_escaped(backslashes_doubled(s)) =~= escaped(s));
    }
}

proof fn lemma_escaped_snoc(s: Seq<char>, c: char)
    ensures
        escaped(s.push(c)) == escaped(s) + escaped_char(c),
    decreases s.len(),
{
    let t = s.push(c);
    if s.len() == 0 {
        assert(t[0] == c);
        assert(t.subrange(1, t.len() as int) =~= Seq::<char>::empty());
        assert(escaped(t.subrange(1, t.len() as int)) == Seq::<char>::empty());
        assert(escaped(t) =~= escaped(s) + escaped_char(c));
    } else {
        let s_rest = s.subrange(1, s.len() as int);
        assert(t.subrange(1, t.len() as int) =~= s_rest.push(c));
        lemma_escaped_snoc(s_rest, c);
        assert(escaped_char(s[0]) + (escaped(s_rest) + escaped_char(c)) =~= (escaped_char(s[0])
            + escaped(s_rest)) + escaped_char(c));
        assert(escaped(t) =~= escaped(s) + escaped_char(c));
    }
}

/// Escaping is reversible: reading the escaped form of any string back
/// recovers the string, so no information is lost by embedding.
pub proof fn lemma_escape_round_trip(s: Seq<char>)
    ensures
        unescaped(escaped(s)) == s,
    decreases s.len(),
{
    if s.len() == 0 {
    } else {
        let rest = s.subrange(1, s.len() as int);
        lemma_escape_round_trip(rest);
        let e = escaped(s);
        if s[0] == '\\' || s[0] == '\'' {
            assert(e[0] == '\\');
            assert(e[1] == s[0]);
            assert(e.subrange(2, e.len() as int) =~= escaped(rest));
            assert(seq![s[0]] + rest =~= s);
        } else {
            assert(e[0] == s[0]);
            assert(e.subrange(1, e.len() as int) =~= escaped(rest));
            assert(seq![s[0]] + rest =~= s);
        }
    }
}

/// The escaped form of any string is safe to re-embed: it contains no
/// unescaped single quote and no dangling backslash, so splicing it between
/// single quotes yields a well-formed literal.
pub proof fn lemma_escape_fits_literal(s: Seq<char>)
    ensures
        fits_single_quoted_literal(escaped(s)),
    decreases s.len(),
{
    if s.len() == 0 {
    } else {
        let rest = s.subrange(1, s.len() as int);
        lemma_escape_fits_literal(rest);
        let e = escaped(s);
        if s[0] == '\\' || s[0] == '\'' {
            assert(e[0] == '\\');
            assert(e.subrange(2, e.len() as int) =~= escaped(rest));
        } else {
            assert(e[0] == s[0]);
            assert(e.subrange(1, e.len() as int) =~= escaped(rest));
        }
    }
}

/// Escapes `text` for embedding in a single-quoted string literal of a
/// generated script expression: every backslash is doubled, then every
/// single quote gains a leading backslash.
///
/// This is a minimal escaper: it is meant only for single-quoted literals
/// and leaves other metacharacters (line terminators included) alone.
pub fn escape_for_single_quote_string(text: &str) -> (r: String)
    ensures
        r@ == escaped(text@),
{
    let n = text.unicode_len();
    let mut out = String::new();
    let mut i: usize = 0;
    while i < n
        invariant
            n == text@.len(),
            i <= n,
            out@ == escaped(text@.subrange(0, i as int)),
        decreases n - i,
    {
        let c = text.get_char(i);
        proof {
            lemma_escaped_snoc(text@.subrange(0, i as int), text@[i as int]);
            assert(text@.subrange(0, i + 1) =~= text@.subrange(0, i as int).push(text@[i as int]));
        }
        if c == '\\' {
            out.append("\\\\");
            proof {
                reveal_strlit("\\\\");
                assert(("\\\\")@ =~= escaped_char(c));
            }
        } else if c == '\'' {
            out.append("\\'");
            proof {
                reveal_strlit("\\'");
                assert(("\\'")@ =~= escaped_char(c));
            }
        } else {
            let piece = text.substring_char(i, i + 1);
            out.append(piece);
            proof {
                assert(piece@ =~= escaped_char(c));
            }
        }
        i = i + 1;
    }
    proof {
        assert(text@.subrange(0, n as int) =~= text@);
    }
    out
}

} // verus!
