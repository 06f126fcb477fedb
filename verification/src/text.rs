//! Indenting the lines of an error report for display.

use vstd::prelude::*;

verus! {

/// Relies on `String::push`: appends the given character to the end of the
/// string.
pub assume_specification[ String::push ](s: &mut String, c: char)
    ensures
        final (s)@ == old(s)@.push(c),
;

/// What one character contributes to the indented text: a newline gains a
/// tab after it, everything else stands unchanged.
pub open spec fn indent_piece(c: char) -> Seq<char> {
    if c == '\n' {
        seq!['\n', '\t']
    } else {
        seq![c]
    }
}

/// The text with a tab inserted after every newline, so that the lines after
/// the first read as continuations.
pub open spec fn indent_continuations(s: Seq<char>) -> Seq<char>
    decreases s.len(),
{
    if s.len() == 0 {
        Seq::empty()
    } else {
        indent_piece(s[0]) + indent_continuations(s.skip(1))
    }
}

/// Extending the input by one character extends the indented text by that
/// character's contribution.
proof fn lemma_indent_take_succ(s: Seq<char>, i: int)
    requires
        0 <= i < s.len(),
    ensures
        indent_continuations(s.take(i + 1)) == indent_continuations(s.take(i)) + indent_piece(
            s[i],
        ),
    decreases i,
{
    if i == 0 {
        assert(s.take(1).skip(1) =~= Seq::<char>::empty());
        assert(s.take(0) =~= Seq::<char>::empty());
        assert(indent_continuations(s.take(1)) == indent_piece(s[0]) + indent_continuations(
            Seq::<char>::empty(),
        ));
        assert(indent_continuations(s.take(0)) + indent_piece(s[0]) =~= indent_piece(s[0])
            + Seq::<char>::empty());
    } else {
        let t = s.skip(1);
        lemma_indent_take_succ(t, i - 1);
        assert(s.take(i + 1).skip(1) =~= t.take(i));
        assert(s.take(i).skip(1) =~= t.take(i - 1));
        assert(indent_continuations(s.take(i + 1)) == indent_piece(s[0]) + indent_continuations(
            t.take(i),
        ));
        assert(indent_continuations(s.take(i)) == indent_piece(s[0]) + indent_continuations(
            t.take(i - 1),
        ));
        assert((indent_piece(s[0]) + indent_continuations(t.take(i - 1))) + indent_piece(s[i])
            =~= indent_piece(s[0]) + (indent_continuations(t.take(i - 1)) + indent_piece(s[i])));
    }
}

/// Rewrites a message so that each line after the first is indented by one
/// tab: a tab is inserted after every newline.
pub fn indent_continuation_lines(s: &str) -> (r: String)
    ensures
        r@ == indent_continuations(s@),
{
    let n = s.unicode_len();
    let mut out = String::new();
    let mut i: usize = 0;
    while i < n
        invariant
            n == s@.len(),
            i <= n,
            out@ == indent_continuations(s@.take(i as int)),
        decreases n - i,
    {
        let ghost prev = out@;
        let c = s.get_char(i);
        if c == '\n' {
            out.append("\n\t");
            proof {
                reveal_strlit("\n\t");
                assert(out@ =~= prev + indent_piece(c));
            }
        } else {
            out.push(c);
            proof {
                assert(out@ =~= prev + indent_piece(c));
            }
        }
        proof {
            lemma_indent_take_succ(s@, i as int);
        }
        i = i + 1;
    }
    proof {
        assert(s@.take(n as int) =~= s@);
    }
    out
}

} // verus!
