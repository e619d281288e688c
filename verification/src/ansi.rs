//! A small theory of SGR escape sequences (the `\x1B[...m` runs that a
//! terminal interprets as color and emphasis), together with an executable
//! function that removes them. The styled strings this library builds are
//! plain text interleaved with such sequences, so "what a message says" is
//! always "the string with its styling stripped".

use vstd::prelude::*;

verus! {

/// Holds when the string contains no escape character at all, i.e. it is
/// plain text with no styling in it.
pub open spec fn no_esc(s: Seq<char>) -> bool {
    forall|i: int| 0 <= i < s.len() ==> s[i] != '\u{1b}'
}

/// The string with every styling sequence removed: an escape character
/// starts a sequence, which runs up to and including the next `m`.
pub open spec fn strip_ansi(s: Seq<char>) -> Seq<char>
    decreases s.len(),
{
    if s.len() == 0 {
        Seq::empty()
    } else if s[0] == '\u{1b}' {
        strip_esc(s.drop_first())
    } else {
        seq![s[0]] + strip_ansi(s.drop_first())
    }
}

/// Companion of `strip_ansi` for a position inside a styling sequence:
/// discards characters up to and including the terminating `m`.
pub open spec fn strip_esc(s: Seq<char>) -> Seq<char>
    decreases s.len(),
{
    if s.len() == 0 {
        Seq::empty()
    } else if s[0] == 'm' {
        strip_ansi(s.drop_first())
    } else {
        strip_esc(s.drop_first())
    }
}

/// Holds when every styling sequence in the string is complete: each escape
/// character is eventually followed by a terminating `m`. Concatenating a
/// plain suffix after such a string cannot be swallowed by an open sequence.
pub open spec fn ansi_wf(s: Seq<char>) -> bool
    decreases s.len(),
{
    if s.len() == 0 {
        true
    } else if s[0] == '\u{1b}' {
        wf_esc(s.drop_first())
    } else {
        ansi_wf(s.drop_first())
    }
}

/// Companion of `ansi_wf` for a position inside a styling sequence.
pub open spec fn wf_esc(s: Seq<char>) -> bool
    decreases s.len(),
{
    if s.len() == 0 {
        false
    } else if s[0] == 'm' {
        ansi_wf(s.drop_first())
    } else {
        wf_esc(s.drop_first())
    }
}

/// Plain text strips to itself, and is well formed.
pub proof fn lemma_no_esc_strip(s: Seq<char>)
    requires
        no_esc(s),
    ensures
        ansi_wf(s),
        strip_ansi(s) == s,
    decreases s.len(),
{
    if s.len() == 0 {
        assert(strip_ansi(s) =~= s);
    } else {
        assert(no_esc(s.drop_first()));
        lemma_no_esc_strip(s.drop_first());
        assert(strip_ansi(s) =~= s);
    }
}

/// Stripping distributes over concatenation when the first part has only
/// complete styling sequences; well-formedness is preserved as well.
pub proof fn lemma_strip_concat(a: Seq<char>, b: Seq<char>)
    requires
        ansi_wf(a),
    ensures
        strip_ansi(a + b) == strip_ansi(a) + strip_ansi(b),
        ansi_wf(b) ==> ansi_wf(a + b),
    decreases a.len(),
{
    if a.len() == 0 {
        assert(a + b =~= b);
        assert(strip_ansi(a) + strip_ansi(b) =~= strip_ansi(b));
    } else {
        assert((a + b).len() > 0);
        assert((a + b)[0] == a[0]);
        assert((a + b).drop_first() =~= a.drop_first() + b);
        if a[0] == '\u{1b}' {
            lemma_strip_esc_concat(a.drop_first(), b);
        } else {
            lemma_strip_concat(a.drop_first(), b);
            assert(strip_ansi(a + b) =~= strip_ansi(a) + strip_ansi(b));
        }
    }
}

/// Companion of `lemma_strip_concat` for a position inside a styling
/// sequence of the first part.
proof fn lemma_strip_esc_concat(a: Seq<char>, b: Seq<char>)
    requires
        wf_esc(a),
    ensures
        strip_esc(a + b) == strip_esc(a) + strip_ansi(b),
        ansi_wf(b) ==> wf_esc(a + b),
    decreases a.len(),
{
    assert((a + b)[0] == a[0]);
    assert((a + b).drop_first() =~= a.drop_first() + b);
    if a[0] == 'm' {
        lemma_strip_concat(a.drop_first(), b);
    } else {
        lemma_strip_esc_concat(a.drop_first(), b);
    }
}

/// Removes every styling sequence from the text, leaving the plain words.
pub fn strip_styles(s: &str) -> (r: String)
    ensures
        r@ == strip_ansi(s@),
{
    let n = s.unicode_len();
    let mut out = String::new();
    let mut in_seq = false;
    let mut i: usize = 0;
    proof {
        assert(s@.skip(0) =~= s@);
        assert(out@ + strip_ansi(s@) =~= strip_ansi(s@));
    }
    while i < n
        invariant
            n == s@.len(),
            i <= n,
            !in_seq ==> out@ + strip_ansi(s@.skip(i as int)) == strip_ansi(s@),
            in_seq ==> out@ + strip_esc(s@.skip(i as int)) == strip_ansi(s@),
        decreases n - i,
    {
        let c = s.get_char(i);
        proof {
            assert(s@.skip(i as int)[0] == s@[i as int]);
            assert(s@.skip(i as int).drop_first() =~= s@.skip(i as int + 1));
        }
        let ghost prev = out@;
        if in_seq {
            if c == 'm' {
                in_seq = false;
            }
        } else {
            if c == '\u{1b}' {
                in_seq = true;
            } else {
                crate::paint::push_char(&mut out, c);
                proof {
                    assert(out@ + strip_ansi(s@.skip(i as int + 1)) =~= prev + strip_ansi(
                        s@.skip(i as int),
                    ));
                }
            }
        }
        i = i + 1;
    }
    proof {
        assert(s@.skip(n as int) =~= Seq::<char>::empty());
        assert(out@ + Seq::<char>::empty() =~= out@);
    }
    out
}

} // verus!
