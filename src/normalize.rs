//! Normalisation of a script's result text: the two-character escapes `\r`
//! and `\n` written out literally become the control characters they name.
use vstd::prelude::*;
use crate::text::{chars_of, push_char};

verus! {

/// `s` with every literal backslash-`r` pair replaced by a carriage return and
/// every literal backslash-`n` pair replaced by a line feed, scanning from the
/// left; every other character is kept.
pub open spec fn normalized(s: Seq<char>) -> Seq<char>
    decreases s.len(),
{
    if s.len() == 0 {
        s
    } else if s.len() >= 2 && s[0] == '\\' && s[1] == 'r' {
        seq!['\r'] + normalized(s.subrange(2, s.len() as int))
    } else if s.len() >= 2 && s[0] == '\\' && s[1] == 'n' {
        seq!['\n'] + normalized(s.subrange(2, s.len() as int))
    } else {
        seq![s[0]] + normalized(s.drop_first())
    }
}

/// `s` holds no backslash directly followed by `r` or `n`.
pub open spec fn has_no_escape(s: Seq<char>) -> bool {
    forall|i: int| 0 <= i < s.len() - 1 && #[trigger] s[i] == '\\' ==> s[i + 1] != 'r' && s[i + 1]
        != 'n'
}

/// Text that holds no literal `\r` or `\n` escape, real control characters
/// included, comes out of the normalisation unchanged.
pub proof fn lemma_normalized_identity(s: Seq<char>)
    requires
        has_no_escape(s),
    ensures
        normalized(s) == s,
    decreases s.len(),
{
    if s.len() > 0 {
        let t = s.drop_first();
        assert(has_no_escape(t)) by {
            assert forall|i: int| 0 <= i < t.len() - 1 && #[trigger] t[i] == '\\' implies t[i + 1]
                != 'r' && t[i + 1] != 'n' by {
                assert(s[i + 1] == t[i]);
            }
        }
        lemma_normalized_identity(t);
        assert(seq![s[0]] + t =~= s);
    }
}

/// Normalisation distributes over a split between a processed prefix and the
/// rest, when the prefix ends on a character boundary of the scan.
proof fn lemma_normalized_step(v: Seq<char>, i: int)
    requires
        0 <= i < v.len(),
    ensures
        ({
            let rest = v.subrange(i, v.len() as int);
            &&& (i + 1 < v.len() && v[i] == '\\' && v[i + 1] == 'r') ==> normalized(rest) == seq![
                '\r',
            ] + normalized(v.subrange(i + 2, v.len() as int))
            &&& (i + 1 < v.len() && v[i] == '\\' && v[i + 1] == 'n') ==> normalized(rest) == seq![
                '\n',
            ] + normalized(v.subrange(i + 2, v.len() as int))
            &&& !(i + 1 < v.len() && v[i] == '\\' && (v[i + 1] == 'r' || v[i + 1] == 'n'))
                ==> normalized(rest) == seq![v[i]] + normalized(v.subrange(i + 1, v.len() as int))
        }),
{
    let rest = v.subrange(i, v.len() as int);
    if i + 2 <= v.len() {
        assert(rest.subrange(2, rest.len() as int) =~= v.subrange(i + 2, v.len() as int));
    }
    assert(rest.drop_first() =~= v.subrange(i + 1, v.len() as int));
}

/// Replaces each literal `\r` escape in `s` by a carriage return and each
/// literal `\n` escape by a line feed.
pub fn normalize_result(s: &str) -> (r: String)
    ensures
        r@ == normalized(s@),
{
    let v = chars_of(s);
    let mut out = String::new();
    let mut i: usize = 0;
    assert(v@.subrange(0, v@.len() as int) =~= s@);
    while i < v.len()
        invariant
            v@ == s@,
            i <= v.len(),
            out@ + normalized(v@.subrange(i as int, v@.len() as int)) == normalized(s@),
        decreases v.len() - i,
    {
        proof {
            lemma_normalized_step(v@, i as int);
        }
        if i + 1 < v.len() && v[i] == '\\' && v[i + 1] == 'r' {
            push_char(&mut out, '\r');
            i = i + 2;
        } else if i + 1 < v.len() && v[i] == '\\' && v[i + 1] == 'n' {
            push_char(&mut out, '\n');
            i = i + 2;
        } else {
            push_char(&mut out, v[i]);
            i = i + 1;
        }
        proof {
            assert(out@ + normalized(v@.subrange(i as int, v@.len() as int)) =~= normalized(s@));
        }
    }
    proof {
        assert(v@.subrange(i as int, v@.len() as int) =~= Seq::<char>::empty());
        assert(out@ =~= out@ + Seq::<char>::empty());
    }
    out
}

} // verus!
