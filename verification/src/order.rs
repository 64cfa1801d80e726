use vstd::prelude::*;
use crate::post::PostView;

verus! {

/// Lexicographic order on character sequences, comparing scalar values.
/// RFC 3339 timestamps of equal offset compare chronologically under this
/// order, which is also how the record store's own text ordering ranks
/// them.
pub open spec fn lex_le(a: Seq<char>, b: Seq<char>) -> bool
    decreases a.len(),
{
    if a.len() == 0 {
        true
    } else if b.len() == 0 {
        false
    } else if (a[0] as u32) < (b[0] as u32) {
        true
    } else if (b[0] as u32) < (a[0] as u32) {
        false
    } else {
        lex_le(a.drop_first(), b.drop_first())
    }
}

/// The feed's display order: most recent first, so each record's date is
/// at most the date of every record before it.
pub open spec fn sorted_desc(s: Seq<PostView>) -> bool {
    forall|i: int, j: int| 0 <= i < j < s.len() ==> lex_le(s[j].date, s[i].date)
}

pub proof fn lemma_lex_le_refl(a: Seq<char>)
    ensures
        lex_le(a, a),
    decreases a.len(),
{
    if a.len() != 0 {
        lemma_lex_le_refl(a.drop_first());
    }
}

pub proof fn lemma_lex_le_total(a: Seq<char>, b: Seq<char>)
    ensures
        lex_le(a, b) || lex_le(b, a),
    decreases a.len(),
{
    if a.len() != 0 && b.len() != 0 && (a[0] as u32) == (b[0] as u32) {
        lemma_lex_le_total(a.drop_first(), b.drop_first());
    }
}

pub proof fn lemma_lex_le_trans(a: Seq<char>, b: Seq<char>, c: Seq<char>)
    requires
        lex_le(a, b),
        lex_le(b, c),
    ensures
        lex_le(a, c),
    decreases a.len(),
{
    if a.len() != 0 && b.len() != 0 && c.len() != 0 && (a[0] as u32) == (b[0] as u32) && (b[0] as u32) == (c[0] as u32) {
        lemma_lex_le_trans(a.drop_first(), b.drop_first(), c.drop_first());
    }
}

/// Decides `lex_le` on two strings, character by character.
pub fn date_le(a: &String, b: &String) -> (r: bool)
    ensures
        r == lex_le(a@, b@),
{
    let sa = a.as_str();
    let sb = b.as_str();
    let alen = sa.unicode_len();
    let blen = sb.unicode_len();
    let mut i: usize = 0;
    proof {
        assert(sa@.skip(0) =~= sa@);
        assert(sb@.skip(0) =~= sb@);
    }
    loop
        invariant
            i <= alen,
            i <= blen,
            alen == sa@.len(),
            blen == sb@.len(),
            sa@ == a@,
            sb@ == b@,
            lex_le(a@, b@) == lex_le(sa@.skip(i as int), sb@.skip(i as int)),
        decreases alen - i,
    {
        if i == alen {
            proof {
                assert(sa@.skip(i as int).len() == 0);
            }
            return true;
        }
        if i == blen {
            proof {
                assert(sb@.skip(i as int).len() == 0);
                assert(sa@.skip(i as int).len() > 0);
            }
            return false;
        }
        let ca = sa.get_char(i);
        let cb = sb.get_char(i);
        proof {
            assert(sa@.skip(i as int)[0] == sa@[i as int]);
            assert(sb@.skip(i as int)[0] == sb@[i as int]);
        }
        if (ca as u32) < (cb as u32) {
            return true;
        }
        if (cb as u32) < (ca as u32) {
            return false;
        }
        proof {
            assert(sa@.skip(i as int).drop_first() =~= sa@.skip(i + 1));
            assert(sb@.skip(i as int).drop_first() =~= sb@.skip(i + 1));
        }
        i = i + 1;
    }
}

} // verus!
