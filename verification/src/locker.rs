//! The session locker's verified half: reading the session manager's
//! session-list output into the session identifiers to lock.
//!
//! The application runs the session-manager commands; per-session lock
//! failures are skipped there, never aborting the remaining sessions, while a
//! failure to list sessions at all aborts the whole attempt.

use vstd::prelude::*;

use crate::text::{tokens_of, lines_of, split_tokens, split_lines};

verus! {

/// The identifiers on a sequence of table lines: the first word of each line
/// that has one.
pub open spec fn ids_of_lines(ls: Seq<Seq<char>>) -> Seq<Seq<char>>
    decreases ls.len(),
{
    if ls.len() == 0 {
        Seq::empty()
    } else {
        (if tokens_of(ls[0]).len() > 0 {
            seq![tokens_of(ls[0])[0]]
        } else {
            Seq::<Seq<char>>::empty()
        }) + ids_of_lines(ls.drop_first())
    }
}

/// The session identifiers in a session-list output: the first word of every
/// line after the header line; blank lines are skipped.
pub open spec fn session_ids_of(out: Seq<char>) -> Seq<Seq<char>> {
    let ls = lines_of(out);
    if ls.len() == 0 {
        Seq::empty()
    } else {
        ids_of_lines(ls.drop_first())
    }
}

proof fn lemma_ids_snoc(ls: Seq<Seq<char>>, l: Seq<char>)
    ensures
        ids_of_lines(ls.push(l)) == ids_of_lines(ls) + (if tokens_of(l).len() > 0 {
            seq![tokens_of(l)[0]]
        } else {
            Seq::<Seq<char>>::empty()
        }),
    decreases ls.len(),
{
    let tail = if tokens_of(l).len() > 0 {
        seq![tokens_of(l)[0]]
    } else {
        Seq::<Seq<char>>::empty()
    };
    if ls.len() == 0 {
        assert(ls.push(l).len() == 1);
        assert(ls.push(l)[0] == l);
        assert(ls.push(l).drop_first() =~= Seq::<Seq<char>>::empty());
        assert(ids_of_lines(ls.push(l)) == tail + ids_of_lines(ls.push(l).drop_first()));
        assert(ids_of_lines(ls.push(l).drop_first()) =~= Seq::<Seq<char>>::empty());
        assert(ids_of_lines(ls.push(l)) =~= tail);
        assert(ids_of_lines(ls) + tail =~= tail);
    } else {
        assert(ls.push(l).drop_first() =~= ls.drop_first().push(l));
        lemma_ids_snoc(ls.drop_first(), l);
        assert(ls.push(l)[0] == ls[0]);
        assert(ids_of_lines(ls.push(l)) =~= ids_of_lines(ls) + tail);
    }
}

/// Reads the session identifiers out of a session-list output.
pub fn parse_session_ids(output: &str) -> (r: Vec<String>)
    ensures
        r.deep_view() == session_ids_of(output@),
{
    let lines = split_lines(output);
    let ghost ls = lines_of(output@);
    let mut ids: Vec<String> = Vec::new();
    let n = lines.len();
    if n == 0 {
        proof {
            assert(ids.deep_view() =~= session_ids_of(output@));
        }
        return ids;
    }
    let mut i: usize = 1;
    proof {
        assert(ls.subrange(1, 1) =~= Seq::<Seq<char>>::empty());
    }
    while i < n
        invariant
            n == ls.len(),
            1 <= i <= n,
            lines.deep_view() == ls,
            ids.deep_view() =~= ids_of_lines(ls.subrange(1, i as int)),
        decreases n - i,
    {
        let mut toks = split_tokens(lines[i].as_str());
        proof {
            assert(lines@[i as int]@ == ls[i as int]);
        }
        if toks.len() > 0 {
            let first = toks.remove(0);
            ids.push(first);
            proof {
                assert(first@ == tokens_of(ls[i as int])[0]);
            }
        }
        proof {
            lemma_ids_snoc(ls.subrange(1, i as int), ls[i as int]);
            assert(ls.subrange(1, i as int).push(ls[i as int]) =~= ls.subrange(1, i as int + 1));
            assert(ids.deep_view() =~= ids_of_lines(ls.subrange(1, i as int + 1)));
        }
        i = i + 1;
    }
    proof {
        assert(ls.subrange(1, n as int) =~= ls.drop_first());
        assert(ids.deep_view() =~= session_ids_of(output@));
    }
    ids
}

} // verus!
