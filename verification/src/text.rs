//! Whitespace handling for the wire protocol: tokenizing a command into
//! whitespace-delimited words, trimming, splitting into lines, and plain
//! character-wise string equality.

use vstd::prelude::*;

verus! {

/// The whitespace characters the protocol recognizes as separators.
pub open spec fn is_ws_char(c: char) -> bool {
    c == ' ' || c == '\t' || c == '\n' || c == '\r'
}

pub fn is_ws(c: char) -> (r: bool)
    ensures
        r == is_ws_char(c),
{
    c == ' ' || c == '\t' || c == '\n' || c == '\r'
}

/// Length of the leading run of non-whitespace characters.
pub open spec fn token_len(s: Seq<char>) -> nat
    decreases s.len(),
{
    if s.len() == 0 || is_ws_char(s[0]) {
        0
    } else {
        1 + token_len(s.drop_first())
    }
}

pub proof fn lemma_token_len_le(s: Seq<char>)
    ensures
        token_len(s) <= s.len(),
    decreases s.len(),
{
    if s.len() != 0 && !is_ws_char(s[0]) {
        lemma_token_len_le(s.drop_first());
    }
}

/// The whitespace-delimited words of a text, in order.
pub open spec fn tokens_of(s: Seq<char>) -> Seq<Seq<char>>
    decreases s.len(),
    via tokens_of_dec
{
    if s.len() == 0 {
        Seq::empty()
    } else if is_ws_char(s[0]) {
        tokens_of(s.drop_first())
    } else {
        seq![s.take(token_len(s) as int)] + tokens_of(s.skip(token_len(s) as int))
    }
}

#[via_fn]
proof fn tokens_of_dec(s: Seq<char>) {
    if s.len() != 0 && !is_ws_char(s[0]) {
        lemma_token_len_le(s);
    }
}

/// Skipping one whitespace character does not change the token list.
proof fn lemma_tokens_ws_step(s: Seq<char>, i: int)
    requires
        0 <= i < s.len(),
        is_ws_char(s[i]),
    ensures
        tokens_of(s.skip(i)) == tokens_of(s.skip(i + 1)),
{
    assert(s.skip(i).drop_first() =~= s.skip(i + 1));
}

/// A maximal non-whitespace run `[i, j)` is the leading token of `s.skip(i)`.
proof fn lemma_token_run(s: Seq<char>, i: int, j: int)
    requires
        0 <= i < j <= s.len(),
        forall|k: int| i <= k < j ==> !is_ws_char(s[k]),
        j == s.len() || is_ws_char(s[j]),
    ensures
        token_len(s.skip(i)) == j - i,
        tokens_of(s.skip(i)) == seq![s.subrange(i, j)] + tokens_of(s.skip(j)),
    decreases j - i,
{
    lemma_token_len_run(s, i, j);
    let t = s.skip(i);
    assert(t.take(token_len(t) as int) =~= s.subrange(i, j));
    assert(t.skip(token_len(t) as int) =~= s.skip(j));
}

proof fn lemma_token_len_run(s: Seq<char>, i: int, j: int)
    requires
        0 <= i <= j <= s.len(),
        forall|k: int| i <= k < j ==> !is_ws_char(s[k]),
        j == s.len() || is_ws_char(s[j]),
    ensures
        token_len(s.skip(i)) == j - i,
    decreases j - i,
{
    let t = s.skip(i);
    if i == j {
        if j < s.len() {
            assert(is_ws_char(t[0]));
        }
    } else {
        assert(!is_ws_char(t[0]));
        assert(t.drop_first() =~= s.skip(i + 1));
        lemma_token_len_run(s, i + 1, j);
    }
}

/// Splits a text into its whitespace-delimited words.
pub fn split_tokens(s: &str) -> (r: Vec<String>)
    ensures
        r.deep_view() == tokens_of(s@),
{
    let n = s.unicode_len();
    let mut r: Vec<String> = Vec::new();
    let mut i: usize = 0;
    proof {
        assert(s@.skip(0) =~= s@);
        assert(r.deep_view() =~= Seq::<Seq<char>>::empty());
    }
    while i < n
        invariant
            n == s@.len(),
            i <= n,
            tokens_of(s@) == r.deep_view() + tokens_of(s@.skip(i as int)),
        decreases n - i,
    {
        let c = s.get_char(i);
        if is_ws(c) {
            proof {
                lemma_tokens_ws_step(s@, i as int);
            }
            i = i + 1;
        } else {
            let start = i;
            i = i + 1;
            while i < n && !is_ws(s.get_char(i))
                invariant
                    n == s@.len(),
                    start < i <= n,
                    forall|k: int| start <= k < i ==> !is_ws_char(s@[k]),
                decreases n - i,
            {
                i = i + 1;
            }
            let tok = s.substring_char(start, i);
            let tok_string = tok.to_owned();
            r.push(tok_string);
            proof {
                lemma_token_run(s@, start as int, i as int);
                assert(r.deep_view() =~= r.deep_view().drop_last().push(s@.subrange(
                    start as int,
                    i as int,
                )));
                assert(tokens_of(s@) =~= r.deep_view() + tokens_of(s@.skip(i as int)));
            }
        }
    }
    proof {
        assert(s@.skip(n as int) =~= Seq::<char>::empty());
        assert(tokens_of(s@) =~= r.deep_view());
    }
    r
}

/// Character-wise string equality, decided without trusting any outside code.
pub fn str_eq(a: &str, b: &str) -> (r: bool)
    ensures
        r == (a@ == b@),
{
    let an = a.unicode_len();
    let bn = b.unicode_len();
    if an != bn {
        return false;
    }
    let mut i: usize = 0;
    while i < an
        invariant
            an == a@.len(),
            an == b@.len(),
            i <= an,
            forall|j: int| 0 <= j < i ==> a@[j] == b@[j],
        decreases an - i,
    {
        if a.get_char(i) != b.get_char(i) {
            return false;
        }
        i = i + 1;
    }
    proof {
        assert(a@ =~= b@);
    }
    true
}

/// Length of the leading run of whitespace characters.
pub open spec fn ws_prefix_len(s: Seq<char>) -> nat
    decreases s.len(),
{
    if s.len() == 0 || !is_ws_char(s[0]) {
        0
    } else {
        1 + ws_prefix_len(s.drop_first())
    }
}

/// Length of the trailing run of whitespace characters.
pub open spec fn ws_suffix_len(s: Seq<char>) -> nat
    decreases s.len(),
{
    if s.len() == 0 || !is_ws_char(s.last()) {
        0
    } else {
        1 + ws_suffix_len(s.drop_last())
    }
}

/// A text with its leading and trailing whitespace removed.
pub open spec fn trim_of(s: Seq<char>) -> Seq<char> {
    let t = s.skip(ws_prefix_len(s) as int);
    t.take(t.len() - ws_suffix_len(t))
}

proof fn lemma_ws_prefix_run(s: Seq<char>, a: int)
    requires
        0 <= a <= s.len(),
        forall|k: int| 0 <= k < a ==> is_ws_char(s[k]),
        a == s.len() || !is_ws_char(s[a]),
    ensures
        ws_prefix_len(s) == a,
    decreases a,
{
    if a == 0 {
    } else {
        assert(is_ws_char(s[0]));
        assert(s.drop_first() =~= s.skip(1));
        lemma_ws_prefix_run(s.drop_first(), a - 1);
    }
}

proof fn lemma_ws_suffix_run(s: Seq<char>, b: int)
    requires
        0 <= b <= s.len(),
        forall|k: int| b <= k < s.len() ==> is_ws_char(s[k]),
        b == 0 || !is_ws_char(s[b - 1]),
    ensures
        ws_suffix_len(s) == s.len() - b,
    decreases s.len() - b,
{
    if b == s.len() {
    } else {
        assert(is_ws_char(s.last()));
        lemma_ws_suffix_run(s.drop_last(), b);
    }
}

/// Removes leading and trailing whitespace.
pub fn trim_ws(s: &str) -> (r: String)
    ensures
        r@ == trim_of(s@),
{
    let n = s.unicode_len();
    let mut a: usize = 0;
    while a < n && is_ws(s.get_char(a))
        invariant
            n == s@.len(),
            a <= n,
            forall|k: int| 0 <= k < a ==> is_ws_char(s@[k]),
        decreases n - a,
    {
        a = a + 1;
    }
    let mut b: usize = n;
    while b > a && is_ws(s.get_char(b - 1))
        invariant
            n == s@.len(),
            a <= b <= n,
            forall|k: int| b <= k < n ==> is_ws_char(s@[k]),
        decreases b,
    {
        b = b - 1;
    }
    let r = s.substring_char(a, b).to_owned();
    proof {
        lemma_ws_prefix_run(s@, a as int);
        let t = s@.skip(a as int);
        assert(forall|k: int| (b - a) <= k < t.len() ==> is_ws_char(#[trigger] t[k]));
        if b > a {
            assert(t[b - a - 1] == s@[b as int - 1]);
        }
        lemma_ws_suffix_run(t, b - a);
        assert(t.take(t.len() - ws_suffix_len(t)) =~= s@.subrange(a as int, b as int));
    }
    r
}

/// The lines of a text: split on a newline, with one carriage return removed
/// from a line's end.
pub open spec fn lines_of(s: Seq<char>) -> Seq<Seq<char>>
    decreases s.len(),
    via lines_of_dec
{
    if s.len() == 0 {
        Seq::empty()
    } else {
        let e = line_len(s);
        let line = s.take(e);
        let body = if line.len() > 0 && line.last() == '\r' {
            line.drop_last()
        } else {
            line
        };
        if e == s.len() {
            seq![body]
        } else {
            seq![body] + lines_of(s.skip(e + 1))
        }
    }
}

/// Index of the first newline in `s`, or its length.
pub open spec fn line_len(s: Seq<char>) -> int
    decreases s.len(),
{
    if s.len() == 0 {
        0
    } else if s[0] == '\n' {
        0
    } else {
        1 + line_len(s.drop_first())
    }
}

proof fn lemma_line_len_le(s: Seq<char>)
    ensures
        0 <= line_len(s) <= s.len(),
    decreases s.len(),
{
    if s.len() != 0 && s[0] != '\n' {
        lemma_line_len_le(s.drop_first());
    }
}

#[via_fn]
proof fn lines_of_dec(s: Seq<char>) {
    if s.len() != 0 {
        lemma_line_len_le(s);
    }
}

proof fn lemma_line_run(s: Seq<char>, i: int, j: int)
    requires
        0 <= i <= j <= s.len(),
        forall|k: int| i <= k < j ==> s[k] != '\n',
        j == s.len() || s[j] == '\n',
    ensures
        line_len(s.skip(i)) == j - i,
    decreases j - i,
{
    let t = s.skip(i);
    if i == j {
        if j < s.len() {
            assert(t[0] == '\n');
        }
    } else {
        assert(t[0] == s[i]);
        assert(t.drop_first() =~= s.skip(i + 1));
        lemma_line_run(s, i + 1, j);
    }
}

/// Splits a text into its lines, as the session-list output is read.
pub fn split_lines(s: &str) -> (r: Vec<String>)
    ensures
        r.deep_view() == lines_of(s@),
{
    let n = s.unicode_len();
    let mut r: Vec<String> = Vec::new();
    let mut i: usize = 0;
    proof {
        assert(s@.skip(0) =~= s@);
        assert(r.deep_view() =~= Seq::<Seq<char>>::empty());
    }
    while i < n
        invariant
            n == s@.len(),
            i <= n,
            lines_of(s@) == r.deep_view() + lines_of(s@.skip(i as int)),
        decreases n - i,
    {
        let start = i;
        while i < n && s.get_char(i) != '\n'
            invariant
                n == s@.len(),
                start <= i <= n,
                forall|k: int| start <= k < i ==> s@[k] != '\n',
            decreases n - i,
        {
            i = i + 1;
        }
        let mut end = i;
        if end > start && s.get_char(end - 1) == '\r' {
            end = end - 1;
        }
        let line = s.substring_char(start, end).to_owned();
        r.push(line);
        proof {
            lemma_line_run(s@, start as int, i as int);
            let t = s@.skip(start as int);
            let full = t.take(i as int - start as int);
            assert(full =~= s@.subrange(start as int, i as int));
            let body = if full.len() > 0 && full.last() == '\r' {
                full.drop_last()
            } else {
                full
            };
            assert(body =~= s@.subrange(start as int, end as int));
            if (i as int) < n as int {
                assert(t.skip(i as int - start as int + 1) =~= s@.skip(i as int + 1));
                assert(lines_of(t) == seq![body] + lines_of(s@.skip(i as int + 1)));
            } else {
                assert(lines_of(t) =~= seq![body]);
                assert(s@.skip(n as int) =~= Seq::<char>::empty());
            }
            assert(r.deep_view() =~= r.deep_view().drop_last().push(body));
        }
        if i < n {
            i = i + 1;
        } else {
            proof {
                assert(lines_of(s@.skip(n as int)) =~= Seq::<Seq<char>>::empty());
                assert(lines_of(s@) =~= r.deep_view());
            }
            return r;
        }
        proof {
            assert(lines_of(s@) =~= r.deep_view() + lines_of(s@.skip(i as int)));
        }
    }
    proof {
        assert(s@.skip(n as int) =~= Seq::<char>::empty());
        assert(lines_of(s@) =~= r.deep_view());
    }
    r
}

} // verus!
