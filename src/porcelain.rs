//! Reading `git status --porcelain` output.

use vstd::prelude::*;
use vstd::string::*;

verus! {

/// The pieces of `s` between newlines (at least one, possibly empty).
pub open spec fn pieces(s: Seq<char>) -> Seq<Seq<char>>
    decreases s.len(),
{
    if s.len() == 0 {
        seq![Seq::empty()]
    } else {
        let p = pieces(s.drop_last());
        if s.last() == '\n' {
            p.push(Seq::empty())
        } else {
            p.update(p.len() - 1, p.last().push(s.last()))
        }
    }
}

/// A line without the carriage return of a `\r\n` ending.
pub open spec fn strip_cr(l: Seq<char>) -> Seq<char> {
    if l.len() > 0 && l.last() == '\r' {
        l.drop_last()
    } else {
        l
    }
}

/// The lines of `s` as `str::lines` gives them: split at `\n`, a final line
/// ending being optional, and a `\r` before each `\n` dropped (a `\r` that
/// ends an unterminated last line stays).
pub open spec fn lines(s: Seq<char>) -> Seq<Seq<char>> {
    let p = pieces(s);
    let ended = p.drop_last().map_values(|l: Seq<char>| strip_cr(l));
    if s.len() == 0 || s.last() == '\n' {
        ended
    } else {
        ended.push(p.last())
    }
}

/// A porcelain line for an untracked file: status code `??`.
pub open spec fn is_untracked(l: Seq<char>) -> bool {
    l.len() >= 2 && l[0] == '?' && l[1] == '?'
}

/// A porcelain line for a file with changes in the index.
pub open spec fn is_staged(l: Seq<char>) -> bool {
    l.len() >= 2 && !is_untracked(l) && l[0] != ' ' && l[0] != '?'
}

/// A porcelain line for a file with changes in the working tree.
pub open spec fn is_modified(l: Seq<char>) -> bool {
    l.len() >= 2 && !is_untracked(l) && l[1] != ' ' && l[1] != '?'
}

/// How many of the lines satisfy each classification, as
/// (modified, staged, untracked).
pub open spec fn tally(ls: Seq<Seq<char>>) -> (nat, nat, nat)
    decreases ls.len(),
{
    if ls.len() == 0 {
        (0, 0, 0)
    } else {
        let (m, s, u) = tally(ls.drop_last());
        let l = ls.last();
        (
            m + if is_modified(l) { 1nat } else { 0nat },
            s + if is_staged(l) { 1nat } else { 0nat },
            u + if is_untracked(l) { 1nat } else { 0nat },
        )
    }
}

/// The change counts of a `git status --porcelain` output.
pub open spec fn porcelain_counts(s: Seq<char>) -> (nat, nat, nat) {
    tally(lines(s))
}

/// File counts of a working tree.
#[derive(Debug, Clone, Copy, PartialEq, Eq, Structural)]
pub struct ChangeCounts {
    pub modified: usize,
    pub staged: usize,
    pub untracked: usize,
}

/// The classification of the line summarised by its length and first two
/// characters, after dropping its last character when that is the `\r` of a
/// `\r\n` ending (`drop_cr`).
fn classify(len: usize, c0: char, c1: char, drop_cr: bool, counts: &mut ChangeCounts, bound: usize)
    requires
        drop_cr ==> len > 0,
        old(counts).modified < bound,
        old(counts).staged < bound,
        old(counts).untracked < bound,
    ensures
        ({
            let eff = if drop_cr { len - 1 } else { len as int };
            let untracked = eff >= 2 && c0 == '?' && c1 == '?';
            &&& final(counts).untracked == old(counts).untracked + if untracked { 1int } else { 0int }
            &&& final(counts).staged == old(counts).staged + if eff >= 2 && !untracked && c0 != ' ' && c0 != '?' { 1int } else { 0int }
            &&& final(counts).modified == old(counts).modified + if eff >= 2 && !untracked && c1 != ' ' && c1 != '?' { 1int } else { 0int }
        }),
{
    let eff: usize = if drop_cr {
        len - 1
    } else {
        len
    };
    if eff >= 2 {
        if c0 == '?' && c1 == '?' {
            counts.untracked = counts.untracked + 1;
        } else {
            if c0 != ' ' && c0 != '?' {
                counts.staged = counts.staged + 1;
            }
            if c1 != ' ' && c1 != '?' {
                counts.modified = counts.modified + 1;
            }
        }
    }
}

proof fn lemma_tally_push(ls: Seq<Seq<char>>, l: Seq<char>)
    ensures
        tally(ls.push(l)) == ({
            let (m, s, u) = tally(ls);
            (
                m + if is_modified(l) { 1nat } else { 0nat },
                s + if is_staged(l) { 1nat } else { 0nat },
                u + if is_untracked(l) { 1nat } else { 0nat },
            )
        }),
{
    assert(ls.push(l).drop_last() =~= ls);
}

proof fn lemma_tally_bound(ls: Seq<Seq<char>>)
    ensures
        tally(ls).0 <= ls.len(),
        tally(ls).1 <= ls.len(),
        tally(ls).2 <= ls.len(),
    decreases ls.len(),
{
    if ls.len() > 0 {
        lemma_tally_bound(ls.drop_last());
    }
}

proof fn lemma_pieces_nonempty(s: Seq<char>)
    ensures
        pieces(s).len() >= 1,
        pieces(s).len() <= s.len() + 1,
    decreases s.len(),
{
    if s.len() > 0 {
        lemma_pieces_nonempty(s.drop_last());
    }
}

proof fn lemma_pieces_unterminated(s: Seq<char>)
    requires
        s.len() > 0,
        s.last() != '\n',
    ensures
        pieces(s).len() <= s.len(),
{
    lemma_pieces_nonempty(s.drop_last());
}

/// Counts the staged, modified and untracked files that a
/// `git status --porcelain` output lists.
pub fn count_changes(status_text: &str) -> (r: ChangeCounts)
    ensures
        (r.modified as nat, r.staged as nat, r.untracked as nat) == porcelain_counts(status_text@),
{
    let ghost s = status_text@;
    let n = status_text.unicode_len();
    let mut counts = ChangeCounts { modified: 0, staged: 0, untracked: 0 };
    let mut len: usize = 0;
    let mut c0: char = ' ';
    let mut c1: char = ' ';
    let mut last: char = ' ';
    let mut i: usize = 0;
    proof {
        assert(s.take(0) =~= Seq::<char>::empty());
    }
    while i < n
        invariant
            n == s.len(),
            s == status_text@,
            i <= n,
            ({
                let p = pieces(s.take(i as int));
                let done = p.drop_last().map_values(|l: Seq<char>| strip_cr(l));
                let cur = p.last();
                &&& p.len() >= 1
                &&& p.len() <= i + 1
                &&& (counts.modified as nat, counts.staged as nat, counts.untracked as nat) == tally(done)
                &&& len == cur.len()
                &&& len <= i
                &&& len >= 1 ==> c0 == cur[0] && last == cur.last()
                &&& len >= 2 ==> c1 == cur[1]
            }),
        decreases n - i,
    {
        let ghost t = s.take(i as int);
        let ghost t1 = s.take(i as int + 1);
        let ghost p = pieces(t);
        let c = status_text.get_char(i);
        proof {
            assert(t1.drop_last() =~= t);
            assert(t1.last() == c);
            lemma_tally_bound(p.drop_last().map_values(|l: Seq<char>| strip_cr(l)));
        }
        if c == '\n' {
            classify(len, c0, c1, len > 0 && last == '\r', &mut counts, n);
            proof {
                let done = p.drop_last().map_values(|l: Seq<char>| strip_cr(l));
                let grown = pieces(t1);
                assert(grown == p.push(Seq::<char>::empty()));
                assert(grown.drop_last() =~= p);
                assert(grown.drop_last().map_values(|l: Seq<char>| strip_cr(l)) =~= done.push(strip_cr(p.last())));
                lemma_tally_push(done, strip_cr(p.last()));
            }
            len = 0;
        } else {
            if len == 0 {
                c0 = c;
            } else if len == 1 {
                c1 = c;
            }
            last = c;
            len = len + 1;
            proof {
                let grown = pieces(t1);
                assert(grown == p.update(p.len() - 1, p.last().push(c)));
                assert(grown.drop_last() =~= p.drop_last());
            }
        }
        i = i + 1;
    }
    proof {
        assert(s.take(n as int) =~= s);
        let p = pieces(s);
        let done = p.drop_last().map_values(|l: Seq<char>| strip_cr(l));
        lemma_tally_bound(done);
        if !(s.len() == 0 || s.last() == '\n') {
            lemma_pieces_unterminated(s);
        }
    }
    if !(n == 0 || status_text.get_char(n - 1) == '\n') {
        classify(len, c0, c1, false, &mut counts, n);
        proof {
            let p = pieces(s);
            let done = p.drop_last().map_values(|l: Seq<char>| strip_cr(l));
            lemma_tally_push(done, p.last());
        }
    } else {
        proof {
            if n > 0 {
                assert(s.last() == '\n');
                assert(s.drop_last() =~= s.take(n - 1));
                assert(pieces(s).last() == Seq::<char>::empty());
            }
        }
    }
    counts
}

} // verus!
