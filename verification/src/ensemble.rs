//! Ensemble voting: the answer most of the models gave.

use vstd::prelude::*;
use crate::text::{lemma_lex_irreflexive, lemma_lex_total, lemma_lex_transitive, lex_lt, string_lt};

verus! {

/// The winning answer, how many results gave it, and how many results
/// there were (the agreement rate is `winner_votes / total`).
pub struct MajorityOutcome {
    pub winner: String,
    pub winner_votes: usize,
    pub total: usize,
}

pub open spec fn answers(results: Seq<String>) -> Seq<Seq<char>> {
    results.map_values(|s: String| s@)
}

/// How many of the first `n` answers are `x`.
pub open spec fn votes(s: Seq<Seq<char>>, x: Seq<char>, n: int) -> nat
    decreases n,
{
    if n <= 0 {
        0
    } else {
        votes(s, x, n - 1) + if s[n - 1] == x { 1nat } else { 0nat }
    }
}

pub open spec fn count(s: Seq<Seq<char>>, x: Seq<char>) -> nat {
    votes(s, x, s.len() as int)
}

/// `a` beats `b`: more votes, or as many and alphabetically first.
pub open spec fn beats(s: Seq<Seq<char>>, a: Seq<char>, b: Seq<char>) -> bool {
    count(s, a) > count(s, b) || (count(s, a) == count(s, b) && lex_lt(a, b))
}

/// `w` is one of the answers and beats every other answer.
pub open spec fn is_winner(s: Seq<Seq<char>>, w: Seq<char>) -> bool {
    &&& s.contains(w)
    &&& forall|i: int| 0 <= i < s.len() ==> s[i] == w || beats(s, w, #[trigger] s[i])
}

fn count_of(results: &[String], x: &String) -> (r: usize)
    ensures
        r == count(answers(results@), x@),
{
    let ghost s = answers(results@);
    let mut c: usize = 0;
    let mut i: usize = 0;
    while i < results.len()
        invariant
            i <= results@.len(),
            s == answers(results@),
            c == votes(s, x@, i as int),
            c <= i,
        decreases results.len() - i,
    {
        if results[i] == *x {
            c = c + 1;
        }
        i = i + 1;
    }
    c
}

/// The plurality answer, ties broken alphabetically (see [`is_winner`]).
pub fn majority_vote(results: &[String]) -> (r: MajorityOutcome)
    requires
        results@.len() > 0,
    ensures
        is_winner(answers(results@), r.winner@),
        r.winner_votes == count(answers(results@), r.winner@),
        r.total == results@.len(),
{
    let ghost s = answers(results@);
    let mut best: usize = 0;
    let mut best_count = count_of(results, &results[0]);
    let mut i: usize = 1;
    while i < results.len()
        invariant
            1 <= i <= results@.len(),
            s == answers(results@),
            best < i,
            best_count == count(s, s[best as int]),
            forall|j: int| 0 <= j < i ==> s[j] == s[best as int] || beats(s, s[best as int], #[trigger] s[j]),
        decreases results.len() - i,
    {
        let c = count_of(results, &results[i]);
        if c > best_count || (c == best_count && string_lt(&results[i], &results[best])) {
            proof {
                let nb = s[i as int];
                let ob = s[best as int];
                assert forall|j: int| 0 <= j < i + 1 implies s[j] == nb || beats(s, nb, #[trigger] s[j]) by {
                    if j < i && s[j] != ob {
                        assert(beats(s, ob, s[j]));
                        if count(s, nb) == count(s, s[j]) {
                            lemma_lex_transitive(nb, ob, s[j]);
                        }
                        if s[j] == nb {
                        }
                    }
                }
            }
            best = i;
            best_count = c;
        } else {
            proof {
                let ob = s[best as int];
                let x = s[i as int];
                if x != ob {
                    lemma_lex_total(x, ob);
                }
            }
        }
        i = i + 1;
    }
    proof {
        assert(s[best as int] == s[best as int]);
        assert(s.contains(s[best as int]));
    }
    MajorityOutcome { winner: results[best].clone(), winner_votes: best_count, total: results.len() }
}

/// There is only one winner: no two different answers both beat every
/// other answer.
pub proof fn the_winner_is_unique(s: Seq<Seq<char>>, w1: Seq<char>, w2: Seq<char>)
    requires
        is_winner(s, w1),
        is_winner(s, w2),
    ensures
        w1 == w2,
{
    if w1 != w2 {
        let i2 = choose|i: int| 0 <= i < s.len() && s[i] == w2;
        let i1 = choose|i: int| 0 <= i < s.len() && s[i] == w1;
        assert(beats(s, w1, s[i2]));
        assert(beats(s, w2, s[i1]));
        if lex_lt(w1, w2) && lex_lt(w2, w1) {
            lemma_lex_transitive(w1, w2, w1);
            lemma_lex_irreflexive(w1);
        }
    }
}

} // verus!
