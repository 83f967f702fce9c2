use vstd::prelude::*;
use fuzzy_matcher::FuzzyMatcher;
use fuzzy_matcher::skim::SkimMatcherV2;
use crate::player::Song;
use crate::text::{trim, trimmed};
use vstd::utf8::encode_utf8;

verus! {

/// The score that fuzzy_matcher's skim matcher, ignoring case, gives
/// `pattern` against `choice`; `None` where it does not match.
pub uninterp spec fn skim_score(choice: Seq<char>, pattern: Seq<char>) -> Option<i64>;

/// Relies on `SkimMatcherV2::fuzzy_match` of fuzzy_matcher, set to ignore
/// case: the score depends on the two strings alone.
#[verifier::external_body]
fn fuzzy_score(choice: &str, pattern: &str) -> (r: Option<i64>)
    ensures
        r == skim_score(choice@, pattern@),
{
    SkimMatcherV2::default().ignore_case().fuzzy_match(choice, pattern)
}

/// The fuzzy search over the track catalog.
pub struct Search {
    pub modal: bool,
    /// Pairs of catalog index and score, best first.
    pub results: Vec<(usize, i64)>,
    pub query: String,
}

pub open spec fn score_of(songs: Seq<Song>, pattern: Seq<char>, i: int) -> Option<i64> {
    skim_score(songs[i].search_key@, pattern)
}

/// The highest score among the first `n` tracks, if any of them matches.
pub open spec fn best_score(songs: Seq<Song>, pattern: Seq<char>, n: nat) -> Option<i64>
    decreases n,
{
    if n == 0 {
        None
    } else {
        let before = best_score(songs, pattern, (n - 1) as nat);
        match score_of(songs, pattern, n - 1) {
            None => before,
            Some(s) => match before {
                Some(b) if b >= s => Some(b),
                _ => Some(s),
            },
        }
    }
}

/// Half of `best`, rounded toward zero.
pub open spec fn cutoff(best: i64) -> int {
    if best >= 0 {
        best / 2
    } else {
        -((-best) / 2)
    }
}

/// Track `i` matches with a score of at least half the best score.
pub open spec fn kept(songs: Seq<Song>, pattern: Seq<char>, i: int) -> bool {
    &&& score_of(songs, pattern, i) is Some
    &&& best_score(songs, pattern, songs.len()) is Some
    &&& score_of(songs, pattern, i)->Some_0 >= cutoff(
        best_score(songs, pattern, songs.len())->Some_0,
    )
}

/// `a` is listed before `b`: a higher score, or the same score and a lower index.
pub open spec fn ranked_before(a: (usize, i64), b: (usize, i64)) -> bool {
    a.1 > b.1 || (a.1 == b.1 && a.0 < b.0)
}

/// `r` lists exactly the kept tracks of `songs`, each with its score, best first.
pub open spec fn ranks(r: Seq<(usize, i64)>, songs: Seq<Song>, pattern: Seq<char>) -> bool {
    &&& forall|k: int|
        0 <= k < r.len() ==> {
            &&& r[k].0 < songs.len()
            &&& score_of(songs, pattern, r[k].0 as int) == Some(r[k].1)
            &&& kept(songs, pattern, r[k].0 as int)
        }
    &&& forall|i: int|
        0 <= i < songs.len() && kept(songs, pattern, i) ==> exists|k: int|
            0 <= k < r.len() && r[k].0 == i
    &&& forall|j: int, k: int| 0 <= j < k < r.len() ==> ranked_before(r[j], r[k])
}

/// A query too short to search with: under two bytes in UTF-8.
pub open spec fn too_short(q: Seq<char>) -> bool {
    encode_utf8(q).len() < 2
}

/// Half of `best`, rounded toward zero.
fn half(best: i64) -> (r: i64)
    ensures
        r == cutoff(best),
{
    if best >= 0 {
        best / 2
    } else {
        let m: i128 = -(best as i128);
        (-(m / 2)) as i64
    }
}

impl Search {
    /// The tracks whose search key matches the trimmed query, with their
    /// scores, best first and by index among equal scores, keeping only those
    /// that score at least half the best. A query shorter than two bytes
    /// finds nothing.
    pub fn search_query(&self, songs: &Vec<Song>) -> (r: Vec<(usize, i64)>)
        ensures
            too_short(trimmed(self.query@)) ==> r@.len()
                == 0,
            !(too_short(trimmed(self.query@)))
                ==> ranks(r@, songs@, trimmed(self.query@)),
    {
        let query = trim(self.query.as_str());
        if query.as_bytes().len() < 2 {
            return Vec::new();
        }
        let ghost pat = query@;
        let n = songs.len();
        let mut found: Vec<(usize, i64)> = Vec::new();
        let mut best: Option<i64> = None;
        let mut i: usize = 0;
        while i < n
            invariant
                n == songs@.len(),
                pat == query@,
                i <= n,
                best == best_score(songs@, pat, i as nat),
                forall|k: int|
                    0 <= k < found@.len() ==> {
                        &&& found@[k].0 < i
                        &&& score_of(songs@, pat, found@[k].0 as int) == Some(found@[k].1)
                    },
                forall|j: int|
                    0 <= j < i && score_of(songs@, pat, j) is Some ==> exists|k: int|
                        0 <= k < found@.len() && found@[k].0 == j,
                forall|j: int, k: int| 0 <= j < k < found@.len() ==> found@[j].0 < found@[k].0,
            decreases n - i,
        {
            let score = fuzzy_score(songs[i].search_key.as_str(), query);
            assert(score == score_of(songs@, pat, i as int));
            match score {
                Some(s) => {
                    let ghost before = found@;
                    found.push((i, s));
                    best = match best {
                        Some(b) if b >= s => Some(b),
                        _ => Some(s),
                    };
                    assert forall|j: int|
                        0 <= j < i + 1 && score_of(songs@, pat, j) is Some implies exists|k: int|
                            0 <= k < found@.len() && found@[k].0 == j by {
                        if j == i {
                            assert(found@[before.len() as int].0 == j);
                        } else {
                            let k = choose|k: int| 0 <= k < before.len() && before[k].0 == j;
                            assert(found@[k].0 == j);
                        }
                    }
                },
                None => {},
            }
            assert(best == best_score(songs@, pat, (i + 1) as nat));
            i = i + 1;
        }
        let mut ranked: Vec<(usize, i64)> = Vec::new();
        match best {
            None => {
                proof {
                    assert forall|j: int| 0 <= j < n implies !kept(songs@, pat, j) by {}
                }
                return ranked;
            },
            Some(b) => {
                let cut = half(b);
                let mut m: usize = 0;
                while m < found.len()
                    invariant
                        n == songs@.len(),
                        best_score(songs@, pat, n as nat) == Some(b),
                        cut == cutoff(b),
                        m <= found@.len(),
                        forall|k: int|
                            0 <= k < found@.len() ==> {
                                &&& found@[k].0 < n
                                &&& score_of(songs@, pat, found@[k].0 as int) == Some(found@[k].1)
                            },
                        forall|j: int|
                            0 <= j < n && score_of(songs@, pat, j) is Some ==> exists|k: int|
                                0 <= k < found@.len() && found@[k].0 == j,
                        forall|j: int, k: int|
                            0 <= j < k < found@.len() ==> found@[j].0 < found@[k].0,
                        forall|k: int|
                            0 <= k < ranked@.len() ==> {
                                &&& ranked@[k].0 < n
                                &&& score_of(songs@, pat, ranked@[k].0 as int) == Some(ranked@[k].1)
                                &&& kept(songs@, pat, ranked@[k].0 as int)
                                &&& m > 0 && ranked@[k].0 <= found@[m - 1].0
                            },
                        forall|f: int|
                            0 <= f < m && found@[f].1 >= cut ==> exists|k: int|
                                0 <= k < ranked@.len() && ranked@[k].0 == found@[f].0,
                        forall|j: int, k: int|
                            0 <= j < k < ranked@.len() ==> ranked_before(ranked@[j], ranked@[k]),
                    decreases found@.len() - m,
                {
                    let item = found[m];
                    if item.1 >= cut {
                        let mut p: usize = 0;
                        while p < ranked.len() && ranked[p].1 >= item.1
                            invariant
                                p <= ranked@.len(),
                                forall|j: int| 0 <= j < p ==> ranked@[j].1 >= item.1,
                            decreases ranked@.len() - p,
                        {
                            p = p + 1;
                        }
                        let ghost before = ranked@;
                        proof {
                            assert forall|j: int| p <= j < before.len() implies before[j].1 < item.1 by {
                                if j > p {
                                    assert(ranked_before(before[p as int], before[j]));
                                }
                            }
                            assert forall|k: int| 0 <= k < before.len() implies before[k].0 < item.0 by {
                                if m > 0 {
                                    assert(found@[m - 1].0 < found@[m as int].0);
                                }
                            }
                        }
                        ranked.insert(p, item);
                        proof {
                            assert(ranked@ == before.insert(p as int, item));
                            assert forall|k: int| 0 <= k < ranked@.len() implies ranked@[k].0
                                <= found@[m as int].0 by {
                                if k < p {
                                    assert(ranked@[k] == before[k]);
                                } else if k > p {
                                    assert(ranked@[k] == before[k - 1]);
                                }
                            }
                            assert forall|f: int|
                                0 <= f < m + 1 && found@[f].1 >= cut implies exists|k: int|
                                    0 <= k < ranked@.len() && ranked@[k].0 == found@[f].0 by {
                                if f == m {
                                    assert(ranked@[p as int].0 == found@[f].0);
                                } else {
                                    let k = choose|k: int|
                                        0 <= k < before.len() && before[k].0 == found@[f].0;
                                    if k < p {
                                        assert(ranked@[k] == before[k]);
                                    } else {
                                        assert(ranked@[k + 1] == before[k]);
                                    }
                                }
                            }
                            assert forall|j: int, k: int|
                                0 <= j < k < ranked@.len() implies ranked_before(
                                ranked@[j],
                                ranked@[k],
                            ) by {
                                if k < p {
                                } else if k == p {
                                } else if j < p {
                                    assert(ranked@[k] == before[k - 1]);
                                } else if j == p {
                                    assert(ranked@[k] == before[k - 1]);
                                } else {
                                    assert(ranked@[k] == before[k - 1]);
                                    assert(ranked@[j] == before[j - 1]);
                                }
                            }
                        }
                    }
                    m = m + 1;
                }
                proof {
                    assert forall|i: int| 0 <= i < n && kept(songs@, pat, i) implies exists|k: int|
                        0 <= k < ranked@.len() && ranked@[k].0 == i by {
                        let f = choose|f: int| 0 <= f < found@.len() && found@[f].0 == i;
                        assert(found@[f].1 >= cut);
                    }
                }
                ranked
            },
        }
    }

    pub fn handle_query(&mut self, songs: &Vec<Song>)
        ensures
            final(self).modal == old(self).modal,
            final(self).query@ == old(self).query@,
            too_short(trimmed(old(self).query@))
                ==> final(self).results@.len() == 0,
            !(too_short(trimmed(old(self).query@))) ==> ranks(final(self).results@, songs@, trimmed(old(self).query@)),
    {
        self.results = self.search_query(songs);
    }

    /// Shows the search box, clearing the previous search if it found anything.
    pub fn open_modal(&mut self)
        ensures
            final(self).modal,
            old(self).results@.len() > 0 ==> final(self).query@.len() == 0
                && final(self).results@.len() == 0,
            old(self).results@.len() == 0 ==> final(self).query@ == old(self).query@
                && final(self).results@ == old(self).results@,
    {
        if self.results.len() > 0 {
            self.query = String::new();
            self.results = Vec::new();
        }
        self.modal = true;
    }

    pub fn close_modal(&mut self)
        ensures
            !final(self).modal,
            final(self).query@ == old(self).query@,
            final(self).results@ == old(self).results@,
    {
        self.modal = false;
    }
}

impl Default for Search {
    fn default() -> (r: Search)
        ensures
            !r.modal,
            r.results@.len() == 0,
            r.query@.len() == 0,
    {
        Search { modal: false, results: Vec::new(), query: String::new() }
    }
}

} // verus!
