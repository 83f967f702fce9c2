use vstd::prelude::*;
use vstd::std_specs::iter::IteratorSpec;
use crate::player::Song;
use crate::text::{lower_of, lowercase};

verus! {

broadcast use vstd::string::axiom_spec_iter, vstd::string::next_postcondition;

/// The column a track list is ordered by, and whether the order is reversed.
#[derive(Debug, Clone, Copy, PartialEq, Eq, Structural)]
pub enum Sort {
    Track { reverse: bool },
    Title { reverse: bool },
    Artist { reverse: bool },
    Album { reverse: bool },
    Date { reverse: bool },
    Time { reverse: bool },
}

/// A column of the track list.
#[derive(Debug, Clone, Copy, PartialEq, Eq, Structural)]
pub enum Column {
    Track,
    Title,
    Artist,
    Album,
    Date,
    Time,
}

pub open spec fn column_of(sort: Sort) -> Column {
    match sort {
        Sort::Track { .. } => Column::Track,
        Sort::Title { .. } => Column::Title,
        Sort::Artist { .. } => Column::Artist,
        Sort::Album { .. } => Column::Album,
        Sort::Date { .. } => Column::Date,
        Sort::Time { .. } => Column::Time,
    }
}

pub open spec fn sort_by(column: Column, reverse: bool) -> Sort {
    match column {
        Column::Track => Sort::Track { reverse },
        Column::Title => Sort::Title { reverse },
        Column::Artist => Sort::Artist { reverse },
        Column::Album => Sort::Album { reverse },
        Column::Date => Sort::Date { reverse },
        Column::Time => Sort::Time { reverse },
    }
}

impl Sort {
    pub fn column(self) -> (r: Column)
        ensures
            r == column_of(self),
    {
        match self {
            Sort::Track { .. } => Column::Track,
            Sort::Title { .. } => Column::Title,
            Sort::Artist { .. } => Column::Artist,
            Sort::Album { .. } => Column::Album,
            Sort::Date { .. } => Column::Date,
            Sort::Time { .. } => Column::Time,
        }
    }

    pub fn is_reversed(self) -> (r: bool)
        ensures
            r == is_reversed(self),
    {
        match self {
            Sort::Track { reverse } => reverse,
            Sort::Title { reverse } => reverse,
            Sort::Artist { reverse } => reverse,
            Sort::Album { reverse } => reverse,
            Sort::Date { reverse } => reverse,
            Sort::Time { reverse } => reverse,
        }
    }

    /// The order after the header of `column` is clicked: the same column
    /// flips direction, another column starts ascending.
    pub fn click(self, column: Column) -> (r: Sort)
        ensures
            r == sort_by(
                column,
                if column_of(self) == column {
                    !is_reversed(self)
                } else {
                    false
                },
            ),
            column_of(r) == column,
    {
        let reverse = if self.column() == column {
            !self.is_reversed()
        } else {
            false
        };
        match column {
            Column::Track => Sort::Track { reverse },
            Column::Title => Sort::Title { reverse },
            Column::Artist => Sort::Artist { reverse },
            Column::Album => Sort::Album { reverse },
            Column::Date => Sort::Date { reverse },
            Column::Time => Sort::Time { reverse },
        }
    }
}

/// A named music folder and the order its tracks are listed in.
#[derive(Debug, Clone)]
pub struct Playlist {
    pub name: String,
    pub path: String,
    pub sort_order: Sort,
}

impl Playlist {
    pub fn set_sort(&mut self, sort_order: Sort)
        ensures
            final(self).sort_order == sort_order,
            final(self).name == old(self).name,
            final(self).path == old(self).path,
    {
        self.sort_order = sort_order;
    }

    pub fn sort_order(self) -> (r: Sort)
        ensures
            r == self.sort_order,
    {
        self.sort_order
    }
}

/// -1, 0 or 1 as `a` is below, equal to or above `b`.
pub open spec fn cmp_int(a: int, b: int) -> int {
    if a < b {
        -1
    } else if a > b {
        1
    } else {
        0
    }
}

/// Lexicographic comparison of `a` and `b` from position `k` on, by code point.
pub open spec fn lex_from(a: Seq<char>, b: Seq<char>, k: nat) -> int
    decreases a.len() - k,
{
    if k >= a.len() {
        if k >= b.len() {
            0
        } else {
            -1
        }
    } else if k >= b.len() {
        1
    } else if a[k as int] < b[k as int] {
        -1
    } else if a[k as int] > b[k as int] {
        1
    } else {
        lex_from(a, b, k + 1)
    }
}

/// Lexicographic comparison by code point, which is the order of `String`s.
pub open spec fn lex_cmp(a: Seq<char>, b: Seq<char>) -> int {
    lex_from(a, b, 0)
}

/// A missing value comes first.
pub open spec fn cmp_opt(a: Option<u64>, b: Option<u64>) -> int {
    match (a, b) {
        (None, None) => 0,
        (None, Some(_)) => -1,
        (Some(_), None) => 1,
        (Some(x), Some(y)) => cmp_int(x as int, y as int),
    }
}

pub open spec fn is_reversed(sort: Sort) -> bool {
    match sort {
        Sort::Track { reverse } => reverse,
        Sort::Title { reverse } => reverse,
        Sort::Artist { reverse } => reverse,
        Sort::Album { reverse } => reverse,
        Sort::Date { reverse } => reverse,
        Sort::Time { reverse } => reverse,
    }
}

/// The text a text column sorts by.
pub open spec fn sort_text(sort: Sort, song: Song) -> Seq<char> {
    match sort {
        Sort::Title { .. } => song.title@,
        Sort::Artist { .. } => song.artist@,
        _ => song.album@,
    }
}

pub open spec fn is_text_sort(sort: Sort) -> bool {
    sort is Title || sort is Artist || sort is Album
}

/// How the tracks at catalog indices `a` and `b` compare under `sort`:
/// by index, by lower-cased text, by creation time or by duration,
/// reversed on request.
pub open spec fn song_cmp(sort: Sort, songs: Seq<Song>, a: usize, b: usize) -> int {
    let c = match sort {
        Sort::Track { .. } => cmp_int(a as int, b as int),
        Sort::Date { .. } => cmp_opt(songs[a as int].created, songs[b as int].created),
        Sort::Time { .. } => cmp_int(
            songs[a as int].duration as int,
            songs[b as int].duration as int,
        ),
        _ => lex_cmp(
            lower_of(sort_text(sort, songs[a as int])),
            lower_of(sort_text(sort, songs[b as int])),
        ),
    };
    if is_reversed(sort) {
        -c
    } else {
        c
    }
}

/// `t` with `x` placed after the last element that does not sort after it.
pub open spec fn insert_sorted(t: Seq<usize>, x: usize, sort: Sort, songs: Seq<Song>) -> Seq<usize>
    decreases t.len(),
{
    if t.len() == 0 || song_cmp(sort, songs, t.last(), x) <= 0 {
        t.push(x)
    } else {
        insert_sorted(t.drop_last(), x, sort, songs).push(t.last())
    }
}

/// `s` in stable sorted order: equal elements keep their relative order.
pub open spec fn stable_sorted(s: Seq<usize>, sort: Sort, songs: Seq<Song>) -> Seq<usize>
    decreases s.len(),
{
    if s.len() == 0 {
        s
    } else {
        insert_sorted(stable_sorted(s.drop_last(), sort, songs), s.last(), sort, songs)
    }
}

fn chars_of(s: &str) -> (r: Vec<char>)
    ensures
        r@ == s@,
{
    let mut out: Vec<char> = Vec::new();
    for c in it: s.chars()
        invariant
            it.seq() == s@,
            out@ == it.seq().take(it.index() as int),
    {
        out.push(c);
    }
    assert(out@ =~= s@);
    out
}

fn compare_int(a: u64, b: u64) -> (r: i8)
    ensures
        r == cmp_int(a as int, b as int),
        -1 <= r <= 1,
{
    if a < b {
        -1
    } else if a > b {
        1
    } else {
        0
    }
}

fn compare_text(a: &Vec<char>, b: &Vec<char>) -> (r: i8)
    ensures
        r == lex_cmp(a@, b@),
        -1 <= r <= 1,
{
    let mut k: usize = 0;
    while k < a.len() && k < b.len() && a[k] == b[k]
        invariant
            k <= a@.len(),
            k <= b@.len(),
            lex_cmp(a@, b@) == lex_from(a@, b@, k as nat),
        decreases a@.len() - k,
    {
        k = k + 1;
    }
    if k >= a.len() {
        if k >= b.len() {
            0
        } else {
            -1
        }
    } else if k >= b.len() {
        1
    } else if a[k] < b[k] {
        -1
    } else {
        1
    }
}

fn compare_songs(sort: Sort, songs: &Vec<Song>, keys: &Vec<Vec<char>>, a: usize, b: usize) -> (r: i8)
    requires
        a < songs@.len(),
        b < songs@.len(),
        is_text_sort(sort) ==> keys@.len() == songs@.len() && forall|i: int|
            0 <= i < songs@.len() ==> #[trigger] keys@[i]@ == lower_of(sort_text(sort, songs@[i])),
    ensures
        r == song_cmp(sort, songs@, a, b),
{
    let (c, reverse) = match sort {
        Sort::Track { reverse } => (compare_int(a as u64, b as u64), reverse),
        Sort::Date { reverse } => {
            let c = match (songs[a].created, songs[b].created) {
                (None, None) => 0,
                (None, Some(_)) => -1,
                (Some(_), None) => 1,
                (Some(x), Some(y)) => compare_int(x, y),
            };
            (c, reverse)
        },
        Sort::Time { reverse } => (compare_int(songs[a].duration, songs[b].duration), reverse),
        Sort::Title { reverse } => (compare_text(&keys[a], &keys[b]), reverse),
        Sort::Artist { reverse } => (compare_text(&keys[a], &keys[b]), reverse),
        Sort::Album { reverse } => (compare_text(&keys[a], &keys[b]), reverse),
    };
    if reverse {
        -c
    } else {
        c
    }
}

proof fn lemma_insert_at(t: Seq<usize>, x: usize, sort: Sort, songs: Seq<Song>, j: int)
    requires
        0 <= j <= t.len(),
        j == 0 || song_cmp(sort, songs, t[j - 1], x) <= 0,
        forall|k: int| j <= k < t.len() ==> song_cmp(sort, songs, #[trigger] t[k], x) > 0,
    ensures
        insert_sorted(t, x, sort, songs) == t.insert(j, x),
    decreases t.len(),
{
    if t.len() == j {
        assert(t.insert(j, x) =~= t.push(x));
    } else {
        let u = t.drop_last();
        assert forall|k: int| j <= k < u.len() implies song_cmp(sort, songs, #[trigger] u[k], x) > 0 by {
            assert(u[k] == t[k]);
        }
        lemma_insert_at(u, x, sort, songs, j);
        assert(u.insert(j, x).push(t.last()) =~= t.insert(j, x));
    }
}

/// Orders `song_view`, a list of catalog indices, by the playlist's sort
/// order; indices that compare equal keep their relative order.
pub fn sort_songs(playlist: Playlist, song_view: &mut Vec<usize>, songs: &Vec<Song>)
    requires
        forall|k: int| 0 <= k < old(song_view)@.len() ==> old(song_view)@[k] < songs@.len(),
    ensures
        final(song_view)@ == stable_sorted(old(song_view)@, playlist.sort_order, songs@),
{
    let sort = playlist.sort_order();
    let mut keys: Vec<Vec<char>> = Vec::new();
    let text_sort = match sort {
        Sort::Title { .. } | Sort::Artist { .. } | Sort::Album { .. } => true,
        _ => false,
    };
    if text_sort {
        let mut i: usize = 0;
        while i < songs.len()
            invariant
                is_text_sort(sort),
                i <= songs@.len(),
                keys@.len() == i,
                forall|k: int| 0 <= k < i ==> #[trigger] keys@[k]@ == lower_of(sort_text(sort, songs@[k])),
            decreases songs@.len() - i,
        {
            let text = match sort {
                Sort::Title { .. } => &songs[i].title,
                Sort::Artist { .. } => &songs[i].artist,
                _ => &songs[i].album,
            };
            let lower = lowercase(text.as_str());
            keys.push(chars_of(lower.as_str()));
            i = i + 1;
        }
    }
    let ghost input = song_view@;
    let mut sorted: Vec<usize> = Vec::new();
    let mut m: usize = 0;
    while m < song_view.len()
        invariant
            song_view@ == input,
            m <= input.len(),
            forall|k: int| 0 <= k < input.len() ==> input[k] < songs@.len(),
            forall|k: int| 0 <= k < sorted@.len() ==> sorted@[k] < songs@.len(),
            sorted@ == stable_sorted(input.subrange(0, m as int), sort, songs@),
            is_text_sort(sort) ==> keys@.len() == songs@.len() && forall|i: int|
                0 <= i < songs@.len() ==> #[trigger] keys@[i]@ == lower_of(sort_text(sort, songs@[i])),
        decreases input.len() - m,
    {
        let x = song_view[m];
        let mut j: usize = sorted.len();
        while j > 0 && compare_songs(sort, songs, &keys, sorted[j - 1], x) > 0
            invariant
                j <= sorted@.len(),
                x < songs@.len(),
                forall|k: int| 0 <= k < sorted@.len() ==> sorted@[k] < songs@.len(),
                forall|k: int| j <= k < sorted@.len() ==> song_cmp(sort, songs@, #[trigger] sorted@[k], x) > 0,
                is_text_sort(sort) ==> keys@.len() == songs@.len() && forall|i: int|
                    0 <= i < songs@.len() ==> #[trigger] keys@[i]@ == lower_of(sort_text(sort, songs@[i])),
            decreases j,
        {
            j = j - 1;
        }
        proof {
            lemma_insert_at(sorted@, x, sort, songs@, j as int);
            let s = input.subrange(0, m + 1);
            assert(s.drop_last() =~= input.subrange(0, m as int));
            assert(s.last() == x);
        }
        sorted.insert(j, x);
        m = m + 1;
    }
    proof {
        assert(input.subrange(0, input.len() as int) =~= input);
    }
    *song_view = sorted;
}

} // verus!
