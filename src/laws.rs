use vstd::prelude::*;
use vstd::arithmetic::div_mod::{lemma_add_mod_noop, lemma_small_mod, lemma_mod_self_0};
use crate::playlist::{Sort, insert_sorted, lex_from, song_cmp, stable_sorted};
use crate::player::{
    Action, PlayerView, SinkReport, Song, after_previous, after_skip, after_volume, indices_valid,
    replays, tick, tick_actions, tick_changes, track_ended, volume_actions,
};

verus! {

/// The engine after `k` calls of `skip` on a catalog of `len` tracks.
pub open spec fn skips(p: PlayerView, len: nat, k: nat) -> PlayerView
    decreases k,
{
    if k == 0 {
        p
    } else {
        after_skip(skips(p, len, (k - 1) as nat), len)
    }
}

/// The engine after `k` ticks that all saw the same report.
pub open spec fn ticks(p: PlayerView, songs: Seq<Song>, report: SinkReport, draw: usize, k: nat) -> PlayerView
    decreases k,
{
    if k == 0 {
        p
    } else {
        tick(ticks(p, songs, report, draw, (k - 1) as nat), songs, report, draw)
    }
}

/// The playlist is circular: with an empty manual queue, `k` skips from
/// index 0 land on `k mod len`, so indices 1 to len-1 come in order and the
/// len-th skip is back at 0. The indices stay valid throughout.
pub proof fn skip_wraps_around(p: PlayerView, len: nat, k: nat)
    requires
        0 < len <= usize::MAX,
        p.current_index == 0,
        p.queue.len() == 0,
    ensures
        skips(p, len, k).current_index == (k as int) % (len as int),
        skips(p, len, k).queue.len() == 0,
        indices_valid(skips(p, len, k), len),
        k < len ==> skips(p, len, k).current_index == k,
        k == len ==> skips(p, len, k).current_index == 0,
    decreases k,
{
    if k == 0 {
        lemma_small_mod(0, len);
    } else {
        let j = (k - 1) as nat;
        skip_wraps_around(p, len, j);
        let c = skips(p, len, j).current_index;
        lemma_add_mod_noop(j as int, 1, len as int);
        if len == 1 {
            assert(k % 1 == 0) by (nonlinear_arith);
        } else {
            lemma_small_mod(1, len);
            if c + 1 < len {
                lemma_small_mod((c + 1) as nat, len);
            } else {
                lemma_mod_self_0(len as int);
            }
        }
    }
    if k < len {
        lemma_small_mod(k, len);
    }
    if k == len {
        lemma_mod_self_0(len as int);
    }
}

/// Stepping back from index 0 goes to the last index; from any other index
/// it goes one down.
pub proof fn previous_wraps_around(p: PlayerView, len: nat)
    requires
        0 < len <= usize::MAX,
        p.current_index < len,
    ensures
        p.current_index == 0 ==> after_previous(p, len).current_index == len - 1,
        p.current_index > 0 ==> after_previous(p, len).current_index == p.current_index - 1,
        indices_valid(p, len) ==> indices_valid(after_previous(p, len), len),
{
}

/// The manual queue comes before linear advance: the first `k` skips play
/// the first `k` queued indices, in order, and consume them.
pub proof fn queue_plays_first(p: PlayerView, len: nat, k: nat)
    requires
        len > 0,
        k <= p.queue.len(),
    ensures
        skips(p, len, k).queue == p.queue.subrange(k as int, p.queue.len() as int),
        k > 0 ==> skips(p, len, k).current_index == p.queue[k - 1],
    decreases k,
{
    if k == 0 {
        assert(p.queue.subrange(0, p.queue.len() as int) =~= p.queue);
    } else {
        queue_plays_first(p, len, (k - 1) as nat);
        let q = skips(p, len, (k - 1) as nat).queue;
        assert(q.drop_first() =~= p.queue.subrange(k as int, p.queue.len() as int));
    }
}

/// With repeat on and the sink empty, every tick queues the current track
/// again and the index never moves, however many ticks pass.
pub proof fn repeat_replays_current(
    p: PlayerView,
    songs: Seq<Song>,
    report: SinkReport,
    draw: usize,
    k: nat,
)
    requires
        p.repeat,
        report.empty,
        p.current_index == p.prev_index,
        p.current_index < songs.len(),
    ensures
        ticks(p, songs, report, draw, k).current_index == p.current_index,
        ticks(p, songs, report, draw, k).prev_index == p.prev_index,
        ticks(p, songs, report, draw, k).repeat,
        tick_actions(ticks(p, songs, report, draw, k), songs, report, draw) == seq![
            Action::Enqueue(p.current_index),
        ],
    decreases k,
{
    if k > 0 {
        repeat_replays_current(p, songs, report, draw, (k - 1) as nat);
    }
    let q = ticks(p, songs, report, draw, k);
    assert(tick_actions(q, songs, report, draw) =~= seq![Action::Enqueue(p.current_index)]);
}

/// Shuffle wins: whenever a tick changes track with shuffle on, the track it
/// plays is the one drawn, whatever skip, the queue or the end of a track chose.
pub proof fn shuffle_overrides(p: PlayerView, songs: Seq<Song>, report: SinkReport, draw: usize)
    requires
        p.shuffle,
        tick_changes(p, songs, report),
    ensures
        tick(p, songs, report, draw).current_index == draw,
        tick_actions(p, songs, report, draw).contains(Action::Enqueue(draw)),
{
    let a = tick_actions(p, songs, report, draw);
    let replay = if replays(p, report) {
        seq![Action::Enqueue(p.current_index)]
    } else {
        seq![]
    };
    assert(a[replay.len() as int] == Action::Enqueue(draw));
}

/// Setting the same volume twice asks the device for at most one change, and
/// the second call asks for nothing.
pub proof fn volume_set_once(p: PlayerView, v: u32)
    ensures
        volume_actions(after_volume(p, v), v).len() == 0,
        volume_actions(p, v).len() + volume_actions(after_volume(p, v), v).len() <= 1,
        after_volume(after_volume(p, v), v) == after_volume(p, v),
{
}

/// A tick with no pending index change, while the sink neither ran dry at
/// the end of the track nor needs a repeat, queues nothing and keeps the
/// indices; ticking again with the same report changes nothing more.
pub proof fn quiet_tick_is_noop(p: PlayerView, songs: Seq<Song>, report: SinkReport, draw: usize)
    requires
        p.current_index == p.prev_index,
        !track_ended(p, songs, report),
        !replays(p, report),
    ensures
        tick_actions(p, songs, report, draw) == Seq::<Action>::empty(),
        tick(p, songs, report, draw).current_index == p.current_index,
        tick(p, songs, report, draw).prev_index == p.prev_index,
        tick(p, songs, report, draw).queue == p.queue,
        tick(tick(p, songs, report, draw), songs, report, draw) == tick(p, songs, report, draw),
        tick_actions(tick(p, songs, report, draw), songs, report, draw) == Seq::<Action>::empty(),
{
    assert(tick_actions(p, songs, report, draw) =~= Seq::<Action>::empty());
    let q = tick(p, songs, report, draw);
    assert(tick_actions(q, songs, report, draw) =~= Seq::<Action>::empty());
}

proof fn lemma_lex_antisymmetric(a: Seq<char>, b: Seq<char>, k: nat)
    ensures
        lex_from(a, b, k) == -lex_from(b, a, k),
    decreases a.len() - k,
{
    if k < a.len() && k < b.len() && a[k as int] == b[k as int] {
        lemma_lex_antisymmetric(a, b, k + 1);
    }
}

/// Comparing two tracks the other way round flips the result.
pub proof fn song_cmp_antisymmetric(sort: Sort, songs: Seq<Song>, a: usize, b: usize)
    ensures
        song_cmp(sort, songs, a, b) == -song_cmp(sort, songs, b, a),
{
    match sort {
        Sort::Title { .. } | Sort::Artist { .. } | Sort::Album { .. } => {
            let ka = crate::text::lower_of(crate::playlist::sort_text(sort, songs[a as int]));
            let kb = crate::text::lower_of(crate::playlist::sort_text(sort, songs[b as int]));
            lemma_lex_antisymmetric(ka, kb, 0);
        },
        _ => {},
    }
}

/// No element of `s` sorts after the one that follows it.
pub open spec fn in_order(s: Seq<usize>, sort: Sort, songs: Seq<Song>) -> bool {
    forall|k: int| 0 <= k < s.len() - 1 ==> song_cmp(sort, songs, #[trigger] s[k], s[k + 1]) <= 0
}

proof fn lemma_insert_sorted(t: Seq<usize>, x: usize, sort: Sort, songs: Seq<Song>)
    requires
        in_order(t, sort, songs),
    ensures
        in_order(insert_sorted(t, x, sort, songs), sort, songs),
        insert_sorted(t, x, sort, songs).to_multiset() == t.to_multiset().insert(x),
        insert_sorted(t, x, sort, songs).len() == t.len() + 1,
        insert_sorted(t, x, sort, songs).last() == x || (t.len() > 0 && insert_sorted(
            t,
            x,
            sort,
            songs,
        ).last() == t.last()),
    decreases t.len(),
{
    broadcast use vstd::seq_lib::group_to_multiset_ensures;

    let r = insert_sorted(t, x, sort, songs);
    if t.len() == 0 || song_cmp(sort, songs, t.last(), x) <= 0 {
        assert forall|k: int| 0 <= k < r.len() - 1 implies song_cmp(
            sort,
            songs,
            #[trigger] r[k],
            r[k + 1],
        ) <= 0 by {
            if k < t.len() - 1 {
                assert(r[k] == t[k] && r[k + 1] == t[k + 1]);
            }
        }
    } else {
        let u = t.drop_last();
        assert forall|k: int| 0 <= k < u.len() - 1 implies song_cmp(
            sort,
            songs,
            #[trigger] u[k],
            u[k + 1],
        ) <= 0 by {
            assert(u[k] == t[k] && u[k + 1] == t[k + 1]);
        }
        lemma_insert_sorted(u, x, sort, songs);
        let v = insert_sorted(u, x, sort, songs);
        if v.last() == x {
            song_cmp_antisymmetric(sort, songs, t.last(), x);
        } else {
            assert(song_cmp(sort, songs, t[t.len() - 2], t[t.len() - 1]) <= 0);
        }
        assert forall|k: int| 0 <= k < r.len() - 1 implies song_cmp(
            sort,
            songs,
            #[trigger] r[k],
            r[k + 1],
        ) <= 0 by {
            if k < v.len() - 1 {
                assert(r[k] == v[k] && r[k + 1] == v[k + 1]);
            } else {
                assert(r[k] == v.last());
            }
        }
        assert(t =~= u.push(t.last()));
        assert(t.to_multiset() == u.to_multiset().insert(t.last()));
        assert(r.to_multiset() =~= t.to_multiset().insert(x));
    }
}

/// Sorting the track list yields an ordering of the same indices in which
/// no index sorts after the one that follows it.
pub proof fn sort_orders_and_keeps(s: Seq<usize>, sort: Sort, songs: Seq<Song>)
    ensures
        in_order(stable_sorted(s, sort, songs), sort, songs),
        stable_sorted(s, sort, songs).to_multiset() == s.to_multiset(),
    decreases s.len(),
{
    broadcast use vstd::seq_lib::group_to_multiset_ensures;

    if s.len() > 0 {
        let u = s.drop_last();
        sort_orders_and_keeps(u, sort, songs);
        lemma_insert_sorted(stable_sorted(u, sort, songs), s.last(), sort, songs);
        assert(s =~= u.push(s.last()));
        assert(s.to_multiset() == u.to_multiset().insert(s.last()));
    }
}

/// A tick followed by a second one that sees the sink just as the first left
/// it (same emptiness, pause state and position) asks nothing of the sink the
/// second time and keeps the indices, the queue and the flags. Left out: a
/// first tick that found the track ended and settled on the index already
/// playing, since the sink then still reports an ended track.
pub proof fn second_tick_is_quiet(
    p: PlayerView,
    songs: Seq<Song>,
    report: SinkReport,
    draw: usize,
    draw_again: usize,
)
    requires
        !(track_ended(p, songs, report) && !tick_changes(p, songs, report)),
    ensures
        ({
            let first = tick(p, songs, report, draw);
            let again = SinkReport {
                empty: first.sink.empty,
                paused: first.sink.paused,
                position: report.position,
            };
            let second = tick(first, songs, again, draw_again);
            &&& tick_actions(first, songs, again, draw_again) == Seq::<Action>::empty()
            &&& second.current_index == first.current_index
            &&& second.prev_index == first.prev_index
            &&& second.skip == first.skip
            &&& second.shuffle == first.shuffle
            &&& second.repeat == first.repeat
            &&& second.queue == first.queue
        }),
{
    let first = tick(p, songs, report, draw);
    let again = SinkReport {
        empty: first.sink.empty,
        paused: first.sink.paused,
        position: report.position,
    };
    quiet_tick_is_noop(first, songs, again, draw_again);
}

} // verus!
