use vstd::prelude::*;
use rand::Rng;
use crate::config::{Config, ConfigView};
use crate::keys::{Key, KeyPress, volume_up, volume_down, step_volume_up, step_volume_down};
use crate::mpris::MprisState;
use crate::text::{lower_of, lowercase};

verus! {

/// One track of the catalog, as read from its tags.
pub struct Song {
    pub title: String,
    pub artist: String,
    pub album: String,
    /// The raw bytes of the embedded cover picture, if there is one.
    pub cover: Option<Vec<u8>>,
    pub path: String,
    /// Length of the track in whole seconds.
    pub duration: u64,
    /// When the file was created, in seconds since the epoch.
    pub created: Option<u64>,
    pub search_key: String,
}

/// What the output device is doing, as the external control bridge is told.
#[derive(Debug, Clone, Copy, PartialEq, Eq, Structural)]
pub enum PlaybackStatus {
    Playing,
    Paused,
    Stopped,
}

/// One thing the host must do on the output sink or the control bridge.
/// The host performs the actions of one call in order.
#[derive(Debug, Clone, Copy, PartialEq, Eq, Structural)]
pub enum Action {
    /// Resume playback.
    Resume,
    /// Pause playback.
    Pause,
    /// Halt playback and drop everything queued.
    Stop,
    /// Decode the track at this catalog index and append it to the sink.
    Enqueue(usize),
    /// Drop the source that is playing now; the next queued one starts.
    SkipOne,
    /// Set the output volume, in percent.
    SetVolume(u32),
    /// Move the playing source to this many seconds from its start.
    Seek(u64),
    /// Tell the control bridge the playback status.
    Notify(PlaybackStatus),
}

#[derive(Debug, Clone, Copy, PartialEq, Eq, Structural)]
pub enum TransportError {
    /// The catalog holds no track.
    EmptyCatalog,
    /// An index does not address a track of the catalog.
    IndexOutOfRange,
    /// A seek target before the start of the track.
    InvalidPosition,
}

/// The engine's knowledge of the output sink: refreshed from the sink's
/// report on every tick and updated by every action the engine issues.
#[derive(Debug, Clone, Copy, PartialEq, Eq, Structural)]
pub struct SinkState {
    pub empty: bool,
    pub paused: bool,
    /// Output volume in percent.
    pub volume: u32,
}

/// What the output sink reports at the start of a tick.
#[derive(Debug, Clone, Copy, PartialEq, Eq, Structural)]
pub struct SinkReport {
    pub empty: bool,
    pub paused: bool,
    /// Elapsed seconds of the source that is playing.
    pub position: u64,
}

/// The transport engine: which track plays, what comes next, and the
/// shuffle, repeat and manual-skip policies.
#[derive(Debug, Clone)]
pub struct Player {
    pub sink: SinkState,
    pub current_index: usize,
    pub prev_index: usize,
    pub shuffle: bool,
    pub repeat: bool,
    pub track_pos: u64,
    /// Set by an explicit skip or previous: the next index change discards
    /// what the sink is playing.
    pub skip: bool,
    /// Indices the user asked to play next, first in first out.
    pub queue: Vec<usize>,
}

pub struct PlayerView {
    pub sink: SinkState,
    pub current_index: usize,
    pub prev_index: usize,
    pub shuffle: bool,
    pub repeat: bool,
    pub track_pos: u64,
    pub skip: bool,
    pub queue: Seq<usize>,
}

impl View for Player {
    type V = PlayerView;

    open spec fn view(&self) -> PlayerView {
        PlayerView {
            sink: self.sink,
            current_index: self.current_index,
            prev_index: self.prev_index,
            shuffle: self.shuffle,
            repeat: self.repeat,
            track_pos: self.track_pos,
            skip: self.skip,
            queue: self.queue@,
        }
    }
}

pub open spec fn status_of(s: SinkState) -> PlaybackStatus {
    if s.empty {
        PlaybackStatus::Stopped
    } else if s.paused {
        PlaybackStatus::Paused
    } else {
        PlaybackStatus::Playing
    }
}

/// Every index the engine holds addresses a track of a catalog of `len` tracks.
pub open spec fn indices_valid(p: PlayerView, len: nat) -> bool {
    &&& p.current_index < len
    &&& forall|k: int| 0 <= k < p.queue.len() ==> p.queue[k] < len
}

/// The error `previous` fails with: it reads the current index alone.
pub open spec fn previous_error(p: PlayerView, len: nat) -> Option<TransportError> {
    if len == 0 {
        Some(TransportError::EmptyCatalog)
    } else if p.current_index >= len {
        Some(TransportError::IndexOutOfRange)
    } else {
        None
    }
}

/// The error `skip` fails with: it reads the front of the manual queue when
/// there is one, else the current index.
pub open spec fn skip_error(p: PlayerView, len: nat) -> Option<TransportError> {
    if len == 0 {
        Some(TransportError::EmptyCatalog)
    } else if (if p.queue.len() > 0 {
        p.queue[0] >= len
    } else {
        p.current_index >= len
    }) {
        Some(TransportError::IndexOutOfRange)
    } else {
        None
    }
}

/// The error a tick fails with: it reads the current track, and the front of
/// the manual queue when that track has just ended.
pub open spec fn tick_error(p: PlayerView, songs: Seq<Song>, report: SinkReport) -> Option<
    TransportError,
> {
    if songs.len() == 0 {
        Some(TransportError::EmptyCatalog)
    } else if p.current_index >= songs.len() {
        Some(TransportError::IndexOutOfRange)
    } else if track_ended(p, songs, report) && p.queue.len() > 0 && p.queue[0] >= songs.len() {
        Some(TransportError::IndexOutOfRange)
    } else {
        None
    }
}

/// The index that follows `cur`: the front of the manual queue if there is
/// one, else the next index, wrapping to 0 after the last.
pub open spec fn next_index(cur: usize, queue: Seq<usize>, len: nat) -> usize {
    if queue.len() > 0 {
        queue[0]
    } else if cur + 1 >= len {
        0
    } else {
        (cur + 1) as usize
    }
}

pub open spec fn rest_of_queue(queue: Seq<usize>) -> Seq<usize> {
    if queue.len() > 0 {
        queue.drop_first()
    } else {
        queue
    }
}

/// The index before `cur`, wrapping to the last after 0.
pub open spec fn previous_index(cur: usize, len: nat) -> usize {
    if cur == 0 {
        (len - 1) as usize
    } else {
        (cur - 1) as usize
    }
}

pub open spec fn after_skip(p: PlayerView, len: nat) -> PlayerView {
    PlayerView {
        current_index: next_index(p.current_index, p.queue, len),
        queue: rest_of_queue(p.queue),
        skip: true,
        ..p
    }
}

pub open spec fn after_previous(p: PlayerView, len: nat) -> PlayerView {
    PlayerView { current_index: previous_index(p.current_index, len), skip: true, ..p }
}

pub open spec fn after_volume(p: PlayerView, v: u32) -> PlayerView {
    PlayerView { sink: SinkState { volume: v, ..p.sink }, ..p }
}

pub open spec fn volume_actions(p: PlayerView, v: u32) -> Seq<Action> {
    if p.sink.volume == v {
        seq![]
    } else {
        seq![Action::SetVolume(v)]
    }
}

/// The sink went empty at the very end of the current track, and repeat is off.
pub open spec fn track_ended(p: PlayerView, songs: Seq<Song>, report: SinkReport) -> bool {
    &&& report.empty
    &&& report.position == songs[p.current_index as int].duration
    &&& !p.repeat
}

/// Repeat is on and the sink ran dry: the current track is queued again.
pub open spec fn replays(p: PlayerView, report: SinkReport) -> bool {
    p.repeat && report.empty
}

/// The index a tick settles on before shuffle is applied.
pub open spec fn tick_target(p: PlayerView, songs: Seq<Song>, report: SinkReport) -> usize {
    if track_ended(p, songs, report) {
        next_index(p.current_index, p.queue, songs.len())
    } else {
        p.current_index
    }
}

/// A tick moves to another track.
pub open spec fn tick_changes(p: PlayerView, songs: Seq<Song>, report: SinkReport) -> bool {
    tick_target(p, songs, report) != p.prev_index
}

/// The track a tick plays: `draw` wins when the tick changes track and shuffle is on.
pub open spec fn tick_index(p: PlayerView, songs: Seq<Song>, report: SinkReport, draw: usize) -> usize {
    if tick_changes(p, songs, report) && p.shuffle {
        draw
    } else {
        tick_target(p, songs, report)
    }
}

/// The engine after one tick that saw `report`, with `draw` as the shuffle pick.
pub open spec fn tick(p: PlayerView, songs: Seq<Song>, report: SinkReport, draw: usize) -> PlayerView {
    let changes = tick_changes(p, songs, report);
    let index = tick_index(p, songs, report, draw);
    PlayerView {
        sink: SinkState {
            empty: report.empty && !replays(p, report) && !changes,
            paused: report.paused,
            volume: p.sink.volume,
        },
        current_index: index,
        prev_index: if changes { index } else { p.prev_index },
        track_pos: report.position,
        skip: if changes { false } else { p.skip },
        queue: if track_ended(p, songs, report) { rest_of_queue(p.queue) } else { p.queue },
        ..p
    }
}

/// What one tick asks of the sink: the current track again under repeat,
/// then the new track on a change, discarding what plays after a manual skip.
pub open spec fn tick_actions(p: PlayerView, songs: Seq<Song>, report: SinkReport, draw: usize) -> Seq<Action> {
    let replay = if replays(p, report) {
        seq![Action::Enqueue(p.current_index)]
    } else {
        seq![]
    };
    let busy = !report.empty || replays(p, report);
    let change = if tick_changes(p, songs, report) {
        seq![Action::Enqueue(tick_index(p, songs, report, draw))] + if p.skip && busy {
            seq![Action::SkipOne]
        } else {
            seq![]
        }
    } else {
        seq![]
    };
    replay + change
}

pub open spec fn after_resume(p: PlayerView) -> PlayerView {
    PlayerView { sink: SinkState { paused: false, ..p.sink }, ..p }
}

pub open spec fn after_pause(p: PlayerView) -> PlayerView {
    PlayerView { sink: SinkState { paused: true, ..p.sink }, ..p }
}

/// Pause if playing, resume if paused.
pub open spec fn after_toggle(p: PlayerView) -> PlayerView {
    if p.sink.paused {
        after_resume(p)
    } else {
        after_pause(p)
    }
}

pub open spec fn toggle_actions(p: PlayerView) -> Seq<Action> {
    if p.sink.paused {
        seq![Action::Resume, Action::Notify(status_of(after_resume(p).sink))]
    } else {
        seq![Action::Pause, Action::Notify(status_of(after_pause(p).sink))]
    }
}

pub open spec fn after_stop(p: PlayerView) -> PlayerView {
    PlayerView { sink: SinkState { empty: true, ..p.sink }, track_pos: 0, ..p }
}

/// The engine after selecting `index` directly: the sink is resumed, what it
/// plays is discarded, and selecting the track it last started restarts it.
pub open spec fn after_select(p: PlayerView, index: usize) -> PlayerView {
    PlayerView {
        sink: SinkState { empty: index != p.prev_index, paused: false, ..p.sink },
        current_index: index,
        ..p
    }
}

pub open spec fn select_actions(p: PlayerView, index: usize) -> Seq<Action> {
    (if p.sink.paused {
        seq![Action::Resume]
    } else {
        seq![]
    }) + (if !p.sink.empty {
        seq![Action::SkipOne]
    } else {
        seq![]
    }) + (if index == p.prev_index {
        seq![Action::Enqueue(index)]
    } else {
        seq![]
    })
}

/// `pos + offset` seconds, kept within the range of `u64`.
pub open spec fn seek_target(pos: u64, offset: i64) -> u64 {
    let t = pos + offset;
    if t < 0 {
        0
    } else if t > u64::MAX {
        u64::MAX
    } else {
        t as u64
    }
}

pub open spec fn notify(p: PlayerView) -> Seq<Action> {
    seq![Action::Notify(status_of(p.sink))]
}

/// A tag value, or "Unknown" where the tag is missing.
pub open spec fn tag_or_unknown(tag: Option<String>) -> Seq<char> {
    match tag {
        Some(t) => t@,
        None => "Unknown"@,
    }
}

/// The text a track is searched by: title, artist and album in lower case,
/// separated by single spaces.
pub open spec fn search_key_of(title: Seq<char>, artist: Seq<char>, album: Seq<char>) -> Seq<char> {
    lower_of(title) + seq![' '] + lower_of(artist) + seq![' '] + lower_of(album)
}

fn tag_text(tag: Option<String>) -> (r: String)
    ensures
        r@ == tag_or_unknown(tag),
{
    match tag {
        Some(t) => t,
        None => String::from_str("Unknown"),
    }
}

impl Song {
    /// A track from the values read off its file's tags.
    pub fn from_tags(
        title: Option<String>,
        artist: Option<String>,
        album: Option<String>,
        cover: Option<Vec<u8>>,
        path: String,
        duration: u64,
        created: Option<u64>,
    ) -> (r: Song)
        ensures
            r.title@ == tag_or_unknown(title),
            r.artist@ == tag_or_unknown(artist),
            r.album@ == tag_or_unknown(album),
            r.cover == cover,
            r.path@ == path@,
            r.duration == duration,
            r.created == created,
            r.search_key@ == search_key_of(r.title@, r.artist@, r.album@),
    {
        let title = tag_text(title);
        let artist = tag_text(artist);
        let album = tag_text(album);
        proof {
            reveal_strlit(" ");
        }
        let key = lowercase(title.as_str()).concat(" ");
        let key = key.concat(lowercase(artist.as_str()).as_str());
        let key = key.concat(" ");
        let key = key.concat(lowercase(album.as_str()).as_str());
        Song { title, artist, album, cover, path, duration, created, search_key: key }
    }
}

/// Relies on rand's `random_range` on the thread-local generator: the
/// number lies in the half-open range asked for.
#[verifier::external_body]
fn random_index(len: usize) -> (r: usize)
    requires
        len > 0,
    ensures
        r < len,
{
    rand::rng().random_range(0..len)
}

impl Default for Player {
    fn default() -> (r: Player)
        ensures
            r@ == (PlayerView {
                sink: SinkState { empty: true, paused: false, volume: 100 },
                current_index: 0,
                prev_index: 0,
                shuffle: false,
                repeat: false,
                track_pos: 0,
                skip: false,
                queue: seq![],
            }),
    {
        Player {
            sink: SinkState { empty: true, paused: false, volume: 100 },
            current_index: 0,
            prev_index: 0,
            shuffle: false,
            repeat: false,
            track_pos: 0,
            skip: false,
            queue: Vec::new(),
        }
    }
}

impl Player {
    /// Moves to the next index: the front of the manual queue, or the next
    /// index with wraparound.
    fn advance(&mut self, len: usize)
        requires
            len > 0,
            old(self)@.queue.len() == 0 ==> old(self).current_index < len,
        ensures
            final(self)@ == (PlayerView {
                current_index: next_index(old(self).current_index, old(self)@.queue, len as nat),
                queue: rest_of_queue(old(self)@.queue),
                ..old(self)@
            }),
    {
        if self.queue.len() > 0 {
            let front = self.queue.remove(0);
            self.current_index = front;
            proof {
                assert(self.queue@ =~= old(self)@.queue.drop_first());
            }
        } else if self.current_index + 1 >= len {
            self.current_index = 0;
        } else {
            self.current_index = self.current_index + 1;
        }
    }

    /// One reconciliation pass, with `draw` as the index shuffle picks.
    pub fn process_with_draw(&mut self, songs: &Vec<Song>, report: SinkReport, draw: usize) -> (r:
        Result<Vec<Action>, TransportError>)
        requires
            songs@.len() > 0 ==> draw < songs@.len(),
        ensures
            match tick_error(old(self)@, songs@, report) {
                Some(e) => r == Err::<Vec<Action>, TransportError>(e) && final(self)@ == old(self)@,
                None => {
                    &&& r is Ok
                    &&& r->Ok_0@ == tick_actions(old(self)@, songs@, report, draw)
                    &&& final(self)@ == tick(old(self)@, songs@, report, draw)
                },
            },
    {
        if songs.len() == 0 {
            return Err(TransportError::EmptyCatalog);
        }
        if self.current_index >= songs.len() {
            return Err(TransportError::IndexOutOfRange);
        }
        let ended = report.empty && report.position == songs[self.current_index].duration
            && !self.repeat;
        if ended && self.queue.len() > 0 && self.queue[0] >= songs.len() {
            return Err(TransportError::IndexOutOfRange);
        }
        let ghost p = self@;
        self.track_pos = report.position;
        if ended {
            self.advance(songs.len());
        }
        let mut actions: Vec<Action> = Vec::new();
        let replay = self.repeat && report.empty;
        if replay {
            actions.push(Action::Enqueue(self.current_index));
        }
        let busy = !report.empty || replay;
        let mut empty = report.empty && !replay;
        if self.current_index != self.prev_index {
            if self.shuffle {
                self.current_index = draw;
            }
            actions.push(Action::Enqueue(self.current_index));
            if self.skip {
                if busy {
                    actions.push(Action::SkipOne);
                }
                self.skip = false;
            }
            self.prev_index = self.current_index;
            empty = false;
        }
        self.sink = SinkState { empty, paused: report.paused, volume: self.sink.volume };
        proof {
            assert(actions@ =~= tick_actions(p, songs@, report, draw));
            assert(self@.queue =~= tick(p, songs@, report, draw).queue);
        }
        Ok(actions)
    }

    /// One reconciliation pass, called once per host frame with what the
    /// sink reports. Shuffle picks uniformly from the thread-local generator.
    pub fn process(&mut self, songs: &Vec<Song>, report: SinkReport) -> (r: Result<
        Vec<Action>,
        TransportError,
    >)
        ensures
            match tick_error(old(self)@, songs@, report) {
                Some(e) => r == Err::<Vec<Action>, TransportError>(e) && final(self)@ == old(self)@,
                None => exists|draw: usize|
                    {
                        &&& draw < songs@.len()
                        &&& r is Ok
                        &&& r->Ok_0@ == tick_actions(old(self)@, songs@, report, draw)
                        &&& final(self)@ == tick(old(self)@, songs@, report, draw)
                    },
            },
    {
        let draw = if songs.len() > 0 {
            random_index(songs.len())
        } else {
            0
        };
        self.process_with_draw(songs, report, draw)
    }
}

impl Player {
    /// Plays the track at `index` now.
    pub fn set_index(&mut self, songs: &Vec<Song>, index: usize) -> (r: Result<
        Vec<Action>,
        TransportError,
    >)
        ensures
            songs@.len() == 0 ==> r == Err::<Vec<Action>, TransportError>(
                TransportError::EmptyCatalog,
            ) && final(self)@ == old(self)@,
            0 < songs@.len() <= index ==> r == Err::<Vec<Action>, TransportError>(
                TransportError::IndexOutOfRange,
            ) && final(self)@ == old(self)@,
            index < songs@.len() ==> r is Ok && r->Ok_0@ == select_actions(old(self)@, index)
                && final(self)@ == after_select(old(self)@, index),
    {
        if songs.len() == 0 {
            return Err(TransportError::EmptyCatalog);
        }
        if index >= songs.len() {
            return Err(TransportError::IndexOutOfRange);
        }
        let mut actions: Vec<Action> = Vec::new();
        if self.sink.paused {
            actions.push(Action::Resume);
            self.sink.paused = false;
        }
        if !self.sink.empty {
            actions.push(Action::SkipOne);
            self.sink.empty = true;
        }
        if index == self.prev_index {
            actions.push(Action::Enqueue(index));
            self.sink.empty = false;
        }
        self.current_index = index;
        proof {
            assert(actions@ =~= select_actions(old(self)@, index));
        }
        Ok(actions)
    }

    /// Nothing is audible: the sink is empty or paused.
    pub fn idle(&self) -> (r: bool)
        ensures
            r == (self.sink.empty || self.sink.paused),
    {
        self.sink.empty || self.sink.paused
    }

    /// The sink has nothing left to play.
    pub fn done(&self) -> (r: bool)
        ensures
            r == self.sink.empty,
    {
        self.sink.empty
    }

    pub fn status(&self) -> (r: PlaybackStatus)
        ensures
            r == status_of(self.sink),
    {
        if self.sink.empty {
            PlaybackStatus::Stopped
        } else if self.sink.paused {
            PlaybackStatus::Paused
        } else {
            PlaybackStatus::Playing
        }
    }

    /// Resumes if paused, pauses otherwise, and reports the new status.
    pub fn playback(&mut self) -> (r: Vec<Action>)
        ensures
            r@ == toggle_actions(old(self)@),
            final(self)@ == after_toggle(old(self)@),
    {
        if self.sink.paused {
            self.sink.paused = false;
            let status = self.status();
            vec![Action::Resume, Action::Notify(status)]
        } else {
            self.sink.paused = true;
            let status = self.status();
            vec![Action::Pause, Action::Notify(status)]
        }
    }

    pub fn resume(&mut self) -> (r: Vec<Action>)
        ensures
            final(self)@ == after_resume(old(self)@),
            r@ == seq![Action::Resume] + notify(after_resume(old(self)@)),
    {
        self.sink.paused = false;
        let status = self.status();
        vec![Action::Resume, Action::Notify(status)]
    }

    pub fn pause(&mut self) -> (r: Vec<Action>)
        ensures
            final(self)@ == after_pause(old(self)@),
            r@ == seq![Action::Pause] + notify(after_pause(old(self)@)),
    {
        self.sink.paused = true;
        let status = self.status();
        vec![Action::Pause, Action::Notify(status)]
    }

    /// Halts the sink and rewinds the position to 0.
    pub fn stop(&mut self) -> (r: Vec<Action>)
        ensures
            final(self)@ == after_stop(old(self)@),
            r@ == seq![Action::Stop, Action::Notify(PlaybackStatus::Stopped)],
    {
        self.track_pos = 0;
        self.sink.empty = true;
        vec![Action::Stop, Action::Notify(PlaybackStatus::Stopped)]
    }

    /// Moves on to the front of the manual queue, or else to the next track
    /// with wraparound; the next tick starts it at once.
    pub fn skip(&mut self, songs: &Vec<Song>) -> (r: Result<(), TransportError>)
        ensures
            match skip_error(old(self)@, songs@.len()) {
                Some(e) => r == Err::<(), TransportError>(e) && final(self)@ == old(self)@,
                None => r is Ok && final(self)@ == after_skip(old(self)@, songs@.len()),
            },
    {
        if songs.len() == 0 {
            return Err(TransportError::EmptyCatalog);
        }
        if self.queue.len() > 0 {
            if self.queue[0] >= songs.len() {
                return Err(TransportError::IndexOutOfRange);
            }
        } else if self.current_index >= songs.len() {
            return Err(TransportError::IndexOutOfRange);
        }
        self.advance(songs.len());
        self.skip = true;
        Ok(())
    }

    /// Steps back one track with wraparound; the next tick starts it at once.
    pub fn previous(&mut self, songs: &Vec<Song>) -> (r: Result<(), TransportError>)
        ensures
            match previous_error(old(self)@, songs@.len()) {
                Some(e) => r == Err::<(), TransportError>(e) && final(self)@ == old(self)@,
                None => r is Ok && final(self)@ == after_previous(old(self)@, songs@.len()),
            },
    {
        if songs.len() == 0 {
            return Err(TransportError::EmptyCatalog);
        }
        if self.current_index >= songs.len() {
            return Err(TransportError::IndexOutOfRange);
        }
        if self.current_index == 0 {
            self.current_index = songs.len() - 1;
        } else {
            self.current_index = self.current_index - 1;
        }
        self.skip = true;
        Ok(())
    }

    /// Sets the output volume in percent, asking the sink only when it changes.
    pub fn volume(&mut self, new_volume: u32) -> (r: Vec<Action>)
        ensures
            r@ == volume_actions(old(self)@, new_volume),
            final(self)@ == after_volume(old(self)@, new_volume),
    {
        if new_volume != self.sink.volume {
            self.sink.volume = new_volume;
            vec![Action::SetVolume(new_volume)]
        } else {
            proof {
                assert(self@ =~= after_volume(old(self)@, new_volume));
            }
            Vec::new()
        }
    }

    pub fn shuffle(&mut self)
        ensures
            final(self)@ == (PlayerView { shuffle: !old(self).shuffle, ..old(self)@ }),
    {
        self.shuffle = !self.shuffle;
    }

    pub fn set_shuffle(&mut self, toggle: bool)
        ensures
            final(self)@ == (PlayerView { shuffle: toggle, ..old(self)@ }),
    {
        self.shuffle = toggle;
    }

    pub fn repeat(&mut self)
        ensures
            final(self)@ == (PlayerView { repeat: !old(self).repeat, ..old(self)@ }),
    {
        self.repeat = !self.repeat;
    }

    pub fn is_shuffled(&self) -> (r: bool)
        ensures
            r == self.shuffle,
    {
        self.shuffle
    }

    /// Seeks the sink to the engine's own position.
    pub fn seek(&self) -> (r: Vec<Action>)
        ensures
            r@ == seq![Action::Seek(self.track_pos)],
    {
        vec![Action::Seek(self.track_pos)]
    }

    /// Seeks to `seconds` from the start of the track.
    pub fn seek_to(&self, seconds: i64) -> (r: Result<Vec<Action>, TransportError>)
        ensures
            seconds < 0 ==> r == Err::<Vec<Action>, TransportError>(
                TransportError::InvalidPosition,
            ),
            seconds >= 0 ==> r is Ok && r->Ok_0@ == seq![Action::Seek(seconds as u64)],
    {
        if seconds < 0 {
            Err(TransportError::InvalidPosition)
        } else {
            Ok(vec![Action::Seek(seconds as u64)])
        }
    }

    /// Seeks by `offset` seconds from the engine's position, not before the start.
    pub fn seek_relative(&self, offset: i64) -> (r: Vec<Action>)
        ensures
            r@ == seq![Action::Seek(seek_target(self.track_pos, offset))],
    {
        let t: i128 = self.track_pos as i128 + offset as i128;
        let target: u64 = if t < 0 {
            0
        } else if t > u64::MAX as i128 {
            u64::MAX
        } else {
            t as u64
        };
        vec![Action::Seek(target)]
    }

    /// Appends `index` to the manual queue; playback is not interrupted.
    pub fn enqueue_next(&mut self, songs: &Vec<Song>, index: usize) -> (r: Result<(), TransportError>)
        ensures
            songs@.len() == 0 ==> r == Err::<(), TransportError>(TransportError::EmptyCatalog)
                && final(self)@ == old(self)@,
            0 < songs@.len() <= index ==> r == Err::<(), TransportError>(
                TransportError::IndexOutOfRange,
            ) && final(self)@ == old(self)@,
            index < songs@.len() ==> r is Ok && final(self)@ == (PlayerView {
                queue: old(self)@.queue.push(index),
                ..old(self)@
            }),
    {
        if songs.len() == 0 {
            return Err(TransportError::EmptyCatalog);
        }
        if index >= songs.len() {
            return Err(TransportError::IndexOutOfRange);
        }
        self.queue.push(index);
        Ok(())
    }
}

impl Player {
    /// Applies one command of the media-control bridge and reports the
    /// resulting status to it.
    pub fn handle_mpris(&mut self, state: MprisState, songs: &Vec<Song>) -> (r: Result<
        Vec<Action>,
        TransportError,
    >)
        ensures
            match state {
                MprisState::Play => r is Ok && final(self)@ == after_resume(old(self)@)
                    && r->Ok_0@ == seq![Action::Resume] + notify(after_resume(old(self)@)),
                MprisState::Pause => r is Ok && final(self)@ == after_pause(old(self)@)
                    && r->Ok_0@ == seq![Action::Pause] + notify(after_pause(old(self)@)),
                MprisState::PlayPause => r is Ok && final(self)@ == after_toggle(old(self)@)
                    && r->Ok_0@ == toggle_actions(old(self)@),
                MprisState::Stop => r is Ok && final(self)@ == after_stop(old(self)@)
                    && r->Ok_0@ == seq![Action::Stop, Action::Notify(PlaybackStatus::Stopped)],
                MprisState::Next => match skip_error(old(self)@, songs@.len()) {
                    Some(e) => r == Err::<Vec<Action>, TransportError>(e) && final(self)@ == old(
                        self,
                    )@,
                    None => r is Ok && final(self)@ == after_skip(old(self)@, songs@.len())
                        && r->Ok_0@ == notify(old(self)@),
                },
                MprisState::Previous => match previous_error(old(self)@, songs@.len()) {
                    Some(e) => r == Err::<Vec<Action>, TransportError>(e) && final(self)@ == old(
                        self,
                    )@,
                    None => r is Ok && final(self)@ == after_previous(old(self)@, songs@.len())
                        && r->Ok_0@ == notify(old(self)@),
                },
                MprisState::Shuffle(on) => r is Ok && final(self)@ == (PlayerView {
                    shuffle: on,
                    ..old(self)@
                }) && r->Ok_0@ == notify(old(self)@),
                MprisState::Loop => r is Ok && final(self)@ == (PlayerView {
                    repeat: !old(self).repeat,
                    ..old(self)@
                }) && r->Ok_0@ == notify(old(self)@),
                MprisState::Metadata => r is Ok && final(self)@ == old(self)@ && r->Ok_0@
                    == Seq::<Action>::empty(),
                MprisState::Volume(v) => r is Ok && final(self)@ == after_volume(old(self)@, v)
                    && r->Ok_0@ == volume_actions(old(self)@, v) + notify(old(self)@),
                MprisState::Seek(offset) => r is Ok && final(self)@ == old(self)@ && r->Ok_0@
                    == seq![Action::Seek(seek_target(old(self).track_pos, offset))] + notify(
                    old(self)@,
                ),
                MprisState::Position(pos) => final(self)@ == old(self)@ && if pos < 0 {
                    r == Err::<Vec<Action>, TransportError>(TransportError::InvalidPosition)
                } else {
                    r is Ok && r->Ok_0@ == seq![Action::Seek(pos as u64)] + notify(old(self)@)
                },
            },
    {
        let mut actions: Vec<Action> = match state {
            MprisState::Play => {
                return Ok(self.resume());
            },
            MprisState::Pause => {
                return Ok(self.pause());
            },
            MprisState::PlayPause => {
                return Ok(self.playback());
            },
            MprisState::Stop => {
                return Ok(self.stop());
            },
            MprisState::Metadata => {
                return Ok(Vec::new());
            },
            MprisState::Next => {
                match self.skip(songs) {
                    Err(e) => {
                        return Err(e);
                    },
                    Ok(()) => Vec::new(),
                }
            },
            MprisState::Previous => {
                match self.previous(songs) {
                    Err(e) => {
                        return Err(e);
                    },
                    Ok(()) => Vec::new(),
                }
            },
            MprisState::Shuffle(on) => {
                self.set_shuffle(on);
                Vec::new()
            },
            MprisState::Loop => {
                self.repeat();
                Vec::new()
            },
            MprisState::Volume(v) => self.volume(v),
            MprisState::Seek(offset) => self.seek_relative(offset),
            MprisState::Position(pos) => {
                match self.seek_to(pos) {
                    Err(e) => {
                        return Err(e);
                    },
                    Ok(a) => a,
                }
            },
        };
        let status = self.status();
        let ghost before = actions@;
        actions.push(Action::Notify(status));
        proof {
            assert(actions@ =~= before + notify(self@));
        }
        Ok(actions)
    }

    /// Applies one key press: space toggles playback; with control held,
    /// left and right step back and forward, up and down change the volume
    /// by one percent (kept within 0 to 100, and saved to `config`), and S
    /// toggles shuffle. Holding a key repeats only the volume steps.
    pub fn handle_keybinds(
        &mut self,
        press: KeyPress,
        volume: &mut u32,
        config: &mut Config,
        songs: &Vec<Song>,
    ) -> (r: Result<Vec<Action>, TransportError>)
        ensures
            press.key == Key::Space && !press.repeat ==> r is Ok && r->Ok_0@ == toggle_actions(
                old(self)@,
            ) && final(self)@ == after_toggle(old(self)@),
            press.key == Key::ArrowLeft && press.ctrl && !press.repeat ==> match previous_error(
                old(self)@,
                songs@.len(),
            ) {
                Some(e) => r == Err::<Vec<Action>, TransportError>(e) && final(self)@ == old(
                    self,
                )@,
                None => r is Ok && r->Ok_0@ == Seq::<Action>::empty() && final(self)@
                    == after_previous(old(self)@, songs@.len()),
            },
            press.key == Key::ArrowRight && press.ctrl && !press.repeat ==> match skip_error(
                old(self)@,
                songs@.len(),
            ) {
                Some(e) => r == Err::<Vec<Action>, TransportError>(e) && final(self)@ == old(
                    self,
                )@,
                None => r is Ok && r->Ok_0@ == Seq::<Action>::empty() && final(self)@
                    == after_skip(old(self)@, songs@.len()),
            },
            press.key == Key::ArrowUp && press.ctrl ==> {
                let v = volume_up(*old(volume));
                &&& *final(volume) == v
                &&& final(config)@ == (ConfigView { volume: v, ..old(config)@ })
                &&& r is Ok
                &&& r->Ok_0@ == volume_actions(old(self)@, v)
                &&& final(self)@ == after_volume(old(self)@, v)
            },
            press.key == Key::ArrowDown && press.ctrl ==> {
                let v = volume_down(*old(volume));
                &&& *final(volume) == v
                &&& final(config)@ == (ConfigView { volume: v, ..old(config)@ })
                &&& r is Ok
                &&& r->Ok_0@ == volume_actions(old(self)@, v)
                &&& final(self)@ == after_volume(old(self)@, v)
            },
            press.key == Key::S && press.ctrl && !press.repeat ==> r is Ok && r->Ok_0@ == Seq::<
                Action,
            >::empty() && final(self)@ == (PlayerView {
                shuffle: !old(self).shuffle,
                ..old(self)@
            }),
            !(press.key == Key::ArrowUp && press.ctrl) && !(press.key == Key::ArrowDown
                && press.ctrl) ==> *final(volume) == *old(volume) && final(config)@ == old(
                config,
            )@,
            press.key == Key::Other || (press.repeat && press.key != Key::ArrowUp && press.key
                != Key::ArrowDown) || (!press.ctrl && press.key != Key::Space) ==> r is Ok
                && r->Ok_0@ == Seq::<Action>::empty() && final(self)@ == old(self)@,
    {
        if press.key == Key::Space {
            if press.repeat {
                return Ok(Vec::new());
            }
            return Ok(self.playback());
        }
        if !press.ctrl {
            return Ok(Vec::new());
        }
        if press.key == Key::ArrowUp || press.key == Key::ArrowDown {
            *volume = if press.key == Key::ArrowUp {
                step_volume_up(*volume)
            } else {
                step_volume_down(*volume)
            };
            config.set_volume(*volume);
            return Ok(self.volume(*volume));
        }
        if press.repeat {
            return Ok(Vec::new());
        }
        if press.key == Key::ArrowLeft {
            match self.previous(songs) {
                Err(e) => Err(e),
                Ok(()) => Ok(Vec::new()),
            }
        } else if press.key == Key::ArrowRight {
            match self.skip(songs) {
                Err(e) => Err(e),
                Ok(()) => Ok(Vec::new()),
            }
        } else if press.key == Key::S {
            self.shuffle();
            Ok(Vec::new())
        } else {
            Ok(Vec::new())
        }
    }
}

impl Player {
    /// The engine at startup: positioned on the last track played, with the
    /// sink paused and set to the saved volume.
    pub fn restore(config: &Config) -> (r: (Player, Vec<Action>))
        ensures
            r.0@ == (PlayerView {
                sink: SinkState { empty: true, paused: true, volume: config@.volume },
                current_index: config@.last_track_index,
                prev_index: 0,
                shuffle: false,
                repeat: false,
                track_pos: 0,
                skip: false,
                queue: seq![],
            }),
            r.1@ == seq![Action::Pause] + volume_actions(
                PlayerView { sink: SinkState { empty: true, paused: true, volume: 100 }, ..r.0@ },
                config@.volume,
            ),
    {
        let mut player = Player::default();
        player.current_index = config.get_last_track();
        player.sink.paused = true;
        let mut actions = vec![Action::Pause];
        let mut set = player.volume(config.get_volume());
        actions.append(&mut set);
        (player, actions)
    }

    /// Writes the current track and the volume back to the settings.
    pub fn store(&self, config: &mut Config)
        ensures
            final(config)@ == (ConfigView {
                last_track_index: self.current_index,
                volume: self.sink.volume,
                ..old(config)@
            }),
    {
        config.set_track(self.current_index);
        config.set_volume(self.sink.volume);
    }

    /// Brings the indices back in range after the catalog was replaced: an
    /// out-of-range current index becomes 0 and out-of-range queue entries
    /// are dropped. With an empty catalog the queue is emptied.
    pub fn revalidate(&mut self, songs: &Vec<Song>)
        ensures
            final(self)@ == (PlayerView {
                current_index: if old(self).current_index < songs@.len() || songs@.len() == 0 {
                    old(self).current_index
                } else {
                    0
                },
                queue: old(self)@.queue.filter(|i: usize| i < songs@.len()),
                ..old(self)@
            }),
            songs@.len() > 0 ==> indices_valid(final(self)@, songs@.len()),
    {
        let len = songs.len();
        if len > 0 && self.current_index >= len {
            self.current_index = 0;
        }
        let mut kept: Vec<usize> = Vec::new();
        let mut k: usize = 0;
        while k < self.queue.len()
            invariant
                k <= self.queue@.len(),
                len == songs@.len(),
                kept@ == self.queue@.subrange(0, k as int).filter(|i: usize| i < len),
            decreases self.queue@.len() - k,
        {
            proof {
                let q = self.queue@.subrange(0, k as int + 1);
                assert(q.drop_last() =~= self.queue@.subrange(0, k as int));
                q.drop_last().lemma_filter_push(q.last(), |i: usize| i < len);
                assert(q =~= q.drop_last().push(q.last()));
            }
            if self.queue[k] < len {
                kept.push(self.queue[k]);
            }
            k = k + 1;
        }
        proof {
            assert(self.queue@.subrange(0, k as int) =~= self.queue@);
            let f = kept@;
            assert forall|j: int| 0 <= j < f.len() implies f[j] < len by {
                self.queue@.lemma_filter_pred(|i: usize| i < len, j);
            }
        }
        self.queue = kept;
    }
}

impl Player {
    /// Gives up on a track the device could not play. `self` is the engine
    /// after the tick whose `Enqueue` failed and `before` the engine before
    /// that tick: everything returns to `before` but the manual queue, which
    /// stays as the tick left it, and the engine then skips on from the track
    /// that failed, so the next tick tries the one after it.
    pub fn recover(&mut self, before: Player, songs: &Vec<Song>) -> (r: Result<(), TransportError>)
        ensures
            ({
                let rolled = PlayerView {
                    current_index: old(self).current_index,
                    queue: old(self)@.queue,
                    ..before@
                };
                match skip_error(rolled, songs@.len()) {
                    Some(e) => r == Err::<(), TransportError>(e) && final(self)@ == rolled,
                    None => r is Ok && final(self)@ == after_skip(rolled, songs@.len()),
                }
            }),
    {
        let mut rolled = before;
        rolled.current_index = self.current_index;
        core::mem::swap(&mut rolled.queue, &mut self.queue);
        *self = rolled;
        self.skip(songs)
    }
}

} // verus!
