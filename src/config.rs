use vstd::prelude::*;
use crate::playlist::Playlist;

verus! {

/// The persisted settings: the playlists, which one is selected, the last
/// track played and the output volume in percent.
#[derive(Debug)]
pub struct Config {
    current_playlist: usize,
    playlists: Vec<Playlist>,
    last_track_index: usize,
    volume: u32,
    pub cache_path: String,
}

/// What a `Config` holds, as plain values.
pub struct ConfigView {
    pub current_playlist: usize,
    pub playlists: Seq<Playlist>,
    pub last_track_index: usize,
    pub volume: u32,
    pub cache_path: Seq<char>,
}

impl View for Config {
    type V = ConfigView;

    closed spec fn view(&self) -> ConfigView {
        ConfigView {
            current_playlist: self.current_playlist,
            playlists: self.playlists@,
            last_track_index: self.last_track_index,
            volume: self.volume,
            cache_path: self.cache_path@,
        }
    }
}

impl Config {
    pub fn new(
        current_playlist: usize,
        playlists: Vec<Playlist>,
        last_track_index: usize,
        volume: u32,
        cache_path: String,
    ) -> (r: Config)
        ensures
            r@.current_playlist == current_playlist,
            r@.playlists == playlists@,
            r@.last_track_index == last_track_index,
            r@.volume == volume,
            r@.cache_path == cache_path@,
    {
        Config { current_playlist, playlists, last_track_index, volume, cache_path }
    }

    pub fn get_playlists(&self) -> (r: &Vec<Playlist>)
        ensures
            r@ == self@.playlists,
    {
        &self.playlists
    }

    pub fn get_last_track(&self) -> (r: usize)
        ensures
            r == self@.last_track_index,
    {
        self.last_track_index
    }

    pub fn get_volume(&self) -> (r: u32)
        ensures
            r == self@.volume,
    {
        self.volume
    }

    pub fn set_volume(&mut self, new_volume: u32)
        ensures
            final(self)@ == (ConfigView { volume: new_volume, ..old(self)@ }),
    {
        self.volume = new_volume;
    }

    pub fn current_playlist(&self) -> (r: usize)
        ensures
            r == self@.current_playlist,
    {
        self.current_playlist
    }

    pub fn set_playlist(&mut self, new_playlist: usize)
        ensures
            final(self)@ == (ConfigView { current_playlist: new_playlist, ..old(self)@ }),
    {
        self.current_playlist = new_playlist;
    }

    pub fn set_track(&mut self, last_index: usize)
        ensures
            final(self)@ == (ConfigView { last_track_index: last_index, ..old(self)@ }),
    {
        self.last_track_index = last_index;
    }

    /// Replaces the selected playlist's entry.
    pub fn update_playlist(&mut self, playlist: Playlist)
        requires
            old(self)@.current_playlist < old(self)@.playlists.len(),
        ensures
            final(self)@ == (ConfigView {
                playlists: old(self)@.playlists.update(old(self)@.current_playlist as int, playlist),
                ..old(self)@
            }),
    {
        let i = self.current_playlist;
        self.playlists.set(i, playlist);
    }
}

} // verus!
