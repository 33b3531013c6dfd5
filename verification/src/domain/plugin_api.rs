//! Plugin-facing domain facade: plain snapshots with string ids and URIs,
//! the mapping rules into them, and the snapshot readers over the app state.

use vstd::prelude::*;

use crate::domain::app::{
    route_id_eq, App, DeviceType, LyricsStatus, PlaybackContext, PlaybackSnapshot, RepeatState,
    Route, RouteId, SpotifyDevice,
};
use crate::domain::dup::{same_seq, Duplicate};
use crate::domain::pagination::Paged;
use crate::domain::user_config::{
    color_text, color_to_string, lemma_color_text_round_trip, parse_color, source_text,
    theme_field_names, with_theme_field, Theme, ThemeColor, UserConfig,
};
use crate::text::{join2, owned};

verus! {

/// The scripting API version this build provides.
pub const API_VERSION: u32 = 5;

impl Duplicate for ThemeColor {
    open spec fn same(a: Self, b: Self) -> bool {
        a == b
    }

    proof fn same_reflexive(a: Self) {
    }

    fn duplicate(&self) -> (r: Self) {
        *self
    }
}


/// A single line in a plugin popup or screen widget.
#[derive(Debug, Clone, PartialEq, Eq)]
pub struct PopupLine {
    pub text: String,
    pub fg: Option<ThemeColor>,
    pub bold: bool,
    pub italic: bool,
}

impl Duplicate for PopupLine {
    open spec fn same(a: Self, b: Self) -> bool {
        &&& String::same(a.text, b.text)
        &&& Option::<ThemeColor>::same(a.fg, b.fg)
        &&& a.bold == b.bold
        &&& a.italic == b.italic
    }

    proof fn same_reflexive(a: Self) {
        String::same_reflexive(a.text);
        Option::<ThemeColor>::same_reflexive(a.fg);
    }

    fn duplicate(&self) -> (r: Self) {
        PopupLine {
            text: self.text.duplicate(),
            fg: self.fg.duplicate(),
            bold: self.bold,
            italic: self.italic,
        }
    }
}

/// A popup dialog produced by a plugin.
#[derive(Debug, Clone, PartialEq, Eq)]
pub struct PluginPopup {
    pub title: String,
    pub lines: Vec<PopupLine>,
}

impl Duplicate for PluginPopup {
    open spec fn same(a: Self, b: Self) -> bool {
        &&& String::same(a.title, b.title)
        &&& Vec::<PopupLine>::same(a.lines, b.lines)
    }

    proof fn same_reflexive(a: Self) {
        String::same_reflexive(a.title);
        Vec::<PopupLine>::same_reflexive(a.lines);
    }

    fn duplicate(&self) -> (r: Self) {
        PluginPopup {
            title: self.title.duplicate(),
            lines: self.lines.duplicate(),
        }
    }
}

/// A navigable reference to an artist: optional id plus display name.
#[derive(Debug, Clone, PartialEq, Eq, Default)]
pub struct ArtistRef {
    pub id: Option<String>,
    pub name: String,
}

impl Duplicate for ArtistRef {
    open spec fn same(a: Self, b: Self) -> bool {
        &&& Option::<String>::same(a.id, b.id)
        &&& String::same(a.name, b.name)
    }

    proof fn same_reflexive(a: Self) {
        Option::<String>::same_reflexive(a.id);
        String::same_reflexive(a.name);
    }

    fn duplicate(&self) -> (r: Self) {
        ArtistRef {
            id: self.id.duplicate(),
            name: self.name.duplicate(),
        }
    }
}

/// A music track as exposed to plugins and the UI.
#[derive(Debug, Clone, PartialEq, Eq)]
pub struct TrackInfo {
    pub uri: Option<String>,
    pub name: String,
    /// Display artist names.
    pub artists: Vec<String>,
    /// Display album name.
    pub album: String,
    pub duration_ms: u64,
    /// Base62 track id (`None` for local or unknown tracks).
    pub id: Option<String>,
    pub album_id: Option<String>,
    /// Structured, navigable artist references.
    pub artist_refs: Vec<ArtistRef>,
    pub is_playable: bool,
    pub is_local: bool,
    pub track_number: u32,
    pub explicit: bool,
    /// Directly fetchable cover-art URL, when the source has one.
    pub image_url: Option<String>,
}

impl Duplicate for TrackInfo {
    open spec fn same(a: Self, b: Self) -> bool {
        &&& Option::<String>::same(a.uri, b.uri)
        &&& String::same(a.name, b.name)
        &&& Vec::<String>::same(a.artists, b.artists)
        &&& String::same(a.album, b.album)
        &&& a.duration_ms == b.duration_ms
        &&& Option::<String>::same(a.id, b.id)
        &&& Option::<String>::same(a.album_id, b.album_id)
        &&& Vec::<ArtistRef>::same(a.artist_refs, b.artist_refs)
        &&& a.is_playable == b.is_playable
        &&& a.is_local == b.is_local
        &&& a.track_number == b.track_number
        &&& a.explicit == b.explicit
        &&& Option::<String>::same(a.image_url, b.image_url)
    }

    proof fn same_reflexive(a: Self) {
        Option::<String>::same_reflexive(a.uri);
        String::same_reflexive(a.name);
        Vec::<String>::same_reflexive(a.artists);
        String::same_reflexive(a.album);
        Option::<String>::same_reflexive(a.id);
        Option::<String>::same_reflexive(a.album_id);
        Vec::<ArtistRef>::same_reflexive(a.artist_refs);
        Option::<String>::same_reflexive(a.image_url);
    }

    fn duplicate(&self) -> (r: Self) {
        TrackInfo {
            uri: self.uri.duplicate(),
            name: self.name.duplicate(),
            artists: self.artists.duplicate(),
            album: self.album.duplicate(),
            duration_ms: self.duration_ms,
            id: self.id.duplicate(),
            album_id: self.album_id.duplicate(),
            artist_refs: self.artist_refs.duplicate(),
            is_playable: self.is_playable,
            is_local: self.is_local,
            track_number: self.track_number,
            explicit: self.explicit,
            image_url: self.image_url.duplicate(),
        }
    }
}

/// A playback device as exposed to plugins.
#[derive(Debug, Clone, PartialEq, Eq)]
pub struct DeviceInfo {
    pub id: Option<String>,
    pub name: String,
    /// Lowercased device type name, e.g. `"computer"`.
    pub kind: String,
    pub is_active: bool,
    pub volume_percent: Option<u8>,
}

impl Duplicate for DeviceInfo {
    open spec fn same(a: Self, b: Self) -> bool {
        &&& Option::<String>::same(a.id, b.id)
        &&& String::same(a.name, b.name)
        &&& String::same(a.kind, b.kind)
        &&& a.is_active == b.is_active
        &&& Option::<u8>::same(a.volume_percent, b.volume_percent)
    }

    proof fn same_reflexive(a: Self) {
        Option::<String>::same_reflexive(a.id);
        String::same_reflexive(a.name);
        String::same_reflexive(a.kind);
        Option::<u8>::same_reflexive(a.volume_percent);
    }

    fn duplicate(&self) -> (r: Self) {
        DeviceInfo {
            id: self.id.duplicate(),
            name: self.name.duplicate(),
            kind: self.kind.duplicate(),
            is_active: self.is_active,
            volume_percent: self.volume_percent.duplicate(),
        }
    }
}

/// The playback state as exposed to plugins.
#[derive(Debug, Clone, PartialEq, Eq)]
pub struct PlaybackState {
    pub track: Option<TrackInfo>,
    pub is_playing: bool,
    pub progress_ms: u64,
    pub shuffle: bool,
    /// One of `"off"`, `"track"`, `"context"`.
    pub repeat: String,
    pub volume_percent: Option<u8>,
    pub device: Option<DeviceInfo>,
}

impl Duplicate for PlaybackState {
    open spec fn same(a: Self, b: Self) -> bool {
        &&& Option::<TrackInfo>::same(a.track, b.track)
        &&& a.is_playing == b.is_playing
        &&& a.progress_ms == b.progress_ms
        &&& a.shuffle == b.shuffle
        &&& String::same(a.repeat, b.repeat)
        &&& Option::<u8>::same(a.volume_percent, b.volume_percent)
        &&& Option::<DeviceInfo>::same(a.device, b.device)
    }

    proof fn same_reflexive(a: Self) {
        Option::<TrackInfo>::same_reflexive(a.track);
        String::same_reflexive(a.repeat);
        Option::<u8>::same_reflexive(a.volume_percent);
        Option::<DeviceInfo>::same_reflexive(a.device);
    }

    fn duplicate(&self) -> (r: Self) {
        PlaybackState {
            track: self.track.duplicate(),
            is_playing: self.is_playing,
            progress_ms: self.progress_ms,
            shuffle: self.shuffle,
            repeat: self.repeat.duplicate(),
            volume_percent: self.volume_percent.duplicate(),
            device: self.device.duplicate(),
        }
    }
}

/// A playlist as exposed to plugins.
#[derive(Debug, Clone, PartialEq, Eq)]
pub struct PlaylistInfo {
    pub uri: String,
    pub name: String,
    /// Owner display name (the owner id when no display name is set).
    pub owner: String,
    pub track_count: u32,
    pub id: Option<String>,
    pub owner_id: Option<String>,
    pub collaborative: bool,
    pub public: Option<bool>,
    pub image_url: Option<String>,
}

impl Duplicate for PlaylistInfo {
    open spec fn same(a: Self, b: Self) -> bool {
        &&& String::same(a.uri, b.uri)
        &&& String::same(a.name, b.name)
        &&& String::same(a.owner, b.owner)
        &&& a.track_count == b.track_count
        &&& Option::<String>::same(a.id, b.id)
        &&& Option::<String>::same(a.owner_id, b.owner_id)
        &&& a.collaborative == b.collaborative
        &&& Option::<bool>::same(a.public, b.public)
        &&& Option::<String>::same(a.image_url, b.image_url)
    }

    proof fn same_reflexive(a: Self) {
        String::same_reflexive(a.uri);
        String::same_reflexive(a.name);
        String::same_reflexive(a.owner);
        Option::<String>::same_reflexive(a.id);
        Option::<String>::same_reflexive(a.owner_id);
        Option::<bool>::same_reflexive(a.public);
        Option::<String>::same_reflexive(a.image_url);
    }

    fn duplicate(&self) -> (r: Self) {
        PlaylistInfo {
            uri: self.uri.duplicate(),
            name: self.name.duplicate(),
            owner: self.owner.duplicate(),
            track_count: self.track_count,
            id: self.id.duplicate(),
            owner_id: self.owner_id.duplicate(),
            collaborative: self.collaborative,
            public: self.public.duplicate(),
            image_url: self.image_url.duplicate(),
        }
    }
}

/// An artist as exposed to plugins.
#[derive(Debug, Clone, PartialEq, Eq, Default)]
pub struct ArtistInfo {
    pub id: Option<String>,
    pub uri: Option<String>,
    pub name: String,
    pub image_url: Option<String>,
}

impl Duplicate for ArtistInfo {
    open spec fn same(a: Self, b: Self) -> bool {
        &&& Option::<String>::same(a.id, b.id)
        &&& Option::<String>::same(a.uri, b.uri)
        &&& String::same(a.name, b.name)
        &&& Option::<String>::same(a.image_url, b.image_url)
    }

    proof fn same_reflexive(a: Self) {
        Option::<String>::same_reflexive(a.id);
        Option::<String>::same_reflexive(a.uri);
        String::same_reflexive(a.name);
        Option::<String>::same_reflexive(a.image_url);
    }

    fn duplicate(&self) -> (r: Self) {
        ArtistInfo {
            id: self.id.duplicate(),
            uri: self.uri.duplicate(),
            name: self.name.duplicate(),
            image_url: self.image_url.duplicate(),
        }
    }
}

/// An album as exposed to plugins.
#[derive(Debug, Clone, PartialEq, Eq, Default)]
pub struct AlbumInfo {
    pub id: Option<String>,
    pub uri: Option<String>,
    pub name: String,
    pub artists: Vec<ArtistRef>,
    /// One of `"album"`, `"single"`, `"compilation"`, when known.
    pub album_type: Option<String>,
    pub release_date: Option<String>,
    pub total_tracks: Option<u32>,
    pub image_url: Option<String>,
    /// Populated for a full album; empty for simplified albums.
    pub tracks: Vec<TrackInfo>,
}

impl Duplicate for AlbumInfo {
    open spec fn same(a: Self, b: Self) -> bool {
        &&& Option::<String>::same(a.id, b.id)
        &&& Option::<String>::same(a.uri, b.uri)
        &&& String::same(a.name, b.name)
        &&& Vec::<ArtistRef>::same(a.artists, b.artists)
        &&& Option::<String>::same(a.album_type, b.album_type)
        &&& Option::<String>::same(a.release_date, b.release_date)
        &&& Option::<u32>::same(a.total_tracks, b.total_tracks)
        &&& Option::<String>::same(a.image_url, b.image_url)
        &&& Vec::<TrackInfo>::same(a.tracks, b.tracks)
    }

    proof fn same_reflexive(a: Self) {
        Option::<String>::same_reflexive(a.id);
        Option::<String>::same_reflexive(a.uri);
        String::same_reflexive(a.name);
        Vec::<ArtistRef>::same_reflexive(a.artists);
        Option::<String>::same_reflexive(a.album_type);
        Option::<String>::same_reflexive(a.release_date);
        Option::<u32>::same_reflexive(a.total_tracks);
        Option::<String>::same_reflexive(a.image_url);
        Vec::<TrackInfo>::same_reflexive(a.tracks);
    }

    fn duplicate(&self) -> (r: Self) {
        AlbumInfo {
            id: self.id.duplicate(),
            uri: self.uri.duplicate(),
            name: self.name.duplicate(),
            artists: self.artists.duplicate(),
            album_type: self.album_type.duplicate(),
            release_date: self.release_date.duplicate(),
            total_tracks: self.total_tracks.duplicate(),
            image_url: self.image_url.duplicate(),
            tracks: self.tracks.duplicate(),
        }
    }
}

/// An album in the user's library with the time it was saved.
#[derive(Debug, Clone, PartialEq, Eq, Default)]
pub struct SavedAlbumInfo {
    pub album: AlbumInfo,
    /// RFC 3339 UTC timestamp.
    pub added_at: String,
}

impl Duplicate for SavedAlbumInfo {
    open spec fn same(a: Self, b: Self) -> bool {
        &&& AlbumInfo::same(a.album, b.album)
        &&& String::same(a.added_at, b.added_at)
    }

    proof fn same_reflexive(a: Self) {
        AlbumInfo::same_reflexive(a.album);
        String::same_reflexive(a.added_at);
    }

    fn duplicate(&self) -> (r: Self) {
        SavedAlbumInfo {
            album: self.album.duplicate(),
            added_at: self.added_at.duplicate(),
        }
    }
}

/// A podcast show as exposed to plugins.
#[derive(Debug, Clone, PartialEq, Eq, Default)]
pub struct ShowInfo {
    pub id: Option<String>,
    pub uri: Option<String>,
    pub name: String,
    pub description: String,
    pub publisher: String,
    pub image_url: Option<String>,
}

impl Duplicate for ShowInfo {
    open spec fn same(a: Self, b: Self) -> bool {
        &&& Option::<String>::same(a.id, b.id)
        &&& Option::<String>::same(a.uri, b.uri)
        &&& String::same(a.name, b.name)
        &&& String::same(a.description, b.description)
        &&& String::same(a.publisher, b.publisher)
        &&& Option::<String>::same(a.image_url, b.image_url)
    }

    proof fn same_reflexive(a: Self) {
        Option::<String>::same_reflexive(a.id);
        Option::<String>::same_reflexive(a.uri);
        String::same_reflexive(a.name);
        String::same_reflexive(a.description);
        String::same_reflexive(a.publisher);
        Option::<String>::same_reflexive(a.image_url);
    }

    fn duplicate(&self) -> (r: Self) {
        ShowInfo {
            id: self.id.duplicate(),
            uri: self.uri.duplicate(),
            name: self.name.duplicate(),
            description: self.description.duplicate(),
            publisher: self.publisher.duplicate(),
            image_url: self.image_url.duplicate(),
        }
    }
}

/// Where playback of an episode was last left off.
#[derive(Debug, Clone, Copy, PartialEq, Eq)]
pub struct ResumePointInfo {
    pub fully_played: bool,
    pub resume_position_ms: u64,
}

impl Duplicate for ResumePointInfo {
    open spec fn same(a: Self, b: Self) -> bool {
        &&& a.fully_played == b.fully_played
        &&& a.resume_position_ms == b.resume_position_ms
    }

    proof fn same_reflexive(a: Self) {
    }

    fn duplicate(&self) -> (r: Self) {
        ResumePointInfo {
            fully_played: self.fully_played,
            resume_position_ms: self.resume_position_ms,
        }
    }
}

/// A podcast episode as exposed to plugins.
#[derive(Debug, Clone, PartialEq, Eq)]
pub struct EpisodeInfo {
    pub id: Option<String>,
    pub uri: Option<String>,
    pub name: String,
    pub duration_ms: u64,
    pub show_name: String,
    pub description: String,
    pub release_date: String,
    pub is_playable: bool,
    pub resume_point: Option<ResumePointInfo>,
    pub image_url: Option<String>,
}

impl Duplicate for EpisodeInfo {
    open spec fn same(a: Self, b: Self) -> bool {
        &&& Option::<String>::same(a.id, b.id)
        &&& Option::<String>::same(a.uri, b.uri)
        &&& String::same(a.name, b.name)
        &&& a.duration_ms == b.duration_ms
        &&& String::same(a.show_name, b.show_name)
        &&& String::same(a.description, b.description)
        &&& String::same(a.release_date, b.release_date)
        &&& a.is_playable == b.is_playable
        &&& a.resume_point == b.resume_point
        &&& Option::<String>::same(a.image_url, b.image_url)
    }

    proof fn same_reflexive(a: Self) {
        Option::<String>::same_reflexive(a.id);
        Option::<String>::same_reflexive(a.uri);
        String::same_reflexive(a.name);
        String::same_reflexive(a.show_name);
        String::same_reflexive(a.description);
        String::same_reflexive(a.release_date);
        Option::<String>::same_reflexive(a.image_url);
    }

    fn duplicate(&self) -> (r: Self) {
        EpisodeInfo {
            id: self.id.duplicate(),
            uri: self.uri.duplicate(),
            name: self.name.duplicate(),
            duration_ms: self.duration_ms,
            show_name: self.show_name.duplicate(),
            description: self.description.duplicate(),
            release_date: self.release_date.duplicate(),
            is_playable: self.is_playable,
            resume_point: self.resume_point,
            image_url: self.image_url.duplicate(),
        }
    }
}

/// Aggregated search results; a source without a capability leaves its vector empty.
#[derive(Debug, Clone, PartialEq, Eq, Default)]
pub struct SearchResults {
    pub tracks: Vec<TrackInfo>,
    pub albums: Vec<AlbumInfo>,
    pub artists: Vec<ArtistInfo>,
    pub playlists: Vec<PlaylistInfo>,
    pub shows: Vec<ShowInfo>,
}

impl Duplicate for SearchResults {
    open spec fn same(a: Self, b: Self) -> bool {
        &&& Vec::<TrackInfo>::same(a.tracks, b.tracks)
        &&& Vec::<AlbumInfo>::same(a.albums, b.albums)
        &&& Vec::<ArtistInfo>::same(a.artists, b.artists)
        &&& Vec::<PlaylistInfo>::same(a.playlists, b.playlists)
        &&& Vec::<ShowInfo>::same(a.shows, b.shows)
    }

    proof fn same_reflexive(a: Self) {
        Vec::<TrackInfo>::same_reflexive(a.tracks);
        Vec::<AlbumInfo>::same_reflexive(a.albums);
        Vec::<ArtistInfo>::same_reflexive(a.artists);
        Vec::<PlaylistInfo>::same_reflexive(a.playlists);
        Vec::<ShowInfo>::same_reflexive(a.shows);
    }

    fn duplicate(&self) -> (r: Self) {
        SearchResults {
            tracks: self.tracks.duplicate(),
            albums: self.albums.duplicate(),
            artists: self.artists.duplicate(),
            playlists: self.playlists.duplicate(),
            shows: self.shows.duplicate(),
        }
    }
}

/// A queue item as exposed to plugins: a `kind` plus at most one payload.
#[derive(Debug, Clone, PartialEq, Eq)]
pub struct QueueItemSnapshot {
    /// `"track"` or `"episode"`.
    pub kind: String,
    pub track: Option<TrackInfo>,
    pub episode: Option<EpisodeInfo>,
}

impl Duplicate for QueueItemSnapshot {
    open spec fn same(a: Self, b: Self) -> bool {
        &&& String::same(a.kind, b.kind)
        &&& Option::<TrackInfo>::same(a.track, b.track)
        &&& Option::<EpisodeInfo>::same(a.episode, b.episode)
    }

    proof fn same_reflexive(a: Self) {
        String::same_reflexive(a.kind);
        Option::<TrackInfo>::same_reflexive(a.track);
        Option::<EpisodeInfo>::same_reflexive(a.episode);
    }

    fn duplicate(&self) -> (r: Self) {
        QueueItemSnapshot {
            kind: self.kind.duplicate(),
            track: self.track.duplicate(),
            episode: self.episode.duplicate(),
        }
    }
}

/// The playback queue as exposed to plugins.
#[derive(Debug, Clone, PartialEq, Eq, Default)]
pub struct QueueSnapshot {
    pub currently_playing: Option<QueueItemSnapshot>,
    pub items: Vec<QueueItemSnapshot>,
}

impl Duplicate for QueueSnapshot {
    open spec fn same(a: Self, b: Self) -> bool {
        &&& Option::<QueueItemSnapshot>::same(a.currently_playing, b.currently_playing)
        &&& Vec::<QueueItemSnapshot>::same(a.items, b.items)
    }

    proof fn same_reflexive(a: Self) {
        Option::<QueueItemSnapshot>::same_reflexive(a.currently_playing);
        Vec::<QueueItemSnapshot>::same_reflexive(a.items);
    }

    fn duplicate(&self) -> (r: Self) {
        QueueSnapshot {
            currently_playing: self.currently_playing.duplicate(),
            items: self.items.duplicate(),
        }
    }
}

/// A single timestamped lyrics line.
#[derive(Debug, Clone, PartialEq, Eq)]
pub struct LyricsLineSnapshot {
    pub time_ms: u64,
    pub text: String,
}

impl Duplicate for LyricsLineSnapshot {
    open spec fn same(a: Self, b: Self) -> bool {
        &&& a.time_ms == b.time_ms
        &&& String::same(a.text, b.text)
    }

    proof fn same_reflexive(a: Self) {
        String::same_reflexive(a.text);
    }

    fn duplicate(&self) -> (r: Self) {
        LyricsLineSnapshot {
            time_ms: self.time_ms,
            text: self.text.duplicate(),
        }
    }
}

/// Lyrics for the current track as exposed to plugins.
#[derive(Debug, Clone, PartialEq, Eq, Default)]
pub struct LyricsSnapshot {
    /// One of `"not_started"`, `"loading"`, `"found"`, `"not_found"`.
    pub status: String,
    pub lines: Vec<LyricsLineSnapshot>,
}

impl Duplicate for LyricsSnapshot {
    open spec fn same(a: Self, b: Self) -> bool {
        &&& String::same(a.status, b.status)
        &&& Vec::<LyricsLineSnapshot>::same(a.lines, b.lines)
    }

    proof fn same_reflexive(a: Self) {
        String::same_reflexive(a.status);
        Vec::<LyricsLineSnapshot>::same_reflexive(a.lines);
    }

    fn duplicate(&self) -> (r: Self) {
        LyricsSnapshot {
            status: self.status.duplicate(),
            lines: self.lines.duplicate(),
        }
    }
}

/// Plugin-visible behavior settings (no secrets or credentials).
#[derive(Debug, Clone, PartialEq, Eq, Default)]
pub struct BehaviorSnapshot {
    pub seek_milliseconds: u32,
    pub volume_increment: u8,
    pub tick_rate_milliseconds: u64,
    pub animation_tick_rate_milliseconds: u64,
    pub enable_text_emphasis: bool,
    pub show_loading_indicator: bool,
    pub enforce_wide_search_bar: bool,
    pub liked_icon: String,
    pub shuffle_icon: String,
    pub repeat_track_icon: String,
    pub repeat_context_icon: String,
    pub playing_icon: String,
    pub paused_icon: String,
    pub set_window_title: bool,
    pub shuffle_enabled: bool,
    pub stop_after_current_track: bool,
    pub sidebar_width_percent: u8,
    pub playbar_height_rows: u16,
    pub library_height_percent: u8,
    /// Lowercased active source name, e.g. `"spotify"`.
    pub active_source: String,
}

impl Duplicate for BehaviorSnapshot {
    open spec fn same(a: Self, b: Self) -> bool {
        &&& a.seek_milliseconds == b.seek_milliseconds
        &&& a.volume_increment == b.volume_increment
        &&& a.tick_rate_milliseconds == b.tick_rate_milliseconds
        &&& a.animation_tick_rate_milliseconds == b.animation_tick_rate_milliseconds
        &&& a.enable_text_emphasis == b.enable_text_emphasis
        &&& a.show_loading_indicator == b.show_loading_indicator
        &&& a.enforce_wide_search_bar == b.enforce_wide_search_bar
        &&& String::same(a.liked_icon, b.liked_icon)
        &&& String::same(a.shuffle_icon, b.shuffle_icon)
        &&& String::same(a.repeat_track_icon, b.repeat_track_icon)
        &&& String::same(a.repeat_context_icon, b.repeat_context_icon)
        &&& String::same(a.playing_icon, b.playing_icon)
        &&& String::same(a.paused_icon, b.paused_icon)
        &&& a.set_window_title == b.set_window_title
        &&& a.shuffle_enabled == b.shuffle_enabled
        &&& a.stop_after_current_track == b.stop_after_current_track
        &&& a.sidebar_width_percent == b.sidebar_width_percent
        &&& a.playbar_height_rows == b.playbar_height_rows
        &&& a.library_height_percent == b.library_height_percent
        &&& String::same(a.active_source, b.active_source)
    }

    proof fn same_reflexive(a: Self) {
        String::same_reflexive(a.liked_icon);
        String::same_reflexive(a.shuffle_icon);
        String::same_reflexive(a.repeat_track_icon);
        String::same_reflexive(a.repeat_context_icon);
        String::same_reflexive(a.playing_icon);
        String::same_reflexive(a.paused_icon);
        String::same_reflexive(a.active_source);
    }

    fn duplicate(&self) -> (r: Self) {
        BehaviorSnapshot {
            seek_milliseconds: self.seek_milliseconds,
            volume_increment: self.volume_increment,
            tick_rate_milliseconds: self.tick_rate_milliseconds,
            animation_tick_rate_milliseconds: self.animation_tick_rate_milliseconds,
            enable_text_emphasis: self.enable_text_emphasis,
            show_loading_indicator: self.show_loading_indicator,
            enforce_wide_search_bar: self.enforce_wide_search_bar,
            liked_icon: self.liked_icon.duplicate(),
            shuffle_icon: self.shuffle_icon.duplicate(),
            repeat_track_icon: self.repeat_track_icon.duplicate(),
            repeat_context_icon: self.repeat_context_icon.duplicate(),
            playing_icon: self.playing_icon.duplicate(),
            paused_icon: self.paused_icon.duplicate(),
            set_window_title: self.set_window_title,
            shuffle_enabled: self.shuffle_enabled,
            stop_after_current_track: self.stop_after_current_track,
            sidebar_width_percent: self.sidebar_width_percent,
            playbar_height_rows: self.playbar_height_rows,
            library_height_percent: self.library_height_percent,
            active_source: self.active_source.duplicate(),
        }
    }
}

/// User configuration as exposed to plugins: theme colors as configuration strings plus safe behavior scalars.
#[derive(Debug, Clone, PartialEq, Eq, Default)]
pub struct ConfigSnapshot {
    /// Theme element name and color string, in increasing name order.
    pub theme: Vec<(String, String)>,
    pub behavior: BehaviorSnapshot,
}

impl Duplicate for ConfigSnapshot {
    open spec fn same(a: Self, b: Self) -> bool {
        &&& Vec::<(String, String)>::same(a.theme, b.theme)
        &&& BehaviorSnapshot::same(a.behavior, b.behavior)
    }

    proof fn same_reflexive(a: Self) {
        Vec::<(String, String)>::same_reflexive(a.theme);
        BehaviorSnapshot::same_reflexive(a.behavior);
    }

    fn duplicate(&self) -> (r: Self) {
        ConfigSnapshot {
            theme: self.theme.duplicate(),
            behavior: self.behavior.duplicate(),
        }
    }
}

/// A playable item in a queue or playlist: a music track or a podcast episode.
#[derive(Debug, Clone, PartialEq, Eq)]
pub enum PlayableInfo {
    Track(TrackInfo),
    Episode(EpisodeInfo),
}

/// A widget on a plugin screen. Fixed-height widgets take their requested
/// rows; the remaining vertical space is split evenly between the rest.
#[derive(Debug, Clone, PartialEq, Eq)]
pub enum PluginWidget {
    Paragraph { lines: Vec<PopupLine>, height: Option<u16> },
    List {
        title: Option<String>,
        items: Vec<PopupLine>,
        /// 0-based index of the highlighted item.
        selected: Option<usize>,
        height: Option<u16>,
    },
    Gauge {
        /// Bit pattern (`f64::to_bits`) of the fill ratio, already clamped to `0.0..=1.0`.
        ratio_bits: u64,
        label: Option<String>,
    },
}

/// Retained content of a plugin screen.
#[derive(Debug, Clone, PartialEq, Eq, Default)]
pub struct PluginScreenContent {
    pub title: String,
    pub widgets: Vec<PluginWidget>,
}


impl Duplicate for PlayableInfo {
    open spec fn same(a: Self, b: Self) -> bool {
        match (a, b) {
            (PlayableInfo::Track(x), PlayableInfo::Track(y)) => TrackInfo::same(x, y),
            (PlayableInfo::Episode(x), PlayableInfo::Episode(y)) => EpisodeInfo::same(x, y),
            _ => false,
        }
    }

    proof fn same_reflexive(a: Self) {
        match a {
            PlayableInfo::Track(x) => TrackInfo::same_reflexive(x),
            PlayableInfo::Episode(x) => EpisodeInfo::same_reflexive(x),
        }
    }

    fn duplicate(&self) -> (r: Self) {
        match self {
            PlayableInfo::Track(x) => PlayableInfo::Track(x.duplicate()),
            PlayableInfo::Episode(x) => PlayableInfo::Episode(x.duplicate()),
        }
    }
}

/// A track or episode is playable unless the source says otherwise.
pub fn default_true() -> (b: bool)
    ensures
        b,
{
    true
}

/// The queue item a playable item is exposed as.
pub open spec fn queue_item_of(item: PlayableInfo, r: QueueItemSnapshot) -> bool {
    match item {
        PlayableInfo::Track(t) => {
            &&& r.kind@ == "track"@
            &&& r.track matches Some(x) && TrackInfo::same(x, t)
            &&& r.episode is None
        },
        PlayableInfo::Episode(e) => {
            &&& r.kind@ == "episode"@
            &&& r.track is None
            &&& r.episode matches Some(x) && EpisodeInfo::same(x, e)
        },
    }
}

impl QueueItemSnapshot {
    /// Flatten a playable item into a `kind` plus the matching payload.
    pub fn from_playable(item: &PlayableInfo) -> (r: Self)
        ensures
            queue_item_of(*item, r),
    {
        match item {
            PlayableInfo::Track(t) => QueueItemSnapshot {
                kind: owned("track"),
                track: Some(t.duplicate()),
                episode: None,
            },
            PlayableInfo::Episode(e) => QueueItemSnapshot {
                kind: owned("episode"),
                track: None,
                episode: Some(e.duplicate()),
            },
        }
    }
}

/// The plugin-facing name of a repeat mode.
pub open spec fn repeat_text(state: RepeatState) -> Seq<char> {
    match state {
        RepeatState::Off => "off"@,
        RepeatState::Track => "track"@,
        RepeatState::Context => "context"@,
    }
}

impl PlaybackState {
    /// `"off"`, `"track"` or `"context"`.
    pub fn repeat_from(state: RepeatState) -> (s: String)
        ensures
            s@ == repeat_text(state),
    {
        match state {
            RepeatState::Off => owned("off"),
            RepeatState::Track => owned("track"),
            RepeatState::Context => owned("context"),
        }
    }
}

/// The lowercased name of a device type.
pub open spec fn device_type_text(t: DeviceType) -> Seq<char> {
    match t {
        DeviceType::Computer => "computer"@,
        DeviceType::Tablet => "tablet"@,
        DeviceType::Smartphone => "smartphone"@,
        DeviceType::Smartwatch => "smartwatch"@,
        DeviceType::Speaker => "speaker"@,
        DeviceType::Tv => "tv"@,
        DeviceType::Avr => "avr"@,
        DeviceType::Stb => "stb"@,
        DeviceType::AudioDongle => "audiodongle"@,
        DeviceType::GameConsole => "gameconsole"@,
        DeviceType::CastVideo => "castvideo"@,
        DeviceType::CastAudio => "castaudio"@,
        DeviceType::Automobile => "automobile"@,
        DeviceType::Unknown => "unknown"@,
    }
}

fn device_type_name(t: DeviceType) -> (s: String)
    ensures
        s@ == device_type_text(t),
{
    match t {
        DeviceType::Computer => owned("computer"),
        DeviceType::Tablet => owned("tablet"),
        DeviceType::Smartphone => owned("smartphone"),
        DeviceType::Smartwatch => owned("smartwatch"),
        DeviceType::Speaker => owned("speaker"),
        DeviceType::Tv => owned("tv"),
        DeviceType::Avr => owned("avr"),
        DeviceType::Stb => owned("stb"),
        DeviceType::AudioDongle => owned("audiodongle"),
        DeviceType::GameConsole => owned("gameconsole"),
        DeviceType::CastVideo => owned("castvideo"),
        DeviceType::CastAudio => owned("castaudio"),
        DeviceType::Automobile => owned("automobile"),
        DeviceType::Unknown => owned("unknown"),
    }
}

/// A device volume capped at 100 percent.
pub open spec fn capped_volume(v: Option<u32>) -> Option<u8> {
    match v {
        Some(x) => Some((if x < 100 { x } else { 100 }) as u8),
        None => None,
    }
}

/// The plugin-facing form of a device.
pub open spec fn device_info_of(d: SpotifyDevice, r: DeviceInfo) -> bool {
    &&& Option::<String>::same(r.id, d.id)
    &&& r.name@ == d.name@
    &&& r.kind@ == device_type_text(d.device_type)
    &&& r.is_active == d.is_active
    &&& r.volume_percent == capped_volume(d.volume_percent)
}

impl DeviceInfo {
    /// Map a device: lowercased type name, volume capped at 100.
    pub fn from_rspotify(device: &SpotifyDevice) -> (r: Self)
        ensures
            device_info_of(*device, r),
    {
        let volume_percent: Option<u8> = match device.volume_percent {
            Some(v) => Some(if v < 100 { v as u8 } else { 100u8 }),
            None => None,
        };
        DeviceInfo {
            id: device.id.duplicate(),
            name: device.name.clone(),
            kind: device_type_name(device.device_type),
            is_active: device.is_active,
            volume_percent,
        }
    }
}

/// A playlist cover image.
#[derive(Debug, Clone, PartialEq, Eq)]
pub struct Image {
    pub url: String,
}

/// A playlist owner.
#[derive(Debug, Clone, PartialEq, Eq)]
pub struct PublicUser {
    pub display_name: Option<String>,
    /// Base62 user id.
    pub id: String,
}

/// A playlist as the Web API lists it.
#[derive(Debug, Clone, PartialEq, Eq)]
pub struct SimplifiedPlaylist {
    /// Base62 playlist id.
    pub id: String,
    pub name: String,
    pub owner: PublicUser,
    pub collaborative: bool,
    pub public: Option<bool>,
    /// Number of items in the playlist.
    pub total: u32,
    pub images: Vec<Image>,
}

/// The plugin-facing form of a listed playlist.
pub open spec fn playlist_info_of(p: SimplifiedPlaylist, r: PlaylistInfo) -> bool {
    &&& r.uri@ == "spotify:playlist:"@ + p.id@
    &&& r.name@ == p.name@
    &&& r.owner@ == match p.owner.display_name {
        Some(n) => n@,
        None => p.owner.id@,
    }
    &&& r.track_count == p.total
    &&& r.id matches Some(i) && i@ == p.id@
    &&& r.owner_id matches Some(o) && o@ == p.owner.id@
    &&& r.collaborative == p.collaborative
    &&& r.public == p.public
    &&& if p.images@.len() > 0 {
        r.image_url matches Some(u) && u@ == p.images@[0].url@
    } else {
        r.image_url is None
    }
}

/// A listed playlist's owner is shown by display name whenever the owner
/// has one, and by id only when it has none; the owner id is always the id.
pub proof fn lemma_playlist_owner_shown(p: SimplifiedPlaylist, r: PlaylistInfo)
    requires
        playlist_info_of(p, r),
    ensures
        p.owner.display_name matches Some(n) ==> r.owner@ == n@,
        p.owner.display_name is None ==> r.owner@ == p.owner.id@,
        r.owner_id matches Some(o) && o@ == p.owner.id@,
{
}

impl PlaylistInfo {
    /// Map a listed playlist; the owner falls back to the owner id.
    pub fn from_simplified(p: &SimplifiedPlaylist) -> (r: Self)
        ensures
            playlist_info_of(*p, r),
    {
        let owner: String = match &p.owner.display_name {
            Some(n) => n.clone(),
            None => p.owner.id.clone(),
        };
        let image_url: Option<String> = if p.images.len() > 0 {
            Some(p.images[0].url.clone())
        } else {
            None
        };
        PlaylistInfo {
            uri: join2("spotify:playlist:", p.id.as_str()),
            name: p.name.clone(),
            owner,
            track_count: p.total,
            id: Some(p.id.clone()),
            owner_id: Some(p.owner.id.clone()),
            collaborative: p.collaborative,
            public: p.public,
            image_url,
        }
    }
}

/// The track a native-player snapshot describes.
pub open spec fn snapshot_track_of(s: PlaybackSnapshot, t: TrackInfo) -> bool {
    &&& Option::<String>::same(t.uri, s.item_uri)
    &&& t.name@ == s.title@
    &&& Vec::<String>::same(t.artists, s.artists)
    &&& t.album@ == s.album@
    &&& t.duration_ms == s.duration_ms
    &&& Option::<String>::same(t.id, s.item_id)
    &&& t.album_id is None
    &&& t.artist_refs@.len() == 0
    &&& t.is_playable
    &&& !t.is_local
    &&& t.track_number == 0
    &&& !t.explicit
    &&& t.image_url is None
}

/// The playback state exposed for `snapshot` and `context`: the native
/// snapshot supplies track, flags and progress when present; the context
/// supplies the device (and everything else when there is no snapshot).
pub open spec fn playback_state_of(
    snapshot: Option<PlaybackSnapshot>,
    context: Option<PlaybackContext>,
    r: Option<PlaybackState>,
) -> bool {
    if snapshot is None && context is None {
        r is None
    } else {
        r matches Some(st) && {
            &&& match snapshot {
                Some(s) => {
                    &&& st.track matches Some(t) && snapshot_track_of(s, t)
                    &&& st.is_playing == s.is_playing
                    &&& st.shuffle == s.shuffle
                    &&& st.repeat@ == match s.repeat {
                        Some(m) => repeat_text(m),
                        None => "off"@,
                    }
                    &&& st.progress_ms == s.progress_ms
                },
                None => {
                    let c = context.unwrap();
                    &&& st.track is None
                    &&& st.is_playing == c.is_playing
                    &&& st.shuffle == c.shuffle_state
                    &&& st.repeat@ == repeat_text(c.repeat_state)
                    &&& st.progress_ms == 0
                },
            }
            &&& match context {
                Some(c) => st.device matches Some(d) && device_info_of(c.device, d),
                None => st.device is None,
            }
            &&& st.volume_percent == match st.device {
                Some(d) => d.volume_percent,
                None => None,
            }
        }
    }
}

fn snapshot_track(s: &PlaybackSnapshot) -> (t: TrackInfo)
    ensures
        snapshot_track_of(*s, t),
{
    TrackInfo {
        uri: s.item_uri.duplicate(),
        name: s.title.clone(),
        artists: s.artists.duplicate(),
        album: s.album.clone(),
        duration_ms: s.duration_ms,
        id: s.item_id.duplicate(),
        album_id: None,
        artist_refs: Vec::new(),
        is_playable: true,
        is_local: false,
        track_number: 0,
        explicit: false,
        image_url: None,
    }
}

/// Build the plugin-facing playback state from the app. `None` only when
/// there is neither a native-player snapshot nor a playback context.
pub fn playback_state(app: &App) -> (r: Option<PlaybackState>)
    ensures
        playback_state_of(app.playback_snapshot, app.current_playback_context, r),
{
    if app.playback_snapshot.is_none() && app.current_playback_context.is_none() {
        return None;
    }
    let device: Option<DeviceInfo> = match &app.current_playback_context {
        Some(c) => Some(DeviceInfo::from_rspotify(&c.device)),
        None => None,
    };
    let volume_percent: Option<u8> = match &device {
        Some(d) => d.volume_percent,
        None => None,
    };
    match &app.playback_snapshot {
        Some(s) => {
            let repeat: String = match s.repeat {
                Some(m) => PlaybackState::repeat_from(m),
                None => owned("off"),
            };
            Some(
                PlaybackState {
                    track: Some(snapshot_track(s)),
                    is_playing: s.is_playing,
                    progress_ms: s.progress_ms,
                    shuffle: s.shuffle,
                    repeat,
                    volume_percent,
                    device,
                },
            )
        },
        None => {
            let c: &PlaybackContext = app.current_playback_context.as_ref().unwrap();
            Some(
                PlaybackState {
                    track: None,
                    is_playing: c.is_playing,
                    progress_ms: 0,
                    shuffle: c.shuffle_state,
                    repeat: PlaybackState::repeat_from(c.repeat_state),
                    volume_percent,
                    device,
                },
            )
        },
    }
}

/// The devices from the app's cached device list, mapped one by one.
pub fn device_list(app: &App) -> (r: Vec<DeviceInfo>)
    ensures
        match app.devices {
            Some(ds) => r@.len() == ds@.len() && forall|i: int|
                0 <= i < ds@.len() ==> device_info_of(ds@[i], #[trigger] r@[i]),
            None => r@.len() == 0,
        },
{
    let mut out: Vec<DeviceInfo> = Vec::new();
    match &app.devices {
        Some(ds) => {
            let mut i: usize = 0;
            while i < ds.len()
                invariant
                    i <= ds@.len(),
                    out@.len() == i,
                    forall|j: int| 0 <= j < i ==> device_info_of(ds@[j], #[trigger] out@[j]),
                decreases ds@.len() - i,
            {
                out.push(DeviceInfo::from_rspotify(&ds[i]));
                i = i + 1;
            }
        },
        None => {},
    }
    out
}

/// The stable plugin-facing name of a screen.
pub open spec fn route_text(id: RouteId) -> Seq<char> {
    match id {
        RouteId::Analysis => "analysis"@,
        RouteId::AlbumTracks => "album_tracks"@,
        RouteId::AlbumList => "album_list"@,
        RouteId::Artist => "artist"@,
        RouteId::LyricsView => "lyrics"@,
        RouteId::CoverArtView => "cover_art"@,
        RouteId::MiniPlayer => "miniplayer"@,
        RouteId::Error => "error"@,
        RouteId::Home => "home"@,
        RouteId::RecentlyPlayed => "recently_played"@,
        RouteId::Search => "search"@,
        RouteId::SelectedDevice => "devices"@,
        RouteId::TrackTable => "track_table"@,
        RouteId::Discover => "discover"@,
        RouteId::Artists => "artists"@,
        RouteId::Podcasts => "podcasts"@,
        RouteId::PodcastEpisodes => "podcast_episodes"@,
        RouteId::Recommendations => "recommendations"@,
        RouteId::Dialog => "dialog"@,
        RouteId::AnnouncementPrompt => "announcement"@,
        RouteId::RecapPrompt => "recap_prompt"@,
        RouteId::ExitPrompt => "exit_prompt"@,
        RouteId::Settings => "settings"@,
        RouteId::HelpMenu => "help"@,
        RouteId::Queue => "queue"@,
        RouteId::Party => "party"@,
        RouteId::CreatePlaylist => "create_playlist"@,
        RouteId::Friends => "friends"@,
        RouteId::LocalBrowser => "local_browser"@,
        RouteId::Stats => "stats"@,
        RouteId::PluginScreen(name) => "plugin:"@ + name@,
    }
}

/// Stable plugin-facing name of a route; plugin screens are `plugin:<name>`.
pub fn route_name(route: &Route) -> (s: String)
    ensures
        s@ == route_text(route.id),
{
    match &route.id {
        RouteId::Analysis => owned("analysis"),
        RouteId::AlbumTracks => owned("album_tracks"),
        RouteId::AlbumList => owned("album_list"),
        RouteId::Artist => owned("artist"),
        RouteId::LyricsView => owned("lyrics"),
        RouteId::CoverArtView => owned("cover_art"),
        RouteId::MiniPlayer => owned("miniplayer"),
        RouteId::Error => owned("error"),
        RouteId::Home => owned("home"),
        RouteId::RecentlyPlayed => owned("recently_played"),
        RouteId::Search => owned("search"),
        RouteId::SelectedDevice => owned("devices"),
        RouteId::TrackTable => owned("track_table"),
        RouteId::Discover => owned("discover"),
        RouteId::Artists => owned("artists"),
        RouteId::Podcasts => owned("podcasts"),
        RouteId::PodcastEpisodes => owned("podcast_episodes"),
        RouteId::Recommendations => owned("recommendations"),
        RouteId::Dialog => owned("dialog"),
        RouteId::AnnouncementPrompt => owned("announcement"),
        RouteId::RecapPrompt => owned("recap_prompt"),
        RouteId::ExitPrompt => owned("exit_prompt"),
        RouteId::Settings => owned("settings"),
        RouteId::HelpMenu => owned("help"),
        RouteId::Queue => owned("queue"),
        RouteId::Party => owned("party"),
        RouteId::CreatePlaylist => owned("create_playlist"),
        RouteId::Friends => owned("friends"),
        RouteId::LocalBrowser => owned("local_browser"),
        RouteId::Stats => owned("stats"),
        RouteId::PluginScreen(name) => join2("plugin:", name.as_str()),
    }
}

/// Position of a route id in the declaration order (plugin screens last).
spec fn route_code(id: RouteId) -> int {
    match id {
        RouteId::Analysis => 0,
        RouteId::AlbumTracks => 1,
        RouteId::AlbumList => 2,
        RouteId::Artist => 3,
        RouteId::LyricsView => 4,
        RouteId::CoverArtView => 5,
        RouteId::MiniPlayer => 6,
        RouteId::Error => 7,
        RouteId::Home => 8,
        RouteId::RecentlyPlayed => 9,
        RouteId::Search => 10,
        RouteId::SelectedDevice => 11,
        RouteId::TrackTable => 12,
        RouteId::Discover => 13,
        RouteId::Artists => 14,
        RouteId::Podcasts => 15,
        RouteId::PodcastEpisodes => 16,
        RouteId::Recommendations => 17,
        RouteId::Dialog => 18,
        RouteId::AnnouncementPrompt => 19,
        RouteId::RecapPrompt => 20,
        RouteId::ExitPrompt => 21,
        RouteId::Settings => 22,
        RouteId::HelpMenu => 23,
        RouteId::Queue => 24,
        RouteId::Party => 25,
        RouteId::CreatePlaylist => 26,
        RouteId::Friends => 27,
        RouteId::LocalBrowser => 28,
        RouteId::Stats => 29,
        RouteId::PluginScreen(_) => 30,
    }
}

/// The position of the built-in route named `s` (30 for any other name).
spec fn text_code(s: Seq<char>) -> int {
    if s == "analysis"@ {
        0
    } else if s == "album_tracks"@ {
        1
    } else if s == "album_list"@ {
        2
    } else if s == "artist"@ {
        3
    } else if s == "lyrics"@ {
        4
    } else if s == "cover_art"@ {
        5
    } else if s == "miniplayer"@ {
        6
    } else if s == "error"@ {
        7
    } else if s == "home"@ {
        8
    } else if s == "recently_played"@ {
        9
    } else if s == "search"@ {
        10
    } else if s == "devices"@ {
        11
    } else if s == "track_table"@ {
        12
    } else if s == "discover"@ {
        13
    } else if s == "artists"@ {
        14
    } else if s == "podcasts"@ {
        15
    } else if s == "podcast_episodes"@ {
        16
    } else if s == "recommendations"@ {
        17
    } else if s == "dialog"@ {
        18
    } else if s == "announcement"@ {
        19
    } else if s == "recap_prompt"@ {
        20
    } else if s == "exit_prompt"@ {
        21
    } else if s == "settings"@ {
        22
    } else if s == "help"@ {
        23
    } else if s == "queue"@ {
        24
    } else if s == "party"@ {
        25
    } else if s == "create_playlist"@ {
        26
    } else if s == "friends"@ {
        27
    } else if s == "local_browser"@ {
        28
    } else if s == "stats"@ {
        29
    } else {
        30
    }
}

#[verifier::rlimit(50)]
proof fn lemma_text_code(id: RouteId)
    requires
        !(id is PluginScreen),
    ensures
        text_code(route_text(id)) == route_code(id),
{
    reveal_strlit("analysis");
    reveal_strlit("album_tracks");
    reveal_strlit("album_list");
    reveal_strlit("artist");
    reveal_strlit("lyrics");
    reveal_strlit("cover_art");
    reveal_strlit("miniplayer");
    reveal_strlit("error");
    reveal_strlit("home");
    reveal_strlit("recently_played");
    reveal_strlit("search");
    reveal_strlit("devices");
    reveal_strlit("track_table");
    reveal_strlit("discover");
    reveal_strlit("artists");
    reveal_strlit("podcasts");
    reveal_strlit("podcast_episodes");
    reveal_strlit("recommendations");
    reveal_strlit("dialog");
    reveal_strlit("announcement");
    reveal_strlit("recap_prompt");
    reveal_strlit("exit_prompt");
    reveal_strlit("settings");
    reveal_strlit("help");
    reveal_strlit("queue");
    reveal_strlit("party");
    reveal_strlit("create_playlist");
    reveal_strlit("friends");
    reveal_strlit("local_browser");
    reveal_strlit("stats");
    let t = route_text(id);
    match id {
        RouteId::Analysis => {
            assert(t =~= seq!['a', 'n', 'a', 'l', 'y', 's', 'i', 's']);
        },
        RouteId::AlbumTracks => {
            assert(t =~= seq!['a', 'l', 'b', 'u', 'm', '_', 't', 'r', 'a', 'c', 'k', 's']);
        },
        RouteId::AlbumList => {
            assert(t =~= seq!['a', 'l', 'b', 'u', 'm', '_', 'l', 'i', 's', 't']);
        },
        RouteId::Artist => {
            assert(t =~= seq!['a', 'r', 't', 'i', 's', 't']);
        },
        RouteId::LyricsView => {
            assert(t =~= seq!['l', 'y', 'r', 'i', 'c', 's']);
        },
        RouteId::CoverArtView => {
            assert(t =~= seq!['c', 'o', 'v', 'e', 'r', '_', 'a', 'r', 't']);
        },
        RouteId::MiniPlayer => {
            assert(t =~= seq!['m', 'i', 'n', 'i', 'p', 'l', 'a', 'y', 'e', 'r']);
        },
        RouteId::Error => {
            assert(t =~= seq!['e', 'r', 'r', 'o', 'r']);
        },
        RouteId::Home => {
            assert(t =~= seq!['h', 'o', 'm', 'e']);
        },
        RouteId::RecentlyPlayed => {
            assert(t =~= seq!['r', 'e', 'c', 'e', 'n', 't', 'l', 'y', '_', 'p', 'l', 'a', 'y', 'e', 'd']);
        },
        RouteId::Search => {
            assert(t =~= seq!['s', 'e', 'a', 'r', 'c', 'h']);
        },
        RouteId::SelectedDevice => {
            assert(t =~= seq!['d', 'e', 'v', 'i', 'c', 'e', 's']);
        },
        RouteId::TrackTable => {
            assert(t =~= seq!['t', 'r', 'a', 'c', 'k', '_', 't', 'a', 'b', 'l', 'e']);
        },
        RouteId::Discover => {
            assert(t =~= seq!['d', 'i', 's', 'c', 'o', 'v', 'e', 'r']);
        },
        RouteId::Artists => {
            assert(t =~= seq!['a', 'r', 't', 'i', 's', 't', 's']);
        },
        RouteId::Podcasts => {
            assert(t =~= seq!['p', 'o', 'd', 'c', 'a', 's', 't', 's']);
        },
        RouteId::PodcastEpisodes => {
            assert(t =~= seq!['p', 'o', 'd', 'c', 'a', 's', 't', '_', 'e', 'p', 'i', 's', 'o', 'd', 'e', 's']);
        },
        RouteId::Recommendations => {
            assert(t =~= seq!['r', 'e', 'c', 'o', 'm', 'm', 'e', 'n', 'd', 'a', 't', 'i', 'o', 'n', 's']);
        },
        RouteId::Dialog => {
            assert(t =~= seq!['d', 'i', 'a', 'l', 'o', 'g']);
        },
        RouteId::AnnouncementPrompt => {
            assert(t =~= seq!['a', 'n', 'n', 'o', 'u', 'n', 'c', 'e', 'm', 'e', 'n', 't']);
        },
        RouteId::RecapPrompt => {
            assert(t =~= seq!['r', 'e', 'c', 'a', 'p', '_', 'p', 'r', 'o', 'm', 'p', 't']);
        },
        RouteId::ExitPrompt => {
            assert(t =~= seq!['e', 'x', 'i', 't', '_', 'p', 'r', 'o', 'm', 'p', 't']);
        },
        RouteId::Settings => {
            assert(t =~= seq!['s', 'e', 't', 't', 'i', 'n', 'g', 's']);
        },
        RouteId::HelpMenu => {
            assert(t =~= seq!['h', 'e', 'l', 'p']);
        },
        RouteId::Queue => {
            assert(t =~= seq!['q', 'u', 'e', 'u', 'e']);
        },
        RouteId::Party => {
            assert(t =~= seq!['p', 'a', 'r', 't', 'y']);
        },
        RouteId::CreatePlaylist => {
            assert(t =~= seq!['c', 'r', 'e', 'a', 't', 'e', '_', 'p', 'l', 'a', 'y', 'l', 'i', 's', 't']);
        },
        RouteId::Friends => {
            assert(t =~= seq!['f', 'r', 'i', 'e', 'n', 'd', 's']);
        },
        RouteId::LocalBrowser => {
            assert(t =~= seq!['l', 'o', 'c', 'a', 'l', '_', 'b', 'r', 'o', 'w', 's', 'e', 'r']);
        },
        RouteId::Stats => {
            assert(t =~= seq!['s', 't', 'a', 't', 's']);
        },
        RouteId::PluginScreen(_) => {},
    }
}

/// Route names tell routes apart: `route_name` gives two routes the same
/// name exactly when they are on the same screen (whatever their focused and
/// hovered blocks), and a route's name starts with `plugin:` exactly when
/// the route is a plugin screen.
pub proof fn lemma_route_name_injective(r1: Route, r2: Route)
    ensures
        route_text(r1.id) == route_text(r2.id) <==> route_id_eq(r1.id, r2.id),
        "plugin:"@.is_prefix_of(route_text(r1.id)) <==> r1.id is PluginScreen,
{
    let a = r1.id;
    let b = r2.id;
    reveal_strlit("analysis");
    reveal_strlit("album_tracks");
    reveal_strlit("album_list");
    reveal_strlit("artist");
    reveal_strlit("lyrics");
    reveal_strlit("cover_art");
    reveal_strlit("miniplayer");
    reveal_strlit("error");
    reveal_strlit("home");
    reveal_strlit("recently_played");
    reveal_strlit("search");
    reveal_strlit("devices");
    reveal_strlit("track_table");
    reveal_strlit("discover");
    reveal_strlit("artists");
    reveal_strlit("podcasts");
    reveal_strlit("podcast_episodes");
    reveal_strlit("recommendations");
    reveal_strlit("dialog");
    reveal_strlit("announcement");
    reveal_strlit("recap_prompt");
    reveal_strlit("exit_prompt");
    reveal_strlit("settings");
    reveal_strlit("help");
    reveal_strlit("queue");
    reveal_strlit("party");
    reveal_strlit("create_playlist");
    reveal_strlit("friends");
    reveal_strlit("local_browser");
    reveal_strlit("stats");
    reveal_strlit("plugin:");
    let ta = route_text(a);
    let tb = route_text(b);
    if "plugin:"@.is_prefix_of(ta) {
        assert(ta[0] == ta.subrange(0, 7)[0]);
        assert(ta[1] == ta.subrange(0, 7)[1]);
    }
    if "plugin:"@.is_prefix_of(tb) {
        assert(tb[0] == tb.subrange(0, 7)[0]);
        assert(tb[1] == tb.subrange(0, 7)[1]);
    }
    if let RouteId::PluginScreen(x) = a {
        assert(ta.subrange(0, 7) =~= "plugin:"@);
        assert(ta.subrange(7, ta.len() as int) =~= x@);
        if let RouteId::PluginScreen(y) = b {
            assert(tb.subrange(7, tb.len() as int) =~= y@);
        }
    }
    if let RouteId::PluginScreen(y) = b {
        assert(tb.subrange(0, 7) =~= "plugin:"@);
    }
    if !(a is PluginScreen) && !(b is PluginScreen) {
        lemma_text_code(a);
        lemma_text_code(b);
    }
}

/// The items of all pages, page by page, in order.
pub open spec fn page_items<T>(pages: Seq<Paged<T>>) -> Seq<T>
    decreases pages.len(),
{
    if pages.len() == 0 {
        Seq::empty()
    } else {
        page_items(pages.drop_last()) + pages.last().items@
    }
}

fn flatten_pages<T: Duplicate>(pages: &Vec<Paged<T>>) -> (r: Vec<T>)
    ensures
        same_seq(r@, page_items(pages@)),
{
    let mut out: Vec<T> = Vec::new();
    let mut p: usize = 0;
    assert(pages@.subrange(0, 0) =~= Seq::<Paged<T>>::empty());
    while p < pages.len()
        invariant
            p <= pages@.len(),
            same_seq(out@, page_items(pages@.subrange(0, p as int))),
        decreases pages@.len() - p,
    {
        let items: &Vec<T> = &pages[p].items;
        let ghost base = out@;
        let mut k: usize = 0;
        while k < items.len()
            invariant
                p < pages@.len(),
                *items == pages@[p as int].items,
                k <= items@.len(),
                out@.len() == base.len() + k,
                same_seq(base, page_items(pages@.subrange(0, p as int))),
                forall|j: int| 0 <= j < base.len() ==> #[trigger] out@[j] == base[j],
                forall|j: int|
                    0 <= j < k ==> T::same(#[trigger] out@[base.len() + j], items@[j]),
            decreases items@.len() - k,
        {
            out.push(items[k].duplicate());
            k = k + 1;
        }
        proof {
            let next = pages@.subrange(0, p + 1);
            assert(next.drop_last() =~= pages@.subrange(0, p as int));
            assert(next.last() == pages@[p as int]);
            let want = page_items(next);
            assert(want == page_items(pages@.subrange(0, p as int)) + items@);
            assert forall|j: int| 0 <= j < out@.len() implies T::same(#[trigger] out@[j], want[j]) by {
                if j < base.len() {
                } else {
                    assert(out@[j] == out@[base.len() + (j - base.len())]);
                }
            }
        }
        p = p + 1;
    }
    assert(pages@.subrange(0, pages@.len() as int) =~= pages@);
    out
}

/// The user's playlists.
pub fn playlists_snapshot(app: &App) -> (r: Vec<PlaylistInfo>)
    ensures
        same_seq(r@, app.all_playlists@),
{
    app.all_playlists.duplicate()
}

/// Saved tracks fetched so far, in library order.
pub fn saved_tracks_snapshot(app: &App) -> (r: Vec<TrackInfo>)
    ensures
        same_seq(r@, page_items(app.library.saved_tracks.pages@)),
{
    flatten_pages(&app.library.saved_tracks.pages)
}

/// Saved albums fetched so far, in library order.
pub fn saved_albums_snapshot(app: &App) -> (r: Vec<SavedAlbumInfo>)
    ensures
        same_seq(r@, page_items(app.library.saved_albums.pages@)),
{
    flatten_pages(&app.library.saved_albums.pages)
}

/// Saved shows fetched so far, in library order.
pub fn saved_shows_snapshot(app: &App) -> (r: Vec<ShowInfo>)
    ensures
        same_seq(r@, page_items(app.library.saved_shows.pages@)),
{
    flatten_pages(&app.library.saved_shows.pages)
}

/// Recently played tracks, most recent first; empty before the first fetch.
pub fn recently_played_snapshot(app: &App) -> (r: Vec<TrackInfo>)
    ensures
        match app.recently_played {
            Some(page) => same_seq(r@, page.items@),
            None => r@.len() == 0,
        },
{
    match &app.recently_played {
        Some(page) => page.items.duplicate(),
        None => Vec::new(),
    }
}

/// The playback queue; an unavailable queue is an empty snapshot.
pub fn queue_snapshot(app: &App) -> (r: QueueSnapshot)
    ensures
        match app.queue {
            None => r.currently_playing is None && r.items@.len() == 0,
            Some(q) => {
                &&& match q.currently_playing {
                    Some(item) => r.currently_playing matches Some(c) && queue_item_of(item, c),
                    None => r.currently_playing is None,
                }
                &&& r.items@.len() == q.queue@.len()
                &&& forall|i: int|
                    0 <= i < q.queue@.len() ==> queue_item_of(q.queue@[i], #[trigger] r.items@[i])
            },
        },
{
    match &app.queue {
        None => QueueSnapshot { currently_playing: None, items: Vec::new() },
        Some(q) => {
            let currently_playing: Option<QueueItemSnapshot> = match &q.currently_playing {
                Some(item) => Some(QueueItemSnapshot::from_playable(item)),
                None => None,
            };
            let mut items: Vec<QueueItemSnapshot> = Vec::new();
            let mut i: usize = 0;
            while i < q.queue.len()
                invariant
                    i <= q.queue@.len(),
                    items@.len() == i,
                    forall|j: int|
                        0 <= j < i ==> queue_item_of(q.queue@[j], #[trigger] items@[j]),
                decreases q.queue@.len() - i,
            {
                items.push(QueueItemSnapshot::from_playable(&q.queue[i]));
                i = i + 1;
            }
            QueueSnapshot { currently_playing, items }
        },
    }
}

fn page_items_or_empty<T: Duplicate>(page: &Option<Paged<T>>) -> (r: Vec<T>)
    ensures
        match page {
            Some(p) => same_seq(r@, p.items@),
            None => r@.len() == 0,
        },
{
    match page {
        Some(p) => p.items.duplicate(),
        None => Vec::new(),
    }
}

/// The current search results: the first page of each category.
pub fn search_results_snapshot(app: &App) -> (r: SearchResults)
    ensures
        match app.search_results.tracks {
            Some(p) => same_seq(r.tracks@, p.items@),
            None => r.tracks@.len() == 0,
        },
        match app.search_results.albums {
            Some(p) => same_seq(r.albums@, p.items@),
            None => r.albums@.len() == 0,
        },
        match app.search_results.artists {
            Some(p) => same_seq(r.artists@, p.items@),
            None => r.artists@.len() == 0,
        },
        match app.search_results.playlists {
            Some(p) => same_seq(r.playlists@, p.items@),
            None => r.playlists@.len() == 0,
        },
        match app.search_results.shows {
            Some(p) => same_seq(r.shows@, p.items@),
            None => r.shows@.len() == 0,
        },
{
    SearchResults {
        tracks: page_items_or_empty(&app.search_results.tracks),
        albums: page_items_or_empty(&app.search_results.albums),
        artists: page_items_or_empty(&app.search_results.artists),
        playlists: page_items_or_empty(&app.search_results.playlists),
        shows: page_items_or_empty(&app.search_results.shows),
    }
}

/// The plugin-facing name of a lyrics fetch status.
pub open spec fn lyrics_status_text(s: LyricsStatus) -> Seq<char> {
    match s {
        LyricsStatus::NotStarted => "not_started"@,
        LyricsStatus::Loading => "loading"@,
        LyricsStatus::Found => "found"@,
        LyricsStatus::NotFound => "not_found"@,
    }
}

/// Lyrics for the current track, with the fetch status spelled out.
pub fn lyrics_snapshot(app: &App) -> (r: LyricsSnapshot)
    ensures
        r.status@ == lyrics_status_text(app.lyrics_status),
        match app.lyrics {
            Some(lines) => r.lines@.len() == lines@.len() && forall|i: int|
                0 <= i < lines@.len() ==> (#[trigger] r.lines@[i]).time_ms == lines@[i].0
                    && r.lines@[i].text@ == lines@[i].1@,
            None => r.lines@.len() == 0,
        },
{
    let status: String = match app.lyrics_status {
        LyricsStatus::NotStarted => owned("not_started"),
        LyricsStatus::Loading => owned("loading"),
        LyricsStatus::Found => owned("found"),
        LyricsStatus::NotFound => owned("not_found"),
    };
    let mut out: Vec<LyricsLineSnapshot> = Vec::new();
    match &app.lyrics {
        Some(lines) => {
            let mut i: usize = 0;
            while i < lines.len()
                invariant
                    i <= lines@.len(),
                    out@.len() == i,
                    forall|j: int|
                        0 <= j < i ==> (#[trigger] out@[j]).time_ms == lines@[j].0 && out@[j].text@
                            == lines@[j].1@,
                decreases lines@.len() - i,
            {
                out.push(LyricsLineSnapshot { time_ms: lines[i].0, text: lines[i].1.clone() });
                i = i + 1;
            }
        },
        None => {},
    }
    LyricsSnapshot { status, lines: out }
}

/// The theme element names, in increasing order, with their colors.
pub open spec fn theme_entries(t: crate::domain::user_config::Theme) -> Seq<(Seq<char>, Seq<char>)> {
    seq![
        ("active"@, color_text(t.active)),
        ("analysis_bar"@, color_text(t.analysis_bar)),
        ("analysis_bar_text"@, color_text(t.analysis_bar_text)),
        ("background"@, color_text(t.background)),
        ("banner"@, color_text(t.banner)),
        ("error_border"@, color_text(t.error_border)),
        ("error_text"@, color_text(t.error_text)),
        ("header"@, color_text(t.header)),
        ("highlighted_lyrics"@, color_text(t.highlighted_lyrics)),
        ("hint"@, color_text(t.hint)),
        ("hovered"@, color_text(t.hovered)),
        ("inactive"@, color_text(t.inactive)),
        ("playbar_background"@, color_text(t.playbar_background)),
        ("playbar_progress"@, color_text(t.playbar_progress)),
        ("playbar_progress_text"@, color_text(t.playbar_progress_text)),
        ("playbar_text"@, color_text(t.playbar_text)),
        ("selected"@, color_text(t.selected)),
        ("text"@, color_text(t.text)),
    ]
}

fn theme_entry(name: &str, c: ThemeColor) -> (e: (String, String))
    ensures
        e.0@ == name@,
        e.1@ == color_text(c),
{
    (owned(name), color_to_string(c))
}

/// Build the plugin-visible configuration: theme colors in their
/// configuration-file form, plus the safe behavior scalars.
pub fn config_snapshot(config: &UserConfig) -> (r: ConfigSnapshot)
    ensures
        r.theme@.map_values(|e: (String, String)| (e.0@, e.1@)) == theme_entries(config.theme),
        r.behavior.seek_milliseconds == config.behavior.seek_milliseconds,
        r.behavior.volume_increment == config.behavior.volume_increment,
        r.behavior.tick_rate_milliseconds == config.behavior.tick_rate_milliseconds,
        r.behavior.animation_tick_rate_milliseconds
            == config.behavior.animation_tick_rate_milliseconds,
        r.behavior.enable_text_emphasis == config.behavior.enable_text_emphasis,
        r.behavior.show_loading_indicator == config.behavior.show_loading_indicator,
        r.behavior.enforce_wide_search_bar == config.behavior.enforce_wide_search_bar,
        r.behavior.liked_icon@ == config.behavior.liked_icon@,
        r.behavior.shuffle_icon@ == config.behavior.shuffle_icon@,
        r.behavior.repeat_track_icon@ == config.behavior.repeat_track_icon@,
        r.behavior.repeat_context_icon@ == config.behavior.repeat_context_icon@,
        r.behavior.playing_icon@ == config.behavior.playing_icon@,
        r.behavior.paused_icon@ == config.behavior.paused_icon@,
        r.behavior.set_window_title == config.behavior.set_window_title,
        r.behavior.shuffle_enabled == config.behavior.shuffle_enabled,
        r.behavior.stop_after_current_track == config.behavior.stop_after_current_track,
        r.behavior.sidebar_width_percent == config.behavior.sidebar_width_percent,
        r.behavior.playbar_height_rows == config.behavior.playbar_height_rows,
        r.behavior.library_height_percent == config.behavior.library_height_percent,
        r.behavior.active_source@ == source_text(config.behavior.active_source),
{
    let t: &crate::domain::user_config::Theme = &config.theme;
    let mut theme: Vec<(String, String)> = Vec::new();
    theme.push(theme_entry("active", t.active));
    theme.push(theme_entry("analysis_bar", t.analysis_bar));
    theme.push(theme_entry("analysis_bar_text", t.analysis_bar_text));
    theme.push(theme_entry("background", t.background));
    theme.push(theme_entry("banner", t.banner));
    theme.push(theme_entry("error_border", t.error_border));
    theme.push(theme_entry("error_text", t.error_text));
    theme.push(theme_entry("header", t.header));
    theme.push(theme_entry("highlighted_lyrics", t.highlighted_lyrics));
    theme.push(theme_entry("hint", t.hint));
    theme.push(theme_entry("hovered", t.hovered));
    theme.push(theme_entry("inactive", t.inactive));
    theme.push(theme_entry("playbar_background", t.playbar_background));
    theme.push(theme_entry("playbar_progress", t.playbar_progress));
    theme.push(theme_entry("playbar_progress_text", t.playbar_progress_text));
    theme.push(theme_entry("playbar_text", t.playbar_text));
    theme.push(theme_entry("selected", t.selected));
    theme.push(theme_entry("text", t.text));
    proof {
        assert(theme@.map_values(|e: (String, String)| (e.0@, e.1@)) =~= theme_entries(config.theme));
    }
    let b: &crate::domain::user_config::BehaviorConfig = &config.behavior;
    ConfigSnapshot {
        theme,
        behavior: BehaviorSnapshot {
            seek_milliseconds: b.seek_milliseconds,
            volume_increment: b.volume_increment,
            tick_rate_milliseconds: b.tick_rate_milliseconds,
            animation_tick_rate_milliseconds: b.animation_tick_rate_milliseconds,
            enable_text_emphasis: b.enable_text_emphasis,
            show_loading_indicator: b.show_loading_indicator,
            enforce_wide_search_bar: b.enforce_wide_search_bar,
            liked_icon: b.liked_icon.clone(),
            shuffle_icon: b.shuffle_icon.clone(),
            repeat_track_icon: b.repeat_track_icon.clone(),
            repeat_context_icon: b.repeat_context_icon.clone(),
            playing_icon: b.playing_icon.clone(),
            paused_icon: b.paused_icon.clone(),
            set_window_title: b.set_window_title,
            shuffle_enabled: b.shuffle_enabled,
            stop_after_current_track: b.stop_after_current_track,
            sidebar_width_percent: b.sidebar_width_percent,
            playbar_height_rows: b.playbar_height_rows,
            library_height_percent: b.library_height_percent,
            active_source: b.active_source.lowercase_name(),
        },
    }
}

} // verus!

verus! {
/// What the write-back law says of one theme entry.
pub open spec fn entry_writes_back(t: Theme, e: (Seq<char>, Seq<char>)) -> bool {
    &&& theme_field_names().contains(e.0)
    &&& parse_color(e.1) matches Ok(c) && with_theme_field(t, e.0, c) == t
}

proof fn lemma_entry_active(t: Theme)
    ensures
        entry_writes_back(t, theme_entries(t)[0]),
{
    lemma_color_text_round_trip(t.active);
    reveal_strlit("active");
    assert(theme_field_names()[0] == theme_entries(t)[0].0);
}

proof fn lemma_entry_analysis_bar(t: Theme)
    ensures
        entry_writes_back(t, theme_entries(t)[1]),
{
    lemma_color_text_round_trip(t.analysis_bar);
    reveal_strlit("active");
    reveal_strlit("banner");
    reveal_strlit("error_border");
    reveal_strlit("error_text");
    reveal_strlit("hint");
    reveal_strlit("hovered");
    reveal_strlit("inactive");
    reveal_strlit("playbar_background");
    reveal_strlit("playbar_progress");
    reveal_strlit("playbar_progress_text");
    reveal_strlit("playbar_text");
    reveal_strlit("selected");
    reveal_strlit("text");
    reveal_strlit("background");
    reveal_strlit("header");
    reveal_strlit("highlighted_lyrics");
    reveal_strlit("analysis_bar");
    assert("analysis_bar"@[0] != "error_border"@[0]);
    assert("analysis_bar"@[0] != "playbar_text"@[0]);
    assert(theme_field_names()[16] == theme_entries(t)[1].0);
}

proof fn lemma_entry_analysis_bar_text(t: Theme)
    ensures
        entry_writes_back(t, theme_entries(t)[2]),
{
    lemma_color_text_round_trip(t.analysis_bar_text);
    reveal_strlit("active");
    reveal_strlit("banner");
    reveal_strlit("error_border");
    reveal_strlit("error_text");
    reveal_strlit("hint");
    reveal_strlit("hovered");
    reveal_strlit("inactive");
    reveal_strlit("playbar_background");
    reveal_strlit("playbar_progress");
    reveal_strlit("playbar_progress_text");
    reveal_strlit("playbar_text");
    reveal_strlit("selected");
    reveal_strlit("text");
    reveal_strlit("background");
    reveal_strlit("header");
    reveal_strlit("highlighted_lyrics");
    reveal_strlit("analysis_bar");
    reveal_strlit("analysis_bar_text");
    assert(theme_field_names()[17] == theme_entries(t)[2].0);
}

proof fn lemma_entry_background(t: Theme)
    ensures
        entry_writes_back(t, theme_entries(t)[3]),
{
    lemma_color_text_round_trip(t.background);
    reveal_strlit("active");
    reveal_strlit("banner");
    reveal_strlit("error_border");
    reveal_strlit("error_text");
    reveal_strlit("hint");
    reveal_strlit("hovered");
    reveal_strlit("inactive");
    reveal_strlit("playbar_background");
    reveal_strlit("playbar_progress");
    reveal_strlit("playbar_progress_text");
    reveal_strlit("playbar_text");
    reveal_strlit("selected");
    reveal_strlit("text");
    reveal_strlit("background");
    assert("background"@[0] != "error_text"@[0]);
    assert(theme_field_names()[13] == theme_entries(t)[3].0);
}

proof fn lemma_entry_banner(t: Theme)
    ensures
        entry_writes_back(t, theme_entries(t)[4]),
{
    lemma_color_text_round_trip(t.banner);
    reveal_strlit("active");
    reveal_strlit("banner");
    assert("banner"@[0] != "active"@[0]);
    assert(theme_field_names()[1] == theme_entries(t)[4].0);
}

proof fn lemma_entry_error_border(t: Theme)
    ensures
        entry_writes_back(t, theme_entries(t)[5]),
{
    lemma_color_text_round_trip(t.error_border);
    reveal_strlit("active");
    reveal_strlit("banner");
    reveal_strlit("error_border");
    assert(theme_field_names()[2] == theme_entries(t)[5].0);
}

proof fn lemma_entry_error_text(t: Theme)
    ensures
        entry_writes_back(t, theme_entries(t)[6]),
{
    lemma_color_text_round_trip(t.error_text);
    reveal_strlit("active");
    reveal_strlit("banner");
    reveal_strlit("error_border");
    reveal_strlit("error_text");
    assert(theme_field_names()[3] == theme_entries(t)[6].0);
}

proof fn lemma_entry_header(t: Theme)
    ensures
        entry_writes_back(t, theme_entries(t)[7]),
{
    lemma_color_text_round_trip(t.header);
    reveal_strlit("active");
    reveal_strlit("banner");
    reveal_strlit("error_border");
    reveal_strlit("error_text");
    reveal_strlit("hint");
    reveal_strlit("hovered");
    reveal_strlit("inactive");
    reveal_strlit("playbar_background");
    reveal_strlit("playbar_progress");
    reveal_strlit("playbar_progress_text");
    reveal_strlit("playbar_text");
    reveal_strlit("selected");
    reveal_strlit("text");
    reveal_strlit("background");
    reveal_strlit("header");
    assert("header"@[0] != "active"@[0]);
    assert("header"@[0] != "banner"@[0]);
    assert(theme_field_names()[14] == theme_entries(t)[7].0);
}

proof fn lemma_entry_highlighted_lyrics(t: Theme)
    ensures
        entry_writes_back(t, theme_entries(t)[8]),
{
    lemma_color_text_round_trip(t.highlighted_lyrics);
    reveal_strlit("active");
    reveal_strlit("banner");
    reveal_strlit("error_border");
    reveal_strlit("error_text");
    reveal_strlit("hint");
    reveal_strlit("hovered");
    reveal_strlit("inactive");
    reveal_strlit("playbar_background");
    reveal_strlit("playbar_progress");
    reveal_strlit("playbar_progress_text");
    reveal_strlit("playbar_text");
    reveal_strlit("selected");
    reveal_strlit("text");
    reveal_strlit("background");
    reveal_strlit("header");
    reveal_strlit("highlighted_lyrics");
    assert("highlighted_lyrics"@[0] != "playbar_background"@[0]);
    assert(theme_field_names()[15] == theme_entries(t)[8].0);
}

proof fn lemma_entry_hint(t: Theme)
    ensures
        entry_writes_back(t, theme_entries(t)[9]),
{
    lemma_color_text_round_trip(t.hint);
    reveal_strlit("active");
    reveal_strlit("banner");
    reveal_strlit("error_border");
    reveal_strlit("error_text");
    reveal_strlit("hint");
    assert(theme_field_names()[4] == theme_entries(t)[9].0);
}

proof fn lemma_entry_hovered(t: Theme)
    ensures
        entry_writes_back(t, theme_entries(t)[10]),
{
    lemma_color_text_round_trip(t.hovered);
    reveal_strlit("active");
    reveal_strlit("banner");
    reveal_strlit("error_border");
    reveal_strlit("error_text");
    reveal_strlit("hint");
    reveal_strlit("hovered");
    assert(theme_field_names()[5] == theme_entries(t)[10].0);
}

proof fn lemma_entry_inactive(t: Theme)
    ensures
        entry_writes_back(t, theme_entries(t)[11]),
{
    lemma_color_text_round_trip(t.inactive);
    reveal_strlit("active");
    reveal_strlit("banner");
    reveal_strlit("error_border");
    reveal_strlit("error_text");
    reveal_strlit("hint");
    reveal_strlit("hovered");
    reveal_strlit("inactive");
    assert(theme_field_names()[6] == theme_entries(t)[11].0);
}

proof fn lemma_entry_playbar_background(t: Theme)
    ensures
        entry_writes_back(t, theme_entries(t)[12]),
{
    lemma_color_text_round_trip(t.playbar_background);
    reveal_strlit("active");
    reveal_strlit("banner");
    reveal_strlit("error_border");
    reveal_strlit("error_text");
    reveal_strlit("hint");
    reveal_strlit("hovered");
    reveal_strlit("inactive");
    reveal_strlit("playbar_background");
    assert(theme_field_names()[7] == theme_entries(t)[12].0);
}

proof fn lemma_entry_playbar_progress(t: Theme)
    ensures
        entry_writes_back(t, theme_entries(t)[13]),
{
    lemma_color_text_round_trip(t.playbar_progress);
    reveal_strlit("active");
    reveal_strlit("banner");
    reveal_strlit("error_border");
    reveal_strlit("error_text");
    reveal_strlit("hint");
    reveal_strlit("hovered");
    reveal_strlit("inactive");
    reveal_strlit("playbar_background");
    reveal_strlit("playbar_progress");
    assert(theme_field_names()[8] == theme_entries(t)[13].0);
}

proof fn lemma_entry_playbar_progress_text(t: Theme)
    ensures
        entry_writes_back(t, theme_entries(t)[14]),
{
    lemma_color_text_round_trip(t.playbar_progress_text);
    reveal_strlit("active");
    reveal_strlit("banner");
    reveal_strlit("error_border");
    reveal_strlit("error_text");
    reveal_strlit("hint");
    reveal_strlit("hovered");
    reveal_strlit("inactive");
    reveal_strlit("playbar_background");
    reveal_strlit("playbar_progress");
    reveal_strlit("playbar_progress_text");
    assert(theme_field_names()[9] == theme_entries(t)[14].0);
}

proof fn lemma_entry_playbar_text(t: Theme)
    ensures
        entry_writes_back(t, theme_entries(t)[15]),
{
    lemma_color_text_round_trip(t.playbar_text);
    reveal_strlit("active");
    reveal_strlit("banner");
    reveal_strlit("error_border");
    reveal_strlit("error_text");
    reveal_strlit("hint");
    reveal_strlit("hovered");
    reveal_strlit("inactive");
    reveal_strlit("playbar_background");
    reveal_strlit("playbar_progress");
    reveal_strlit("playbar_progress_text");
    reveal_strlit("playbar_text");
    assert("playbar_text"@[0] != "error_border"@[0]);
    assert(theme_field_names()[10] == theme_entries(t)[15].0);
}

proof fn lemma_entry_selected(t: Theme)
    ensures
        entry_writes_back(t, theme_entries(t)[16]),
{
    lemma_color_text_round_trip(t.selected);
    reveal_strlit("active");
    reveal_strlit("banner");
    reveal_strlit("error_border");
    reveal_strlit("error_text");
    reveal_strlit("hint");
    reveal_strlit("hovered");
    reveal_strlit("inactive");
    reveal_strlit("playbar_background");
    reveal_strlit("playbar_progress");
    reveal_strlit("playbar_progress_text");
    reveal_strlit("playbar_text");
    reveal_strlit("selected");
    assert("selected"@[0] != "inactive"@[0]);
    assert(theme_field_names()[11] == theme_entries(t)[16].0);
}

proof fn lemma_entry_text(t: Theme)
    ensures
        entry_writes_back(t, theme_entries(t)[17]),
{
    lemma_color_text_round_trip(t.text);
    reveal_strlit("active");
    reveal_strlit("banner");
    reveal_strlit("error_border");
    reveal_strlit("error_text");
    reveal_strlit("hint");
    reveal_strlit("hovered");
    reveal_strlit("inactive");
    reveal_strlit("playbar_background");
    reveal_strlit("playbar_progress");
    reveal_strlit("playbar_progress_text");
    reveal_strlit("playbar_text");
    reveal_strlit("selected");
    reveal_strlit("text");
    assert("text"@[0] != "hint"@[0]);
    assert(theme_field_names()[12] == theme_entries(t)[17].0);
}

/// Each theme entry a plugin reads from the configuration names an element
/// `set_theme` accepts, its color text reads back as a color, and setting
/// the element to that color leaves the theme unchanged: writing the theme
/// a plugin read back with `set_theme` changes nothing.
pub proof fn lemma_theme_entries_write_back(t: Theme)
    ensures
        forall|i: int|
            0 <= i < theme_entries(t).len() ==> entry_writes_back(t, #[trigger] theme_entries(t)[i]),
{
    assert forall|i: int| 0 <= i < theme_entries(t).len() implies entry_writes_back(
        t,
        #[trigger] theme_entries(t)[i],
    ) by {
        if i == 0 {
            lemma_entry_active(t);
        } else if i == 1 {
            lemma_entry_analysis_bar(t);
        } else if i == 2 {
            lemma_entry_analysis_bar_text(t);
        } else if i == 3 {
            lemma_entry_background(t);
        } else if i == 4 {
            lemma_entry_banner(t);
        } else if i == 5 {
            lemma_entry_error_border(t);
        } else if i == 6 {
            lemma_entry_error_text(t);
        } else if i == 7 {
            lemma_entry_header(t);
        } else if i == 8 {
            lemma_entry_highlighted_lyrics(t);
        } else if i == 9 {
            lemma_entry_hint(t);
        } else if i == 10 {
            lemma_entry_hovered(t);
        } else if i == 11 {
            lemma_entry_inactive(t);
        } else if i == 12 {
            lemma_entry_playbar_background(t);
        } else if i == 13 {
            lemma_entry_playbar_progress(t);
        } else if i == 14 {
            lemma_entry_playbar_progress_text(t);
        } else if i == 15 {
            lemma_entry_playbar_text(t);
        } else if i == 16 {
            lemma_entry_selected(t);
        } else if i == 17 {
            lemma_entry_text(t);
        }
    }
}

} // verus!

