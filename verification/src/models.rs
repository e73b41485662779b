//! The data the tool moves around: OAuth token records, tracks,
//! playlists, and the derived library statistics shown before a
//! transfer. All values are plain; they are decoded from the remote
//! API's responses before they reach this crate.

use vstd::prelude::*;

verus! {

/// One account's OAuth credentials, as returned by the token endpoint
/// and persisted by the token store. Immutable once created: a new
/// login overwrites the whole record.
#[derive(Debug, PartialEq, Eq)]
pub struct Tokens {
    pub access_token: String,
    pub refresh_token: String,
    /// Lifetime of the access token in seconds, as the server gave it.
    pub expires_in: u64,
    /// Absolute expiry as UTC epoch seconds; set when the record is
    /// finalized after a successful exchange.
    pub expires_at: Option<u64>,
}

impl Clone for Tokens {
    fn clone(&self) -> (r: Self)
        ensures
            r == *self,
    {
        Tokens {
            access_token: self.access_token.clone(),
            refresh_token: self.refresh_token.clone(),
            expires_in: self.expires_in,
            expires_at: self.expires_at,
        }
    }
}

/// A track of the remote library; fetched per request, never cached.
#[derive(Debug, Clone, PartialEq, Eq)]
pub struct Track {
    pub id: String,
    pub name: String,
    pub artists: Vec<Artist>,
    /// Resource identifier used when adding the track to a playlist.
    pub uri: String,
}

#[derive(Debug, Clone, PartialEq, Eq)]
pub struct Artist {
    pub name: String,
}

/// A playlist as the remote API describes it in full, with its track
/// count.
#[derive(Debug, PartialEq, Eq)]
pub struct Playlist {
    pub id: String,
    pub name: String,
    pub description: Option<String>,
    pub public: bool,
    pub tracks: PlaylistTracksWrapper,
}

/// The track-count envelope inside a full playlist object.
#[derive(Debug, PartialEq, Eq)]
pub struct PlaylistTracksWrapper {
    pub total: u32,
}

/// One entry of a playlist's track listing.
#[derive(Debug, PartialEq, Eq)]
pub struct PlaylistTrack {
    pub track: Track,
}

/// A playlist as the playlist-listing endpoint describes it: just what
/// is needed to recreate it on the target account.
#[derive(Debug, PartialEq, Eq)]
pub struct SimplifiedPlaylist {
    pub id: String,
    pub name: String,
    pub description: Option<String>,
    pub public: bool,
}

/// A read-only snapshot of an account's library size, shown as a
/// preview before a transfer.
#[derive(Debug, PartialEq, Eq)]
pub struct LibraryStats {
    pub liked_songs: u32,
    pub playlists: u32,
    /// Kept equal to `liked_songs`: playlist tracks are not counted.
    /// A known simplification of the statistic, preserved on purpose.
    pub total_songs: u32,
}

/// Builds the preview statistics from the totals the remote API
/// reports. `total_songs` deliberately repeats the liked-songs total:
/// playlist tracks are not included in it.
pub fn make_library_stats(liked_total: u32, playlists_total: u32) -> (r: LibraryStats)
    ensures
        r.liked_songs == liked_total,
        r.playlists == playlists_total,
        r.total_songs == liked_total,
{
    LibraryStats { liked_songs: liked_total, playlists: playlists_total, total_songs: liked_total }
}

} // verus!
