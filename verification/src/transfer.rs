//! The transfer pipeline: copies the source account's liked songs and
//! playlists onto the target account. The pipeline is a state machine:
//! it names the next read or write to perform, and is fed the outcome;
//! whoever runs it performs the I/O. Liked songs are transferred first
//! and whole, then playlists one at a time, each fully (tracks read,
//! playlist created, tracks added) before the next; a playlist with no
//! tracks is not recreated; any failure aborts the whole transfer.

use vstd::prelude::*;
use crate::client::{chunk_ids, chunk_views, chunks_of, lemma_chunks_sizes};
use crate::errors::SyncError;
use crate::models::{SimplifiedPlaylist, Track};

verus! {

/// The remote API accepts at most this many liked songs per add call.
pub const LIKED_SONGS_ADD_MAX: usize = 50;

/// The remote API accepts at most this many tracks per playlist-add
/// call.
pub const PLAYLIST_TRACKS_ADD_MAX: usize = 100;

/// The identifiers of a track list, in order.
pub open spec fn ids_of(tracks: Seq<Track>) -> Seq<String> {
    tracks.map_values(|t: Track| t.id)
}

/// The resource identifiers of a track list, in order.
pub open spec fn uris_of(tracks: Seq<Track>) -> Seq<String> {
    tracks.map_values(|t: Track| t.uri)
}

/// The identifiers of the given tracks, in order.
pub fn extract_track_ids(tracks: &Vec<Track>) -> (r: Vec<String>)
    ensures
        r@ == ids_of(tracks@),
{
    let mut r: Vec<String> = Vec::new();
    let mut i: usize = 0;
    while i < tracks.len()
        invariant
            i <= tracks@.len(),
            r@.len() == i,
            forall|j: int| 0 <= j < i ==> #[trigger] r@[j] == tracks@[j].id,
        decreases tracks@.len() - i,
    {
        r.push(tracks[i].id.clone());
        i = i + 1;
    }
    proof {
        assert(r@ =~= ids_of(tracks@));
    }
    r
}

/// The resource identifiers of the given tracks, in order.
pub fn extract_track_uris(tracks: &Vec<Track>) -> (r: Vec<String>)
    ensures
        r@ == uris_of(tracks@),
{
    let mut r: Vec<String> = Vec::new();
    let mut i: usize = 0;
    while i < tracks.len()
        invariant
            i <= tracks@.len(),
            r@.len() == i,
            forall|j: int| 0 <= j < i ==> #[trigger] r@[j] == tracks@[j].uri,
        decreases tracks@.len() - i,
    {
        r.push(tracks[i].uri.clone());
        i = i + 1;
    }
    proof {
        assert(r@ =~= uris_of(tracks@));
    }
    r
}

/// A copy of a list of batches whose contents equal the original's.
fn clone_chunk(v: &Vec<String>) -> (r: Vec<String>)
    ensures
        r@ == v@,
{
    let r = v.clone();
    proof {
        assert forall|i: int| 0 <= i < v@.len() implies r@[i] == v@[i] by {
            assert(cloned::<String>(v@[i], r@[i]));
        }
        assert(r@ =~= v@);
    }
    r
}

/// The next read or write the pipeline asks its runner to perform.
#[derive(Debug, PartialEq, Eq)]
pub enum TransferAction {
    /// Read the source's complete liked-songs list.
    FetchLikedSongs,
    /// Add one batch of liked songs to the target, in this order.
    AddLikedSongs { ids: Vec<String> },
    /// Read the source's complete playlist list.
    FetchPlaylists,
    /// Read the complete track list of one source playlist.
    FetchPlaylistTracks { playlist_id: String },
    /// Create a playlist on the target with the source's name,
    /// description and visibility.
    CreatePlaylist { name: String, description: Option<String>, public: bool },
    /// Add one batch of tracks to the named target playlist, in order.
    AddTracksToPlaylist { playlist_id: String, uris: Vec<String> },
}

/// The outcome of the action the runner performed.
#[derive(Debug, PartialEq, Eq)]
pub enum TransferEvent {
    LikedSongs { tracks: Vec<Track> },
    Playlists { playlists: Vec<SimplifiedPlaylist> },
    PlaylistTracks { tracks: Vec<Track> },
    CreatedPlaylist { id: String },
    /// A write batch was accepted.
    WriteDone,
    /// Any read or write failed; the transfer aborts here.
    Failed { error: SyncError },
}

/// Where the pipeline stands.
#[derive(Debug, PartialEq, Eq)]
pub enum Phase {
    /// Reading the source's liked songs.
    FetchLiked,
    /// Adding liked-song batches to the target; `next` is the batch
    /// about to be written.
    AddLiked { chunks: Vec<Vec<String>>, next: usize },
    /// Reading the source's playlist list.
    FetchPlaylists,
    /// Reading the tracks of the playlist at `idx`.
    FetchTracks { playlists: Vec<SimplifiedPlaylist>, idx: usize },
    /// Creating the target copy of the playlist at `idx`; its track
    /// batches are already cut.
    Create { playlists: Vec<SimplifiedPlaylist>, idx: usize, chunks: Vec<Vec<String>> },
    /// Adding track batches to the created target playlist.
    AddTracks {
        playlists: Vec<SimplifiedPlaylist>,
        idx: usize,
        playlist_id: String,
        chunks: Vec<Vec<String>>,
        next: usize,
    },
    /// Everything was transferred.
    Done,
    /// A step failed; nothing further runs.
    Failed { error: SyncError },
}

/// All batches in a cut list are nonempty and within the ceiling.
pub open spec fn chunks_wf(chunks: Seq<Vec<String>>, max: int) -> bool {
    forall|i: int| 0 <= i < chunks.len() ==> 1 <= (#[trigger] chunks[i])@.len() <= max
}

/// Advancing past the playlist at `idx`: on to the next playlist's
/// tracks, or done after the last one.
pub open spec fn advance_ok(playlists: Vec<SimplifiedPlaylist>, idx: usize, post: Phase) -> bool {
    if idx + 1 < playlists@.len() {
        post matches Phase::FetchTracks { playlists: ps, idx: i2 } && ps == playlists && i2 == idx
            + 1
    } else {
        post == Phase::Done
    }
}

/// The pipeline's transition relation for a non-failure event: what
/// the next phase must be, given where it stood and what came back.
pub open spec fn transition_ok(pre: Phase, event: TransferEvent, post: Phase) -> bool {
    match pre {
        Phase::FetchLiked => event matches TransferEvent::LikedSongs { tracks } && {
            if tracks@.len() == 0 {
                post == Phase::FetchPlaylists
            } else {
                post matches Phase::AddLiked { chunks, next } && next == 0 && chunk_views(chunks@)
                    == chunks_of(ids_of(tracks@), LIKED_SONGS_ADD_MAX as int)
            }
        },
        Phase::AddLiked { chunks, next } => event matches TransferEvent::WriteDone && {
            if next + 1 < chunks@.len() {
                post matches Phase::AddLiked { chunks: c2, next: n2 } && c2 == chunks && n2 == next
                    + 1
            } else {
                post == Phase::FetchPlaylists
            }
        },
        Phase::FetchPlaylists => event matches TransferEvent::Playlists { playlists } && {
            if playlists@.len() == 0 {
                post == Phase::Done
            } else {
                post matches Phase::FetchTracks { playlists: ps, idx } && ps == playlists && idx
                    == 0
            }
        },
        Phase::FetchTracks { playlists, idx } => event matches TransferEvent::PlaylistTracks {
            tracks,
        } && {
            if tracks@.len() == 0 {
                advance_ok(playlists, idx, post)
            } else {
                post matches Phase::Create { playlists: ps, idx: i2, chunks } && ps == playlists
                    && i2 == idx && chunk_views(chunks@) == chunks_of(
                    uris_of(tracks@),
                    PLAYLIST_TRACKS_ADD_MAX as int,
                )
            }
        },
        Phase::Create { playlists, idx, chunks } => event
            matches TransferEvent::CreatedPlaylist { id } && (post matches Phase::AddTracks {
            playlists: ps,
            idx: i2,
            playlist_id,
            chunks: c2,
            next,
        } && ps == playlists && i2 == idx && playlist_id == id && c2 == chunks && next == 0),
        Phase::AddTracks { playlists, idx, playlist_id, chunks, next } => event
            matches TransferEvent::WriteDone && {
            if next + 1 < chunks@.len() {
                post matches Phase::AddTracks {
                    playlists: ps,
                    idx: i2,
                    playlist_id: pid,
                    chunks: c2,
                    next: n2,
                } && ps == playlists && i2 == idx && pid == playlist_id && c2 == chunks && n2
                    == next + 1
            } else {
                advance_ok(playlists, idx, post)
            }
        },
        Phase::Done => false,
        Phase::Failed { .. } => false,
    }
}

/// The transfer pipeline as a machine: ask [`TransferMachine::next_action`]
/// what to perform, perform it, and feed the outcome to
/// [`TransferMachine::apply`]; repeat until no action is left.
pub struct TransferMachine {
    pub phase: Phase,
}

impl TransferMachine {
    /// Internal soundness of a phase: indices point at real entries
    /// and every pending batch respects its endpoint's ceiling.
    pub open spec fn wf(self) -> bool {
        match self.phase {
            Phase::AddLiked { chunks, next } => next < chunks@.len() && chunks_wf(
                chunks@,
                LIKED_SONGS_ADD_MAX as int,
            ),
            Phase::FetchTracks { playlists, idx } => idx < playlists@.len(),
            Phase::Create { playlists, idx, chunks } => idx < playlists@.len() && chunks@.len() >= 1
                && chunks_wf(chunks@, PLAYLIST_TRACKS_ADD_MAX as int),
            Phase::AddTracks { playlists, idx, playlist_id, chunks, next } => idx
                < playlists@.len() && next < chunks@.len() && chunks_wf(
                chunks@,
                PLAYLIST_TRACKS_ADD_MAX as int,
            ),
            _ => true,
        }
    }

    /// Which outcome the machine is waiting for; a failure outcome is
    /// accepted wherever any outcome is.
    pub open spec fn accepts(self, event: TransferEvent) -> bool {
        match self.phase {
            Phase::FetchLiked => event matches TransferEvent::LikedSongs { .. } || event
                matches TransferEvent::Failed { .. },
            Phase::AddLiked { .. } => event matches TransferEvent::WriteDone || event
                matches TransferEvent::Failed { .. },
            Phase::FetchPlaylists => event matches TransferEvent::Playlists { .. } || event
                matches TransferEvent::Failed { .. },
            Phase::FetchTracks { .. } => event matches TransferEvent::PlaylistTracks { .. } || event
                matches TransferEvent::Failed { .. },
            Phase::Create { .. } => event matches TransferEvent::CreatedPlaylist { .. } || event
                matches TransferEvent::Failed { .. },
            Phase::AddTracks { .. } => event matches TransferEvent::WriteDone || event
                matches TransferEvent::Failed { .. },
            Phase::Done => false,
            Phase::Failed { .. } => false,
        }
    }

    /// A fresh transfer: liked songs are read first.
    pub fn new() -> (r: TransferMachine)
        ensures
            r.wf(),
            r.phase == Phase::FetchLiked,
    {
        TransferMachine { phase: Phase::FetchLiked }
    }

    /// The next read or write to perform, or nothing once the transfer
    /// is complete or aborted. Every batch handed out respects its
    /// endpoint's ceiling and is the pending batch of the phase.
    pub fn next_action(&self) -> (r: Option<TransferAction>)
        requires
            self.wf(),
        ensures
            match self.phase {
                Phase::FetchLiked => r == Some(TransferAction::FetchLikedSongs),
                Phase::AddLiked { chunks, next } => r matches Some(
                    TransferAction::AddLikedSongs { ids },
                ) && ids@ == chunks@[next as int]@ && ids@.len() <= LIKED_SONGS_ADD_MAX,
                Phase::FetchPlaylists => r == Some(TransferAction::FetchPlaylists),
                Phase::FetchTracks { playlists, idx } => r matches Some(
                    TransferAction::FetchPlaylistTracks { playlist_id },
                ) && playlist_id@ == playlists@[idx as int].id@,
                Phase::Create { playlists, idx, chunks } => r matches Some(
                    TransferAction::CreatePlaylist { name, description, public },
                ) && name@ == playlists@[idx as int].name@ && description == playlists@[
                    idx as int
                ].description && public == playlists@[idx as int].public,
                Phase::AddTracks { playlists, idx, playlist_id, chunks, next } => r matches Some(
                    TransferAction::AddTracksToPlaylist { playlist_id: pid, uris },
                ) && pid@ == playlist_id@ && uris@ == chunks@[next as int]@ && uris@.len()
                    <= PLAYLIST_TRACKS_ADD_MAX,
                Phase::Done => r is None,
                Phase::Failed { .. } => r is None,
            },
    {
        match &self.phase {
            Phase::FetchLiked => Some(TransferAction::FetchLikedSongs),
            Phase::AddLiked { chunks, next } => Some(
                TransferAction::AddLikedSongs { ids: clone_chunk(&chunks[*next]) },
            ),
            Phase::FetchPlaylists => Some(TransferAction::FetchPlaylists),
            Phase::FetchTracks { playlists, idx } => Some(
                TransferAction::FetchPlaylistTracks { playlist_id: playlists[*idx].id.clone() },
            ),
            Phase::Create { playlists, idx, chunks } => {
                let p = &playlists[*idx];
                let description = match &p.description {
                    Some(d) => Some(d.clone()),
                    None => None,
                };
                Some(
                    TransferAction::CreatePlaylist {
                        name: p.name.clone(),
                        description,
                        public: p.public,
                    },
                )
            },
            Phase::AddTracks { playlists, idx, playlist_id, chunks, next } => Some(
                TransferAction::AddTracksToPlaylist {
                    playlist_id: playlist_id.clone(),
                    uris: clone_chunk(&chunks[*next]),
                },
            ),
            Phase::Done => None,
            Phase::Failed { .. } => None,
        }
    }

    /// Feeds the outcome of the last action back in. A failure moves
    /// the machine to `Failed` at once — no later step of the transfer
    /// runs; any other outcome moves it along the pipeline's
    /// transition relation.
    pub fn apply(self, event: TransferEvent) -> (r: TransferMachine)
        requires
            self.wf(),
            self.accepts(event),
        ensures
            r.wf(),
            (event matches TransferEvent::Failed { error } ==> r.phase == (Phase::Failed {
                error,
            })),
            (!(event matches TransferEvent::Failed { .. }) ==> transition_ok(
                self.phase,
                event,
                r.phase,
            )),
    {
        match event {
            TransferEvent::Failed { error } => TransferMachine {
                phase: Phase::Failed { error },
            },
            TransferEvent::LikedSongs { tracks } => {
                if tracks.len() == 0 {
                    TransferMachine { phase: Phase::FetchPlaylists }
                } else {
                    let ids = extract_track_ids(&tracks);
                    let chunks = chunk_ids(&ids, LIKED_SONGS_ADD_MAX);
                    proof {
                        lemma_chunks_nonempty(ids@, LIKED_SONGS_ADD_MAX as int);
                        lemma_chunks_all_sizes(ids@, LIKED_SONGS_ADD_MAX as int, chunks@);
                    }
                    TransferMachine { phase: Phase::AddLiked { chunks, next: 0 } }
                }
            },
            TransferEvent::WriteDone => {
                match self.phase {
                    Phase::AddLiked { chunks, next } => {
                        let n = chunks.len();
                        if next < n - 1 {
                            TransferMachine { phase: Phase::AddLiked { chunks, next: next + 1 } }
                        } else {
                            TransferMachine { phase: Phase::FetchPlaylists }
                        }
                    },
                    Phase::AddTracks { playlists, idx, playlist_id, chunks, next } => {
                        let n = chunks.len();
                        if next < n - 1 {
                            TransferMachine {
                                phase: Phase::AddTracks {
                                    playlists,
                                    idx,
                                    playlist_id,
                                    chunks,
                                    next: next + 1,
                                },
                            }
                        } else {
                            Self::advance(playlists, idx)
                        }
                    },
                    _ => unreached(),
                }
            },
            TransferEvent::Playlists { playlists } => {
                if playlists.len() == 0 {
                    TransferMachine { phase: Phase::Done }
                } else {
                    TransferMachine { phase: Phase::FetchTracks { playlists, idx: 0 } }
                }
            },
            TransferEvent::PlaylistTracks { tracks } => {
                match self.phase {
                    Phase::FetchTracks { playlists, idx } => {
                        if tracks.len() == 0 {
                            Self::advance(playlists, idx)
                        } else {
                            let uris = extract_track_uris(&tracks);
                            let chunks = chunk_ids(&uris, PLAYLIST_TRACKS_ADD_MAX);
                            proof {
                                lemma_chunks_nonempty(uris@, PLAYLIST_TRACKS_ADD_MAX as int);
                                lemma_chunks_all_sizes(uris@, PLAYLIST_TRACKS_ADD_MAX as int, chunks@);
                            }
                            TransferMachine { phase: Phase::Create { playlists, idx, chunks } }
                        }
                    },
                    _ => unreached(),
                }
            },
            TransferEvent::CreatedPlaylist { id } => {
                match self.phase {
                    Phase::Create { playlists, idx, chunks } => TransferMachine {
                        phase: Phase::AddTracks {
                            playlists,
                            idx,
                            playlist_id: id,
                            chunks,
                            next: 0,
                        },
                    },
                    _ => unreached(),
                }
            },
        }
    }

    /// Moves past the playlist at `idx`.
    fn advance(playlists: Vec<SimplifiedPlaylist>, idx: usize) -> (r: TransferMachine)
        requires
            idx < playlists@.len(),
        ensures
            r.wf(),
            advance_ok(playlists, idx, r.phase),
    {
        let n = playlists.len();
        if idx < n - 1 {
            TransferMachine { phase: Phase::FetchTracks { playlists, idx: idx + 1 } }
        } else {
            TransferMachine { phase: Phase::Done }
        }
    }
}

/// A nonempty list cuts into at least one batch.
proof fn lemma_chunks_nonempty(s: Seq<String>, max: int)
    requires
        1 <= max,
        s.len() > 0,
    ensures
        chunks_of(s, max).len() >= 1,
{
}

/// Every batch that `chunk_ids` cut is nonempty and within the
/// ceiling.
proof fn lemma_chunks_all_sizes(s: Seq<String>, max: int, chunks: Seq<Vec<String>>)
    requires
        1 <= max,
        chunk_views(chunks) == chunks_of(s, max),
    ensures
        chunks_wf(chunks, max),
{
    assert forall|i: int| 0 <= i < chunks.len() implies 1 <= (#[trigger] chunks[i])@.len()
        <= max by {
        lemma_chunks_sizes(s, max, i);
        assert(chunk_views(chunks)[i] == chunks[i]@);
    }
}

/// Once the transfer has failed, the machine accepts no further
/// outcome: no later step of an aborted transfer can run.
pub proof fn lemma_failed_is_terminal(m: TransferMachine, e: SyncError, event: TransferEvent)
    requires
        m.phase == (Phase::Failed { error: e }),
    ensures
        !m.accepts(event),
{
}

} // verus!
