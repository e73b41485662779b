use spotify_sync::models::{Artist, Playlist, PlaylistTrack, PlaylistTracksWrapper, Track};

#[test]
fn full_playlist_objects_carry_their_track_count() {
    let playlist = Playlist {
        id: "pl-1".to_string(),
        name: "road trip".to_string(),
        description: None,
        public: false,
        tracks: PlaylistTracksWrapper { total: 17 },
    };
    assert_eq!(playlist.tracks.total, 17);
    assert_eq!(playlist.description, None);
    assert!(!playlist.public);
}

#[test]
fn playlist_track_entries_wrap_one_track() {
    let entry = PlaylistTrack {
        track: Track {
            id: "id-1".to_string(),
            name: "song".to_string(),
            artists: vec![Artist { name: "band".to_string() }],
            uri: "spotify:track:1".to_string(),
        },
    };
    assert_eq!(entry.track.artists.len(), 1);
    assert_eq!(entry.track.artists[0].name, "band");
    assert_eq!(entry.track.clone(), entry.track);
}
