use spotify_sync::client::{
    chunk_ids, check_response, collect_pages, present_tracks, Page, Pager,
};
use spotify_sync::errors::SyncError;
use spotify_sync::models::{make_library_stats, Artist, Track};

fn track(n: usize) -> Track {
    Track {
        id: format!("id-{}", n),
        name: format!("song {}", n),
        artists: vec![Artist { name: format!("artist {}", n) }],
        uri: format!("spotify:track:{}", n),
    }
}

fn page_of(start: usize, len: usize, has_next: bool) -> Page<Track> {
    Page { items: (start..start + len).map(track).collect(), has_next }
}

#[test]
fn pagination_accumulates_until_the_empty_page() {
    // Pages of sizes 50, 50, 23, 0: the result holds all 123 items and
    // four page requests were made, whatever "next" said.
    let pages = vec![
        page_of(0, 50, true),
        page_of(50, 50, true),
        page_of(100, 23, true),
        page_of(123, 0, true),
    ];
    let (items, requests) = collect_pages(pages, false);
    assert_eq!(items.len(), 123);
    assert_eq!(requests, 4);
    for (i, t) in items.iter().enumerate() {
        assert_eq!(t.id, format!("id-{}", i));
    }

    let pages = vec![
        page_of(0, 50, true),
        page_of(50, 50, true),
        page_of(100, 23, true),
        page_of(123, 0, false),
    ];
    let (items, requests) = collect_pages(pages, true);
    assert_eq!(items.len(), 123);
    assert_eq!(requests, 4);
}

#[test]
fn pagination_stops_on_a_full_page_without_next() {
    // A 50-item page that names no further page ends the loop at one
    // request, even though the page was full-sized.
    let pages = vec![page_of(0, 50, false), page_of(50, 50, false)];
    let (items, requests) = collect_pages(pages, true);
    assert_eq!(items.len(), 50);
    assert_eq!(requests, 1);
}

#[test]
fn pagination_without_next_check_ignores_the_indicator() {
    let pages = vec![page_of(0, 50, false), page_of(50, 10, false), page_of(60, 0, false)];
    let (items, requests) = collect_pages(pages, false);
    assert_eq!(items.len(), 60);
    assert_eq!(requests, 3);
}

#[test]
fn pager_walks_offsets_and_stops_on_empty_page() {
    let mut pager = Pager::new(50, false);
    assert_eq!(pager.next_offset(), Some(0));
    pager.record_page(50, true);
    assert_eq!(pager.next_offset(), Some(50));
    assert_eq!(pager.requests, 1);
    pager.record_page(50, true);
    assert_eq!(pager.next_offset(), Some(100));
    pager.record_page(0, true);
    assert_eq!(pager.next_offset(), None);
    assert_eq!(pager.requests, 3);
}

#[test]
fn pager_with_next_check_stops_when_next_is_absent() {
    let mut pager = Pager::new(50, true);
    pager.record_page(50, false);
    assert_eq!(pager.next_offset(), None);
    assert_eq!(pager.requests, 1);

    let mut pager = Pager::new(100, true);
    pager.record_page(100, true);
    assert_eq!(pager.next_offset(), Some(100));
    pager.record_page(37, false);
    assert_eq!(pager.next_offset(), None);
    assert_eq!(pager.requests, 2);
}

#[test]
fn batching_cuts_in_order_without_reordering_or_deduplication() {
    // 120 identifiers become exactly three batches of sizes 50, 50, 20,
    // each keeping input order; repeats are kept as they are.
    let mut ids: Vec<String> = (0..120).map(|i| format!("id-{}", i % 70)).collect();
    ids[0] = "id-0".to_string();
    let chunks = chunk_ids(&ids, 50);
    assert_eq!(chunks.len(), 3);
    assert_eq!(chunks[0].len(), 50);
    assert_eq!(chunks[1].len(), 50);
    assert_eq!(chunks[2].len(), 20);
    let rejoined: Vec<String> = chunks.into_iter().flatten().collect();
    assert_eq!(rejoined, ids);
}

#[test]
fn batching_of_a_short_list_is_one_batch() {
    let ids: Vec<String> = (0..3).map(|i| format!("id-{}", i)).collect();
    let chunks = chunk_ids(&ids, 50);
    assert_eq!(chunks.len(), 1);
    assert_eq!(chunks[0], ids);
}

#[test]
fn present_tracks_drops_missing_entries_and_keeps_order() {
    let items = vec![Some(track(0)), None, Some(track(1)), None, None, Some(track(2))];
    let kept = present_tracks(items);
    assert_eq!(kept.len(), 3);
    assert_eq!(kept[0].id, "id-0");
    assert_eq!(kept[1].id, "id-1");
    assert_eq!(kept[2].id, "id-2");
}

#[test]
fn non_success_statuses_become_remote_api_errors() {
    assert_eq!(check_response(200, "ok".to_string()), Ok(()));
    assert_eq!(check_response(299, "ok".to_string()), Ok(()));
    let err = check_response(404, "not found".to_string()).unwrap_err();
    assert_eq!(err, SyncError::RemoteApiError { status: 404, body: "not found".to_string() });
    let err = check_response(500, "boom".to_string()).unwrap_err();
    assert_eq!(err, SyncError::RemoteApiError { status: 500, body: "boom".to_string() });
}

#[test]
fn library_stats_repeat_the_liked_songs_total() {
    let stats = make_library_stats(12, 4);
    assert_eq!(stats.liked_songs, 12);
    assert_eq!(stats.playlists, 4);
    assert_eq!(stats.total_songs, 12);
}
