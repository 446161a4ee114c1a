//! Unit tests for the shared-state building blocks: the liked set, the
//! navigation stack, pagination, the repeat rotation, and token expiry.

use spotify_sync::model::{ActiveBlock, Page, PlaylistSummary, RepeatState, RouteId, Track};
use spotify_sync::network::{filter_made_for_you, next_repeat_state};
use spotify_sync::pagination::ScrollableResultPages;
use spotify_sync::request::compute_token_expiry;
use spotify_sync::state::{AppState, LikedSet, track_id_list, track_uri_list};

fn track(id: Option<&str>, uri: &str) -> Track {
    Track { id: id.map(|s| s.to_string()), uri: uri.to_string(), name: uri.to_string() }
}

#[test]
fn liked_set_insert_remove_contains() {
    let mut liked = LikedSet::new();
    assert!(!liked.contains(&"a".to_string()));
    liked.insert("a".to_string());
    liked.insert("b".to_string());
    liked.insert("a".to_string());
    assert!(liked.contains(&"a".to_string()));
    assert!(liked.contains(&"b".to_string()));
    assert_eq!(liked.ids.len(), 2);
    liked.remove(&"a".to_string());
    assert!(!liked.contains(&"a".to_string()));
    assert!(liked.contains(&"b".to_string()));
    liked.remove(&"zzz".to_string());
    assert_eq!(liked.ids.len(), 1);
}

#[test]
fn membership_check_merges_answer() {
    let mut app = AppState::new();
    app.liked_song_ids_set.insert("stale".to_string());
    let ids = vec!["kept".to_string(), "stale".to_string(), "unanswered".to_string()];
    let flags = vec![true, false];
    app.current_user_saved_tracks_contains(&ids, Ok(flags));
    assert!(app.liked_song_ids_set.contains(&"kept".to_string()));
    assert!(!app.liked_song_ids_set.contains(&"stale".to_string()));
    assert!(!app.liked_song_ids_set.contains(&"unanswered".to_string()));
    assert!(app.api_error.is_none());
}

#[test]
fn membership_check_failure_is_recorded() {
    let mut app = AppState::new();
    app.liked_song_ids_set.insert("keep".to_string());
    let ids = vec!["keep".to_string()];
    app.current_user_saved_tracks_contains(
        &ids,
        Err(spotify_sync::model::RemoteError { message: "boom".to_string() }),
    );
    assert!(app.liked_song_ids_set.contains(&"keep".to_string()));
    assert_eq!(
        app.api_error,
        Some(spotify_sync::model::StateError::Remote("boom".to_string()))
    );
}

#[test]
fn navigation_push_is_idempotent_on_top_route() {
    let mut app = AppState::new();
    assert_eq!(app.get_current_route().id, RouteId::Home);
    app.push_navigation_stack(RouteId::TrackTable, ActiveBlock::TrackTable);
    assert_eq!(app.navigation_stack.len(), 2);
    app.push_navigation_stack(RouteId::TrackTable, ActiveBlock::TrackTable);
    assert_eq!(app.navigation_stack.len(), 2);
    app.push_navigation_stack(RouteId::Analysis, ActiveBlock::Analysis);
    assert_eq!(app.navigation_stack.len(), 3);
    assert_eq!(app.get_current_route().id, RouteId::Analysis);
}

#[test]
fn navigation_pop_keeps_base_entry() {
    let mut app = AppState::new();
    app.push_navigation_stack(RouteId::TrackTable, ActiveBlock::TrackTable);
    app.pop_navigation_stack();
    assert_eq!(app.navigation_stack.len(), 1);
    app.pop_navigation_stack();
    assert_eq!(app.navigation_stack.len(), 1);
    assert_eq!(app.get_current_route().id, RouteId::Home);
}

#[test]
fn saved_tracks_page_marks_everything_liked() {
    let mut app = AppState::new();
    let page = Page {
        items: vec![track(Some("s1"), "u1"), track(None, "u2"), track(Some("s3"), "u3")],
        offset: 0,
        total: 3,
    };
    app.set_saved_tracks_to_table(&page);
    assert_eq!(app.track_table.tracks.len(), 3);
    assert!(app.liked_song_ids_set.contains(&"s1".to_string()));
    assert!(app.liked_song_ids_set.contains(&"s3".to_string()));
    assert_eq!(app.liked_song_ids_set.ids.len(), 2);
}

#[test]
fn pagination_accumulates_in_arrival_order() {
    let mut pages: ScrollableResultPages<Page<Track>> = ScrollableResultPages::new();
    assert!(pages.get_results(None).is_none());
    pages.add_page(Page { items: vec![track(Some("a"), "ua")], offset: 0, total: 3 });
    pages.add_page(Page { items: vec![track(Some("b"), "ub"), track(Some("c"), "uc")], offset: 1, total: 3 });
    assert_eq!(pages.pages.len(), 2);
    assert_eq!(pages.index, 1);
    assert_eq!(pages.pages[0].items[0].uri, "ua");
    assert_eq!(pages.pages[1].items[1].uri, "uc");
    let shown = pages.get_results(None).unwrap();
    assert_eq!(shown.items.len(), 2);
    let first = pages.get_results(Some(0)).unwrap();
    assert_eq!(first.items.len(), 1);
    assert!(pages.get_results(Some(5)).is_none());
    let total: usize = pages.pages.iter().map(|p| p.items.len()).sum();
    assert_eq!(total, 3);
}

#[test]
fn get_mut_results_edits_shown_page() {
    let mut pages: ScrollableResultPages<Page<Track>> = ScrollableResultPages::new();
    pages.add_page(Page { items: vec![track(Some("a"), "ua")], offset: 0, total: 1 });
    if let Some(p) = pages.get_mut_results(None) {
        p.items.push(track(Some("b"), "ub"));
    } else {
        panic!("shown page must exist");
    }
    assert_eq!(pages.pages[0].items.len(), 2);
}

#[test]
fn repeat_rotation_cycles_through_all_three_states() {
    assert_eq!(next_repeat_state(RepeatState::Off), RepeatState::Context);
    assert_eq!(next_repeat_state(RepeatState::Context), RepeatState::Track);
    assert_eq!(next_repeat_state(RepeatState::Track), RepeatState::Off);
    for r in [RepeatState::Off, RepeatState::Context, RepeatState::Track] {
        assert_eq!(next_repeat_state(next_repeat_state(next_repeat_state(r))), r);
    }
}

#[test]
fn token_expiry_applies_safety_margin() {
    assert_eq!(compute_token_expiry(1_000, 3_600), 1_000 + 3_600_000 - 10_000);
    assert_eq!(compute_token_expiry(0, 1), 0);
    assert_eq!(compute_token_expiry(u64::MAX, 3_600), u64::MAX - 10_000);
}

#[test]
fn track_lists_extract_ids_and_uris() {
    let tracks = vec![track(Some("a"), "ua"), track(None, "ub"), track(Some("c"), "uc")];
    assert_eq!(track_id_list(&tracks), vec!["a".to_string(), "c".to_string()]);
    assert_eq!(
        track_uri_list(&tracks),
        vec!["ua".to_string(), "ub".to_string(), "uc".to_string()]
    );
}

#[test]
fn made_for_you_filter_keeps_curated_matches_only() {
    let items = vec![
        PlaylistSummary {
            id: "1".to_string(),
            name: "Discover Weekly".to_string(),
            owner_id: "spotify".to_string(),
        },
        PlaylistSummary {
            id: "2".to_string(),
            name: "Discover Weekly".to_string(),
            owner_id: "someone".to_string(),
        },
        PlaylistSummary {
            id: "3".to_string(),
            name: "Other".to_string(),
            owner_id: "spotify".to_string(),
        },
    ];
    let kept = filter_made_for_you(&items, &"Discover Weekly".to_string());
    assert_eq!(kept.len(), 1);
    assert_eq!(kept[0].id, "1");
}
