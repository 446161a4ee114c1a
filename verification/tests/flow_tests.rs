//! Dispatch scenarios for the list, library and catalog flows: pagination,
//! playlists, albums, artists, and the re-fetch-after-mutation commands.

use spotify_sync::driver::{run_dispatch, RemoteStub};
use spotify_sync::model::{
    ActiveBlock, AlbumSummary, AlbumTableContext, ArtistSummary, AudioAnalysis, FullAlbum, Page,
    PlaylistSummary, RouteId, StateError, Track, TrackTableContext,
};
use spotify_sync::network::{ClientConfig, Network};
use spotify_sync::request::{IoEvent, RemoteRequest};
use spotify_sync::state::AppState;

fn net() -> Network {
    Network::new(0, ClientConfig { device_id: Some("dev1".to_string()) })
}

fn track(id: Option<&str>, uri: &str) -> Track {
    Track { id: id.map(|s| s.to_string()), uri: uri.to_string(), name: uri.to_string() }
}

fn page<T>(items: Vec<T>) -> Page<T> {
    let total = items.len() as u32;
    Page { items, offset: 0, total }
}

fn playlist(id: &str, name: &str, owner: &str) -> PlaylistSummary {
    PlaylistSummary { id: id.to_string(), name: name.to_string(), owner_id: owner.to_string() }
}

#[test]
fn playlist_tracks_fill_table_and_navigate() {
    let mut n = net();
    let mut app = AppState::new();
    let mut stub = RemoteStub::empty();
    stub.playlist_tracks = Some(Ok(page(vec![track(Some("a"), "ua"), track(None, "ub")])));
    stub.liked.insert("a".to_string());

    let log = run_dispatch(
        &mut n,
        &mut app,
        &mut stub,
        IoEvent::GetPlaylistTracks("pl1".to_string(), 0),
        0,
    );

    assert_eq!(app.track_table.tracks.len(), 2);
    assert_eq!(app.playlist_tracks.as_ref().map(|p| p.items.len()), Some(2));
    assert!(app.liked_song_ids_set.contains(&"a".to_string()));
    assert_eq!(app.get_current_route().id, RouteId::TrackTable);
    assert!(matches!(&log[0], RemoteRequest::PlaylistTracks { playlist_id, limit, offset }
        if playlist_id == "pl1" && *limit == 20 && *offset == 0));
    // the membership check covers only tracks that have an identifier
    assert!(matches!(&log[1], RemoteRequest::SavedTracksContains { ids }
        if ids == &vec!["a".to_string()]));
}

#[test]
fn made_for_you_tracks_land_in_their_own_field() {
    let mut n = net();
    let mut app = AppState::new();
    let mut stub = RemoteStub::empty();
    stub.playlist_tracks = Some(Ok(page(vec![track(Some("m"), "um")])));

    run_dispatch(
        &mut n,
        &mut app,
        &mut stub,
        IoEvent::GetMadeForYouPlaylistTracks("mfy".to_string(), 0),
        0,
    );

    assert_eq!(app.made_for_you_tracks.as_ref().map(|p| p.items.len()), Some(1));
    assert!(app.playlist_tracks.is_none());
}

#[test]
fn saved_tracks_accumulate_and_mark_liked() {
    let mut n = net();
    let mut app = AppState::new();
    let mut stub = RemoteStub::empty();
    stub.saved_tracks = Some(Ok(page(vec![track(Some("s1"), "u1")])));

    run_dispatch(
        &mut n,
        &mut app,
        &mut stub,
        IoEvent::GetCurrentSavedTracks(None, true),
        0,
    );

    assert_eq!(app.library.saved_tracks.pages.len(), 1);
    assert_eq!(app.track_table.context, Some(TrackTableContext::SavedTracks));
    assert!(app.liked_song_ids_set.contains(&"s1".to_string()));
    assert_eq!(app.get_current_route().id, RouteId::TrackTable);

    // a second page accumulates behind the first
    let mut stub2 = RemoteStub::empty();
    stub2.saved_tracks = Some(Ok(page(vec![track(Some("s2"), "u2")])));
    run_dispatch(
        &mut n,
        &mut app,
        &mut stub2,
        IoEvent::GetCurrentSavedTracks(Some(20), false),
        0,
    );
    assert_eq!(app.library.saved_tracks.pages.len(), 2);
    assert_eq!(app.library.saved_tracks.index, 1);
    assert_eq!(app.library.saved_tracks.pages[0].items[0].uri, "u1");
    assert_eq!(app.library.saved_tracks.pages[1].items[0].uri, "u2");
}

#[test]
fn album_tracks_open_the_album_view() {
    let mut n = net();
    let mut app = AppState::new();
    let mut stub = RemoteStub::empty();
    stub.album_tracks = Some(Ok(page(vec![track(Some("x"), "ux")])));
    let album = AlbumSummary { id: Some("al1".to_string()), name: "An Album".to_string() };

    run_dispatch(&mut n, &mut app, &mut stub, IoEvent::GetAlbumTracks(album), 0);

    let sel = app.selected_album_simplified.as_ref().expect("album view set");
    assert_eq!(sel.album.name, "An Album");
    assert_eq!(sel.tracks.items.len(), 1);
    assert_eq!(sel.selected_index, 0);
    assert_eq!(app.album_table_context, AlbumTableContext::Simplified);
    assert_eq!(app.get_current_route().id, RouteId::AlbumTracks);
}

#[test]
fn album_without_identifier_is_skipped() {
    let mut n = net();
    let mut app = AppState::new();
    let mut stub = RemoteStub::empty();
    let album = AlbumSummary { id: None, name: "local".to_string() };
    let log = run_dispatch(&mut n, &mut app, &mut stub, IoEvent::GetAlbumTracks(album), 0);
    assert!(log.is_empty());
    assert!(app.selected_album_simplified.is_none());
    assert!(!app.is_loading);
}

#[test]
fn full_album_opens_with_full_context() {
    let mut n = net();
    let mut app = AppState::new();
    let mut stub = RemoteStub::empty();
    stub.full_album = Some(Ok(FullAlbum {
        id: "al9".to_string(),
        name: "Full".to_string(),
        tracks: page(vec![track(Some("t"), "ut")]),
    }));

    run_dispatch(&mut n, &mut app, &mut stub, IoEvent::GetAlbum("al9".to_string()), 0);

    assert_eq!(app.selected_album_full.as_ref().map(|a| a.album.id.clone()), Some("al9".to_string()));
    assert_eq!(app.album_table_context, AlbumTableContext::Full);
    assert_eq!(app.get_current_route().id, RouteId::AlbumTracks);
}

#[test]
fn artist_view_joins_three_catalog_calls() {
    let mut n = net();
    let mut app = AppState::new();
    let mut stub = RemoteStub::empty();
    stub.artist_albums = Some(Ok(page(vec![AlbumSummary { id: None, name: "a1".to_string() }])));
    stub.top_tracks = Some(Ok(vec![track(Some("tt"), "utt")]));
    stub.related_artists = Some(Ok(vec![ArtistSummary {
        id: "rel".to_string(),
        name: "rel".to_string(),
    }]));

    let log = run_dispatch(
        &mut n,
        &mut app,
        &mut stub,
        IoEvent::GetArtist("ar1".to_string(), "Known Name".to_string(), None),
        0,
    );

    let artist = app.artist.as_ref().expect("artist view set");
    assert_eq!(artist.artist_name, "Known Name");
    assert_eq!(artist.albums.items.len(), 1);
    assert_eq!(artist.top_tracks.len(), 1);
    assert_eq!(artist.related_artists.len(), 1);
    assert_eq!(log.len(), 3);
}

#[test]
fn artist_name_is_fetched_when_unknown() {
    let mut n = net();
    let mut app = AppState::new();
    let mut stub = RemoteStub::empty();
    stub.artist_profile = Some(Ok(ArtistSummary {
        id: "ar1".to_string(),
        name: "Resolved".to_string(),
    }));
    stub.artist_albums = Some(Ok(page(vec![])));
    stub.top_tracks = Some(Ok(vec![]));
    stub.related_artists = Some(Ok(vec![]));

    let log = run_dispatch(
        &mut n,
        &mut app,
        &mut stub,
        IoEvent::GetArtist("ar1".to_string(), String::new(), None),
        0,
    );

    assert_eq!(app.artist.as_ref().map(|a| a.artist_name.clone()), Some("Resolved".to_string()));
    assert_eq!(log.len(), 4);
    assert!(matches!(&log[0], RemoteRequest::ArtistProfile { artist_id } if artist_id == "ar1"));
}

#[test]
fn followed_artists_refresh_after_follow() {
    let mut n = net();
    let mut app = AppState::new();
    let mut stub = RemoteStub::empty();
    stub.ack = Some(Ok(()));
    stub.followed_artists = Some(Ok(page(vec![ArtistSummary {
        id: "f1".to_string(),
        name: "f1".to_string(),
    }])));

    let log = run_dispatch(
        &mut n,
        &mut app,
        &mut stub,
        IoEvent::UserFollowArtists(vec!["f1".to_string()]),
        0,
    );

    assert_eq!(app.artists.len(), 1);
    assert_eq!(app.library.saved_artists.pages.len(), 1);
    assert!(matches!(&log[0], RemoteRequest::FollowArtists { ids } if ids == &vec!["f1".to_string()]));
    assert!(matches!(&log[1], RemoteRequest::FollowedArtists { .. }));
}

#[test]
fn playlists_refresh_after_unfollow() {
    let mut n = net();
    let mut app = AppState::new();
    let mut stub = RemoteStub::empty();
    stub.ack = Some(Ok(()));
    stub.playlists = Some(Ok(page(vec![playlist("p1", "Mix", "me")])));

    run_dispatch(
        &mut n,
        &mut app,
        &mut stub,
        IoEvent::UserUnfollowPlaylist("me".to_string(), "p1".to_string()),
        0,
    );

    assert_eq!(app.playlists.as_ref().map(|p| p.items.len()), Some(1));
    assert_eq!(app.selected_playlist_index, Some(0));
}

#[test]
fn saved_albums_refresh_after_delete_and_skip_empty_pages() {
    let mut n = net();
    let mut app = AppState::new();
    let mut stub = RemoteStub::empty();
    stub.ack = Some(Ok(()));
    stub.saved_albums = Some(Ok(page(vec![AlbumSummary {
        id: Some("al".to_string()),
        name: "al".to_string(),
    }])));

    run_dispatch(
        &mut n,
        &mut app,
        &mut stub,
        IoEvent::CurrentUserSavedAlbumDelete("al".to_string()),
        0,
    );
    assert_eq!(app.library.saved_albums.pages.len(), 1);

    // an empty page is not accumulated, so the view never goes blank
    let mut stub2 = RemoteStub::empty();
    stub2.saved_albums = Some(Ok(page(vec![])));
    run_dispatch(
        &mut n,
        &mut app,
        &mut stub2,
        IoEvent::GetCurrentUserSavedAlbums(None),
        0,
    );
    assert_eq!(app.library.saved_albums.pages.len(), 1);
}

#[test]
fn made_for_you_search_filters_and_appends() {
    let mut n = net();
    let mut app = AppState::new();
    let mut stub = RemoteStub::empty();
    stub.search_playlists = Some(Ok(page(vec![
        playlist("1", "Discover Weekly", "spotify"),
        playlist("2", "Discover Weekly", "fan"),
        playlist("3", "Other", "spotify"),
    ])));

    run_dispatch(
        &mut n,
        &mut app,
        &mut stub,
        IoEvent::MadeForYouSearchAndAdd("Discover Weekly".to_string(), None),
        0,
    );
    let first = app.library.made_for_you_playlists.get_results(None).expect("page added");
    assert_eq!(first.items.len(), 1);
    assert_eq!(first.items[0].id, "1");

    // a second search appends its matches to the page already shown
    let mut stub2 = RemoteStub::empty();
    stub2.search_playlists = Some(Ok(page(vec![playlist("4", "Release Radar", "spotify")])));
    run_dispatch(
        &mut n,
        &mut app,
        &mut stub2,
        IoEvent::MadeForYouSearchAndAdd("Release Radar".to_string(), None),
        0,
    );
    let shown = app.library.made_for_you_playlists.get_results(None).expect("page kept");
    assert_eq!(shown.items.len(), 2);
    assert_eq!(shown.items[1].id, "4");
    assert_eq!(app.library.made_for_you_playlists.pages.len(), 1);
}

#[test]
fn recently_played_checks_membership_and_navigates() {
    let mut n = net();
    let mut app = AppState::new();
    let mut stub = RemoteStub::empty();
    stub.recently_played = Some(Ok(page(vec![track(Some("r1"), "ur1")])));
    stub.liked.insert("r1".to_string());

    run_dispatch(&mut n, &mut app, &mut stub, IoEvent::GetRecentlyPlayed, 0);

    assert_eq!(app.recently_played.as_ref().map(|p| p.items.len()), Some(1));
    assert!(app.liked_song_ids_set.contains(&"r1".to_string()));
    assert_eq!(app.get_current_route().id, RouteId::RecentlyPlayed);
}

#[test]
fn audio_analysis_opens_analysis_view() {
    let mut n = net();
    let mut app = AppState::new();
    let mut stub = RemoteStub::empty();
    stub.analysis = Some(Ok(AudioAnalysis { bars: 10, beats: 40, sections: 4, segments: 100 }));

    run_dispatch(
        &mut n,
        &mut app,
        &mut stub,
        IoEvent::GetAudioAnalysis("uri".to_string()),
        0,
    );

    assert_eq!(app.audio_analysis.as_ref().map(|a| a.beats), Some(40));
    assert_eq!(app.get_current_route().id, RouteId::Analysis);
    assert_eq!(app.get_current_route().active_block, ActiveBlock::Analysis);
}

#[test]
fn seek_triggers_playback_refresh() {
    let mut n = net();
    let mut app = AppState::new();
    let mut stub = RemoteStub::empty();
    stub.ack = Some(Ok(()));
    stub.playback = Some(Ok(None));

    let log = run_dispatch(&mut n, &mut app, &mut stub, IoEvent::Seek(30_000), 0);

    assert!(matches!(&log[0], RemoteRequest::SeekTrack { position_ms: 30_000, device_id }
        if device_id == "dev1"));
    assert!(matches!(&log[1], RemoteRequest::CurrentPlayback));
    assert!(!app.is_loading);
}

#[test]
fn track_seeded_recommendations_resolve_the_track_first() {
    let mut n = net();
    let mut app = AppState::new();
    let mut stub = RemoteStub::empty();
    stub.track = Some(Ok(track(Some("seed"), "useed")));
    stub.recommendations = Some(Ok(vec!["u1".to_string()]));
    stub.tracks_info = Some(Ok(vec![track(Some("t1"), "u1")]));
    stub.ack = Some(Ok(()));
    stub.playback = Some(Ok(None));

    let log = run_dispatch(
        &mut n,
        &mut app,
        &mut stub,
        IoEvent::GetRecommendationsForTrackId("seed".to_string(), None),
        0,
    );

    assert!(matches!(&log[0], RemoteRequest::TrackInfo { track_id } if track_id == "seed"));
    assert!(matches!(&log[1], RemoteRequest::Recommendations { seed_tracks: Some(ids), .. }
        if ids == &vec!["seed".to_string()]));
    // the resolved seed track is prepended ahead of the recommendation
    assert_eq!(app.recommended_tracks.len(), 2);
    assert_eq!(app.recommended_tracks[0].uri, "useed");
}

#[test]
fn failed_list_fetches_report_the_failure() {
    let mut n = net();
    let mut app = AppState::new();
    let mut stub = RemoteStub::empty();
    stub.saved_tracks = Some(Err(spotify_sync::model::RemoteError {
        message: "rate limited".to_string(),
    }));
    run_dispatch(
        &mut n,
        &mut app,
        &mut stub,
        IoEvent::GetCurrentSavedTracks(None, false),
        0,
    );
    assert_eq!(app.api_error, Some(StateError::Remote("rate limited".to_string())));
    assert!(app.library.saved_tracks.pages.is_empty());
    assert!(!app.is_loading);
}

#[test]
fn transport_skip_commands_refresh_playback() {
    let mut n = net();
    let mut app = AppState::new();
    let mut stub = RemoteStub::empty();
    stub.ack = Some(Ok(()));
    stub.playback = Some(Ok(None));
    let log = run_dispatch(&mut n, &mut app, &mut stub, IoEvent::NextTrack, 0);
    assert!(matches!(&log[0], RemoteRequest::NextTrack { device_id } if device_id == "dev1"));
    assert!(matches!(&log[1], RemoteRequest::CurrentPlayback));

    let mut stub2 = RemoteStub::empty();
    stub2.ack = Some(Err(spotify_sync::model::RemoteError { message: "gone".to_string() }));
    run_dispatch(&mut n, &mut app, &mut stub2, IoEvent::PausePlayback, 0);
    assert_eq!(app.api_error, Some(StateError::Remote("gone".to_string())));
    assert!(!app.is_loading);
}

#[test]
fn partly_failed_artist_join_reports_first_facet_failure() {
    let mut n = net();
    let mut app = AppState::new();
    let mut stub = RemoteStub::empty();
    stub.artist_albums = Some(Ok(page(vec![])));
    stub.top_tracks = Some(Err(spotify_sync::model::RemoteError {
        message: "top tracks down".to_string(),
    }));
    stub.related_artists = Some(Ok(vec![]));
    run_dispatch(
        &mut n,
        &mut app,
        &mut stub,
        IoEvent::GetArtist("ar".to_string(), "Name".to_string(), None),
        0,
    );
    assert!(app.artist.is_none());
    assert_eq!(app.api_error, Some(StateError::Remote("top tracks down".to_string())));
    assert!(!app.is_loading);
}

#[test]
fn failed_track_resolution_leaves_recommendations_empty() {
    let mut n = net();
    let mut app = AppState::new();
    let mut stub = RemoteStub::empty();
    stub.recommendations = Some(Ok(vec!["u1".to_string()]));
    // no tracks_info answer scripted: the batch fetch fails and is reported
    run_dispatch(
        &mut n,
        &mut app,
        &mut stub,
        IoEvent::GetRecommendationsForSeed(None, Some(vec!["t".to_string()]), None, None),
        0,
    );
    assert!(app.recommended_tracks.is_empty());
    assert!(app.track_table.tracks.is_empty());
    assert!(matches!(app.api_error, Some(StateError::Remote(_))));
    assert!(!app.is_loading);
}

#[test]
fn failed_playback_poll_is_reported() {
    let mut n = net();
    let mut app = AppState::new();
    let mut stub = RemoteStub::empty();
    stub.playback = Some(Err(spotify_sync::model::RemoteError {
        message: "poll down".to_string(),
    }));
    run_dispatch(&mut n, &mut app, &mut stub, IoEvent::GetCurrentPlayback, 0);
    assert!(app.current_playback_context.is_none());
    assert_eq!(app.last_playback_poll_ms, 0);
    assert_eq!(app.api_error, Some(StateError::Remote("poll down".to_string())));
    assert!(!app.is_loading);
}

#[test]
fn failed_device_list_fetch_is_reported() {
    let mut n = net();
    let mut app = AppState::new();
    let mut stub = RemoteStub::empty();
    stub.devices = Some(Err(spotify_sync::model::RemoteError {
        message: "device list down".to_string(),
    }));
    run_dispatch(&mut n, &mut app, &mut stub, IoEvent::GetDevices, 0);
    assert!(app.devices.is_none());
    assert_eq!(app.api_error, Some(StateError::Remote("device list down".to_string())));
    assert!(!app.is_loading);
}

#[test]
fn failed_playlist_page_fetch_is_reported() {
    let mut n = net();
    let mut app = AppState::new();
    let mut stub = RemoteStub::empty();
    stub.playlist_tracks = Some(Err(spotify_sync::model::RemoteError {
        message: "page down".to_string(),
    }));
    run_dispatch(
        &mut n,
        &mut app,
        &mut stub,
        IoEvent::GetPlaylistTracks("pl".to_string(), 0),
        0,
    );
    assert!(app.playlist_tracks.is_none());
    assert_eq!(app.api_error, Some(StateError::Remote("page down".to_string())));
    assert!(!app.is_loading);
}

#[test]
fn get_playlists_selects_the_first() {
    let mut n = net();
    let mut app = AppState::new();
    let mut stub = RemoteStub::empty();
    stub.playlists = Some(Ok(page(vec![playlist("p1", "Mix", "me"), playlist("p2", "Other", "me")])));
    run_dispatch(&mut n, &mut app, &mut stub, IoEvent::GetPlaylists, 0);
    assert_eq!(app.playlists.as_ref().map(|p| p.items.len()), Some(2));
    assert_eq!(app.selected_playlist_index, Some(0));
}

#[test]
fn updated_limits_apply_to_later_searches() {
    let mut n = net();
    let mut app = AppState::new();
    let mut stub0 = RemoteStub::empty();
    run_dispatch(&mut n, &mut app, &mut stub0, IoEvent::UpdateSearchLimits(50, 9), 0);

    let mut stub = RemoteStub::empty();
    stub.search_tracks = Some(Ok(page(vec![])));
    stub.search_artists = Some(Ok(page(vec![])));
    stub.search_albums = Some(Ok(page(vec![])));
    stub.search_playlists = Some(Ok(page(vec![])));
    let log = run_dispatch(
        &mut n,
        &mut app,
        &mut stub,
        IoEvent::GetSearchResults("q".to_string(), Some("US".to_string())),
        0,
    );
    assert!(matches!(&log[0], RemoteRequest::SearchTracks { limit: 9, country: Some(c), .. }
        if c == "US"));
    let mut stub2 = RemoteStub::empty();
    stub2.playlist_tracks = Some(Ok(page(vec![])));
    let log2 = run_dispatch(
        &mut n,
        &mut app,
        &mut stub2,
        IoEvent::GetPlaylistTracks("pl".to_string(), 40),
        0,
    );
    assert!(matches!(&log2[0], RemoteRequest::PlaylistTracks { limit: 50, offset: 40, .. }));
}
