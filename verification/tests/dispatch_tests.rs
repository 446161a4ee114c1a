//! End-to-end dispatch scenarios: one command at a time is run to completion
//! against a scripted remote, and the shared state is inspected afterwards.

use spotify_sync::driver::{run_dispatch, RemoteStub};
use spotify_sync::model::{
    ActiveBlock, AlbumSummary, ArtistSummary, Device, Page, PlaybackContext, PlaylistSummary,
    RemoteError, RepeatState, RouteId, StateError, TokenInfo, Track, TrackTableContext,
    UserProfile,
};
use spotify_sync::network::{ClientConfig, Network};
use spotify_sync::request::{IoEvent, RemoteRequest};
use spotify_sync::state::AppState;

fn net_with_device() -> Network {
    Network::new(0, ClientConfig { device_id: Some("dev1".to_string()) })
}

fn net_without_device() -> Network {
    Network::new(0, ClientConfig { device_id: None })
}

fn track(id: Option<&str>, uri: &str) -> Track {
    Track { id: id.map(|s| s.to_string()), uri: uri.to_string(), name: uri.to_string() }
}

fn page<T>(items: Vec<T>) -> Page<T> {
    let total = items.len() as u32;
    Page { items, offset: 0, total }
}

fn artist(id: &str) -> ArtistSummary {
    ArtistSummary { id: id.to_string(), name: id.to_string() }
}

fn playlist(id: &str, name: &str, owner: &str) -> PlaylistSummary {
    PlaylistSummary { id: id.to_string(), name: name.to_string(), owner_id: owner.to_string() }
}

fn remote_err(msg: &str) -> RemoteError {
    RemoteError { message: msg.to_string() }
}

#[test]
fn search_populates_all_four_facets_and_membership() {
    let mut net = net_with_device();
    let mut app = AppState::new();
    let mut stub = RemoteStub::empty();
    stub.search_tracks = Some(Ok(page(vec![track(Some("t1"), "u1"), track(Some("t2"), "u2")])));
    stub.search_artists = Some(Ok(page(vec![artist("ar1")])));
    stub.search_albums = Some(Ok(page(vec![AlbumSummary {
        id: Some("al1".to_string()),
        name: "al1".to_string(),
    }])));
    stub.search_playlists = Some(Ok(page(vec![playlist("p1", "mix", "someone")])));
    stub.liked.insert("t1".to_string());

    let log = run_dispatch(
        &mut net,
        &mut app,
        &mut stub,
        IoEvent::GetSearchResults("daft punk".to_string(), None),
        5,
    );

    assert!(app.search_results.tracks.is_some());
    assert!(app.search_results.artists.is_some());
    assert!(app.search_results.albums.is_some());
    assert!(app.search_results.playlists.is_some());
    assert_eq!(app.track_table.tracks.len(), 2);
    assert!(app.liked_song_ids_set.contains(&"t1".to_string()));
    assert!(!app.liked_song_ids_set.contains(&"t2".to_string()));
    assert!(!app.is_loading);
    // four facet calls with the smaller page size, then the membership check
    assert_eq!(log.len(), 5);
    assert!(matches!(&log[0], RemoteRequest::SearchTracks { query, limit, .. }
        if query == "daft punk" && *limit == 4));
}

#[test]
fn search_failure_surfaces_single_error() {
    let mut net = net_with_device();
    let mut app = AppState::new();
    let mut stub = RemoteStub::empty();
    stub.search_tracks = Some(Ok(page(vec![track(Some("t1"), "u1")])));
    stub.search_artists = Some(Err(remote_err("artist facet down")));
    stub.search_albums = Some(Ok(page(vec![])));
    stub.search_playlists = Some(Ok(page(vec![])));

    run_dispatch(
        &mut net,
        &mut app,
        &mut stub,
        IoEvent::GetSearchResults("q".to_string(), None),
        0,
    );

    assert_eq!(app.api_error, Some(StateError::Remote("artist facet down".to_string())));
    assert!(app.search_results.tracks.is_none());
    assert!(app.track_table.tracks.is_empty());
    assert!(!app.is_loading);
}

#[test]
fn start_playback_without_device_issues_no_remote_call() {
    let mut net = net_without_device();
    let mut app = AppState::new();
    let mut stub = RemoteStub::empty();

    let log = run_dispatch(
        &mut net,
        &mut app,
        &mut stub,
        IoEvent::StartPlayback(Some("ctx".to_string()), None, None),
        0,
    );

    assert!(log.is_empty());
    assert_eq!(app.api_error, Some(StateError::NoSelectedDevice));
    assert!(!app.is_loading);
}

#[test]
fn recommendations_resolve_tracks_and_start_playback() {
    let mut net = net_with_device();
    let mut app = AppState::new();
    let mut stub = RemoteStub::empty();
    stub.recommendations = Some(Ok(vec!["u1".to_string(), "u2".to_string()]));
    stub.tracks_info = Some(Ok(vec![track(Some("t1"), "u1"), track(Some("t2"), "u2")]));
    stub.ack = Some(Ok(()));
    stub.playback = Some(Ok(None));

    let log = run_dispatch(
        &mut net,
        &mut app,
        &mut stub,
        IoEvent::GetRecommendationsForSeed(None, Some(vec!["t1".to_string()]), None, None),
        0,
    );

    assert_eq!(app.track_table.tracks.len(), 2);
    assert_eq!(app.recommended_tracks.len(), 2);
    assert_eq!(app.track_table.context, Some(TrackTableContext::RecommendedTracks));
    assert_eq!(app.get_current_route().id, RouteId::Recommendations);
    assert!(!app.is_loading);
    let started = log.iter().find_map(|r| match r {
        RemoteRequest::StartPlayback { uris, offset, context_uri, .. } => {
            Some((uris.clone(), *offset, context_uri.clone()))
        }
        _ => None,
    });
    let (uris, offset, context_uri) = started.expect("a playback start must be issued");
    assert_eq!(uris, Some(vec!["u1".to_string(), "u2".to_string()]));
    assert_eq!(offset, Some(0));
    assert_eq!(context_uri, None);
}

#[test]
fn recommendations_prepend_supplied_first_track() {
    let mut net = net_with_device();
    let mut app = AppState::new();
    let mut stub = RemoteStub::empty();
    stub.recommendations = Some(Ok(vec!["u1".to_string()]));
    stub.tracks_info = Some(Ok(vec![track(Some("t1"), "u1")]));
    stub.ack = Some(Ok(()));
    stub.playback = Some(Ok(None));

    run_dispatch(
        &mut net,
        &mut app,
        &mut stub,
        IoEvent::GetRecommendationsForSeed(
            None,
            Some(vec!["t0".to_string()]),
            Some(track(Some("t0"), "u0")),
            None,
        ),
        0,
    );

    assert_eq!(app.recommended_tracks.len(), 2);
    assert_eq!(app.recommended_tracks[0].uri, "u0");
    assert_eq!(app.recommended_tracks[1].uri, "u1");
}

#[test]
fn loading_flag_clears_on_success_and_on_failure() {
    // success path
    let mut net = net_with_device();
    let mut app = AppState::new();
    let mut stub = RemoteStub::empty();
    stub.user = Some(Ok(UserProfile { id: "me".to_string(), display_name: None }));
    run_dispatch(&mut net, &mut app, &mut stub, IoEvent::GetUser, 0);
    assert!(!app.is_loading);
    assert_eq!(app.user.as_ref().map(|u| u.id.clone()), Some("me".to_string()));

    // failure path: the stub has no answer left, so the call fails
    let mut app2 = AppState::new();
    let mut stub2 = RemoteStub::empty();
    run_dispatch(&mut net, &mut app2, &mut stub2, IoEvent::GetUser, 0);
    assert!(!app2.is_loading);
    assert!(matches!(app2.api_error, Some(StateError::Remote(_))));

    // command with no remote call at all
    let mut app3 = AppState::new();
    let mut stub3 = RemoteStub::empty();
    let log = run_dispatch(
        &mut net,
        &mut app3,
        &mut stub3,
        IoEvent::UpdateSearchLimits(30, 6),
        0,
    );
    assert!(log.is_empty());
    assert!(!app3.is_loading);
    assert_eq!(net.large_search_limit, 30);
    assert_eq!(net.small_search_limit, 6);
}

#[test]
fn toggle_save_track_deletes_when_remotely_saved() {
    let mut net = net_with_device();
    let mut app = AppState::new();
    app.liked_song_ids_set.insert("t1".to_string());
    let mut stub = RemoteStub::empty();
    stub.liked.insert("t1".to_string());
    stub.ack = Some(Ok(()));

    let log = run_dispatch(
        &mut net,
        &mut app,
        &mut stub,
        IoEvent::ToggleSaveTrack("t1".to_string()),
        0,
    );

    assert!(!app.liked_song_ids_set.contains(&"t1".to_string()));
    assert!(matches!(&log[1], RemoteRequest::SavedTracksDelete { ids } if ids == &vec!["t1".to_string()]));
}

#[test]
fn toggle_save_track_adds_when_not_remotely_saved() {
    let mut net = net_with_device();
    let mut app = AppState::new();
    let mut stub = RemoteStub::empty();
    stub.ack = Some(Ok(()));

    let log = run_dispatch(
        &mut net,
        &mut app,
        &mut stub,
        IoEvent::ToggleSaveTrack("t9".to_string()),
        0,
    );

    assert!(app.liked_song_ids_set.contains(&"t9".to_string()));
    assert!(matches!(&log[1], RemoteRequest::SavedTracksAdd { ids } if ids == &vec!["t9".to_string()]));
}

#[test]
fn repeat_command_rotates_and_patches_snapshot() {
    let mut net = net_with_device();
    let mut app = AppState::new();
    app.current_playback_context = Some(PlaybackContext {
        track: None,
        shuffle_state: false,
        repeat_state: RepeatState::Off,
        device: Device { id: None, name: "d".to_string(), volume_percent: 50 },
    });
    let mut stub = RemoteStub::empty();
    stub.ack = Some(Ok(()));

    let log = run_dispatch(&mut net, &mut app, &mut stub, IoEvent::Repeat(RepeatState::Off), 0);

    assert_eq!(
        app.current_playback_context.as_ref().unwrap().repeat_state,
        RepeatState::Context
    );
    assert!(matches!(&log[0], RemoteRequest::SetRepeat { state: RepeatState::Context, device_id }
        if device_id == "dev1"));
}

#[test]
fn repeat_without_device_is_reported() {
    let mut net = net_without_device();
    let mut app = AppState::new();
    let mut stub = RemoteStub::empty();
    let log = run_dispatch(&mut net, &mut app, &mut stub, IoEvent::Repeat(RepeatState::Off), 0);
    assert!(log.is_empty());
    assert_eq!(app.api_error, Some(StateError::NoSelectedDevice));
    assert!(!app.is_loading);
}

#[test]
fn shuffle_and_volume_patch_snapshot_optimistically() {
    let mut net = net_with_device();
    let mut app = AppState::new();
    app.current_playback_context = Some(PlaybackContext {
        track: None,
        shuffle_state: false,
        repeat_state: RepeatState::Off,
        device: Device { id: None, name: "d".to_string(), volume_percent: 50 },
    });
    let mut stub = RemoteStub::empty();
    stub.ack = Some(Ok(()));
    run_dispatch(&mut net, &mut app, &mut stub, IoEvent::Shuffle(false), 0);
    assert!(app.current_playback_context.as_ref().unwrap().shuffle_state);

    let mut stub2 = RemoteStub::empty();
    stub2.ack = Some(Ok(()));
    run_dispatch(&mut net, &mut app, &mut stub2, IoEvent::ChangeVolume(80), 0);
    assert_eq!(app.current_playback_context.as_ref().unwrap().device.volume_percent, 80);
}

#[test]
fn current_playback_writes_snapshot_and_polls_membership() {
    let mut net = net_with_device();
    let mut app = AppState::new();
    let mut stub = RemoteStub::empty();
    stub.playback = Some(Ok(Some(PlaybackContext {
        track: Some(track(Some("now1"), "unow")),
        shuffle_state: false,
        repeat_state: RepeatState::Off,
        device: Device { id: None, name: "d".to_string(), volume_percent: 10 },
    })));
    stub.liked.insert("now1".to_string());

    let log = run_dispatch(&mut net, &mut app, &mut stub, IoEvent::GetCurrentPlayback, 777);

    assert!(app.current_playback_context.is_some());
    assert_eq!(app.last_playback_poll_ms, 777);
    assert!(app.liked_song_ids_set.contains(&"now1".to_string()));
    assert_eq!(log.len(), 2);
    assert!(matches!(&log[1], RemoteRequest::SavedTracksContains { ids }
        if ids == &vec!["now1".to_string()]));
}

#[test]
fn devices_list_navigates_and_selects_first() {
    let mut net = net_with_device();
    let mut app = AppState::new();
    let mut stub = RemoteStub::empty();
    stub.devices = Some(Ok(vec![Device {
        id: Some("d1".to_string()),
        name: "Speaker".to_string(),
        volume_percent: 100,
    }]));

    run_dispatch(&mut net, &mut app, &mut stub, IoEvent::GetDevices, 0);

    assert_eq!(app.get_current_route().id, RouteId::SelectedDevice);
    assert_eq!(app.get_current_route().active_block, ActiveBlock::SelectDevice);
    assert_eq!(app.selected_device_index, Some(0));
    assert_eq!(app.devices.as_ref().map(|d| d.len()), Some(1));
}

#[test]
fn refresh_authentication_updates_expiry() {
    let mut net = net_with_device();
    let mut app = AppState::new();
    let mut stub = RemoteStub::empty();
    stub.token = Some(TokenInfo { access_token: "tok".to_string(), expires_in: 3600 });
    run_dispatch(&mut net, &mut app, &mut stub, IoEvent::RefreshAuthentication, 1_000);
    assert_eq!(net.spotify_token_expiry_ms, 1_000 + 3_600_000 - 10_000);
    assert!(app.api_error.is_none());

    // a failed refresh is reported but does not crash anything
    let mut stub2 = RemoteStub::empty();
    run_dispatch(&mut net, &mut app, &mut stub2, IoEvent::RefreshAuthentication, 0);
    assert_eq!(app.api_error, Some(StateError::CredentialRefresh));
    assert!(!app.is_loading);
}

#[test]
fn set_device_id_persists_and_pops_navigation() {
    let mut net = net_without_device();
    let mut app = AppState::new();
    app.push_navigation_stack(RouteId::SelectedDevice, ActiveBlock::SelectDevice);
    let mut stub = RemoteStub::empty();
    stub.config_write = Some(Ok(()));

    run_dispatch(
        &mut net,
        &mut app,
        &mut stub,
        IoEvent::SetDeviceIdInConfig("d9".to_string()),
        0,
    );

    assert_eq!(net.client_config.device_id, Some("d9".to_string()));
    assert_eq!(app.navigation_stack.len(), 1);

    // a failed persistence is reported and the configuration is unchanged
    let mut stub2 = RemoteStub::empty();
    stub2.config_write = Some(Err(remote_err("disk full")));
    run_dispatch(
        &mut net,
        &mut app,
        &mut stub2,
        IoEvent::SetDeviceIdInConfig("elsewhere".to_string()),
        0,
    );
    assert_eq!(net.client_config.device_id, Some("d9".to_string()));
    assert_eq!(app.api_error, Some(StateError::Config("disk full".to_string())));
}
