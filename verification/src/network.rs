//! The command dispatcher, written as a sans-IO state machine. A command
//! enters through [`Network::handle_network_event`], which hands back the
//! remote requests the command needs; the embedding performs each request and
//! feeds its typed result to [`Network::handle_response`], in request order,
//! until no request is outstanding. All decisions — which calls to issue,
//! how to merge results, when to record a failure — are made here; the
//! embedding only moves bytes.

use vstd::prelude::*;
use crate::model::{
    ActiveBlock, AlbumSummary, AlbumTableContext, Artist, ArtistBlock, ArtistSummary, Device,
    FullAlbum, Page, PlaybackContext, PlaylistSummary, RemoteError, RepeatState, Route, RouteId,
    SelectedAlbum, SelectedFullAlbum, StateError, Track, TrackTableContext,
    clone_artist_summaries, clone_opt_string, clone_strings, clone_tracks,
};
use crate::request::{
    IoEvent, RemoteRequest, RemoteResponse, RespTag, compute_token_expiry, req_tag, req_tags,
    resp_tag, token_expiry_spec,
};
use crate::state::{
    AppState, Library, SearchResults, TrackTable, liked_with_saved,
    push_route_spec, saved_check_merge, str_seq, track_id_list, track_ids_vals, track_uri_list,
    track_uris_vals,
};

verus! {

/// The persisted client configuration the dispatcher reads: the selected
/// output device, if any.
#[derive(Debug, PartialEq, Eq)]
pub struct ClientConfig {
    pub device_id: Option<String>,
}

/// What to do once a playback-refresh chain has finished.
#[derive(Debug, PartialEq, Eq)]
pub enum AfterPlayback {
    /// Nothing more: the command is complete.
    Nothing,
    /// Final writes of the recommendations flow: the resolved tracks become
    /// the recommended list and the view navigates to it.
    RecsFinal { tracks: Vec<Track> },
}

/// What to do once the track table has been filled.
#[derive(Debug, PartialEq, Eq)]
pub enum AfterTracks {
    Nothing,
    /// Record the playlist page and navigate to the track table.
    WritePlaylist { page: Page<Track> },
    /// Record the made-for-you page and navigate to the track table.
    WriteMadeForYou { page: Page<Track> },
    /// Record all four search facets.
    WriteSearch {
        tracks: Page<Track>,
        artists: Page<ArtistSummary>,
        albums: Page<AlbumSummary>,
        playlists: Page<PlaylistSummary>,
    },
    /// Start playback of the recommended URIs, then finish the
    /// recommendations flow.
    StartRecsPlayback { uris: Vec<String>, rec_tracks: Vec<Track> },
}

/// What to do once a liked-membership answer has been merged.
#[derive(Debug, PartialEq, Eq)]
pub enum AfterContains {
    /// Fill the track table, then continue.
    SetTracks { tracks: Vec<Track>, after: AfterTracks },
    /// Record the playback snapshot and the poll instant.
    WritePlayback { ctx: PlaybackContext, reset_progress: bool, after: AfterPlayback },
    /// Record the selected album with its tracks and navigate to it.
    WriteAlbum { album: AlbumSummary, tracks_page: Page<Track> },
    /// Record the recently-played page and navigate to it.
    WriteRecentlyPlayed { page: Page<Track> },
}

/// Where the dispatcher stands inside the current command: which response it
/// awaits, and everything it still has to write once that response arrives.
#[derive(Debug, PartialEq, Eq)]
pub enum Phase {
    /// No command is in flight.
    Idle,
    AwaitToken,
    AwaitUser,
    AwaitDevices,
    AwaitPlayback { reset_progress: bool, after: AfterPlayback },
    AwaitContains { ids: Vec<String>, then: AfterContains },
    AwaitPlaylistPage { made_for_you: bool },
    AwaitSavedTracksPage { should_navigate: bool },
    AwaitSearch {
        tracks: Option<Result<Page<Track>, RemoteError>>,
        artists: Option<Result<Page<ArtistSummary>, RemoteError>>,
        albums: Option<Result<Page<AlbumSummary>, RemoteError>>,
        playlists: Option<Result<Page<PlaylistSummary>, RemoteError>>,
    },
    AwaitStartAck { after: AfterPlayback },
    AwaitTransportRefreshAck,
    AwaitShuffleAck { target: bool },
    AwaitRepeatAck { mode: RepeatState },
    AwaitVolumeAck { volume_percent: u8 },
    AwaitArtistName { artist_id: String, country: Option<String> },
    AwaitArtistJoin {
        artist_name: String,
        albums: Option<Result<Page<AlbumSummary>, RemoteError>>,
        top_tracks: Option<Result<Vec<Track>, RemoteError>>,
        related: Option<Result<Vec<ArtistSummary>, RemoteError>>,
    },
    AwaitAlbumTracksPage { album: AlbumSummary },
    AwaitRecs { first_track: Option<Track> },
    AwaitRecTracks { first_track: Option<Track> },
    AwaitTrackForRec { country: Option<String> },
    AwaitToggleContains { track_id: String },
    AwaitToggleAck { track_id: String, deleting: bool },
    AwaitFollowedArtists,
    AwaitSavedAlbumsPage,
    AwaitSavedAlbumDeleteAck,
    AwaitSavedAlbumAddAck,
    AwaitFollowArtistsRefreshAck,
    AwaitPlaylistFollowRefreshAck,
    AwaitPlaylistsPage,
    AwaitMadeForYouSearchPage { search_string: String },
    AwaitAnalysis,
    AwaitRecentlyPlayedPage,
    AwaitFullAlbum,
    AwaitConfigWrite { device_id: String },
}

/// The shapes of the responses the dispatcher still awaits, in the order it
/// expects them.
pub open spec fn awaited(p: Phase) -> Seq<RespTag> {
    match p {
        Phase::Idle => Seq::empty(),
        Phase::AwaitToken => seq![RespTag::Token],
        Phase::AwaitUser => seq![RespTag::User],
        Phase::AwaitDevices => seq![RespTag::Devices],
        Phase::AwaitPlayback { .. } => seq![RespTag::Playback],
        Phase::AwaitContains { .. } => seq![RespTag::Contains],
        Phase::AwaitPlaylistPage { .. } => seq![RespTag::TrackPage],
        Phase::AwaitSavedTracksPage { .. } => seq![RespTag::SavedTracksPage],
        Phase::AwaitSearch { tracks, artists, albums, playlists } => {
            (if tracks is None { seq![RespTag::SearchTracksPage] } else { Seq::empty() })
            + (if artists is None { seq![RespTag::SearchArtistsPage] } else { Seq::empty() })
            + (if albums is None { seq![RespTag::SearchAlbumsPage] } else { Seq::empty() })
            + (if playlists is None { seq![RespTag::SearchPlaylistsPage] } else { Seq::empty() })
        },
        Phase::AwaitStartAck { .. } => seq![RespTag::Ack],
        Phase::AwaitTransportRefreshAck => seq![RespTag::Ack],
        Phase::AwaitShuffleAck { .. } => seq![RespTag::Ack],
        Phase::AwaitRepeatAck { .. } => seq![RespTag::Ack],
        Phase::AwaitVolumeAck { .. } => seq![RespTag::Ack],
        Phase::AwaitArtistName { .. } => seq![RespTag::ArtistProfileInfo],
        Phase::AwaitArtistJoin { albums, top_tracks, related, .. } => {
            (if albums is None { seq![RespTag::ArtistAlbumsPage] } else { Seq::empty() })
            + (if top_tracks is None { seq![RespTag::TopTracks] } else { Seq::empty() })
            + (if related is None { seq![RespTag::Related] } else { Seq::empty() })
        },
        Phase::AwaitAlbumTracksPage { .. } => seq![RespTag::AlbumTracksPage],
        Phase::AwaitRecs { .. } => seq![RespTag::RecommendedUris],
        Phase::AwaitRecTracks { .. } => seq![RespTag::TracksList],
        Phase::AwaitTrackForRec { .. } => seq![RespTag::TrackObject],
        Phase::AwaitToggleContains { .. } => seq![RespTag::Contains],
        Phase::AwaitToggleAck { .. } => seq![RespTag::Ack],
        Phase::AwaitFollowedArtists => seq![RespTag::ArtistsPage],
        Phase::AwaitSavedAlbumsPage => seq![RespTag::AlbumsPage],
        Phase::AwaitSavedAlbumDeleteAck => seq![RespTag::Ack],
        Phase::AwaitSavedAlbumAddAck => seq![RespTag::Ack],
        Phase::AwaitFollowArtistsRefreshAck => seq![RespTag::Ack],
        Phase::AwaitPlaylistFollowRefreshAck => seq![RespTag::Ack],
        Phase::AwaitPlaylistsPage => seq![RespTag::PlaylistsPage],
        Phase::AwaitMadeForYouSearchPage { .. } => seq![RespTag::SearchPlaylistsPage],
        Phase::AwaitAnalysis => seq![RespTag::Analysis],
        Phase::AwaitRecentlyPlayedPage => seq![RespTag::RecentPage],
        Phase::AwaitFullAlbum => seq![RespTag::FullAlbumInfo],
        Phase::AwaitConfigWrite { .. } => seq![RespTag::ConfigAck],
    }
}

/// How many more responses the continuation can cost after the table write.
pub open spec fn after_tracks_rank(t: AfterTracks) -> nat {
    match t {
        AfterTracks::StartRecsPlayback { .. } => 4,
        _ => 0,
    }
}

/// How many more responses the continuation can cost after the merge.
pub open spec fn after_contains_rank(c: AfterContains) -> nat {
    match c {
        AfterContains::SetTracks { after, .. } => after_tracks_rank(after),
        _ => 0,
    }
}

/// A bound on the number of responses the current command still consumes;
/// it strictly decreases with every response handled, and is zero exactly
/// when no command is in flight.
pub open spec fn rank(p: Phase) -> nat {
    match p {
        Phase::Idle => 0,
        Phase::AwaitToken => 1,
        Phase::AwaitUser => 1,
        Phase::AwaitDevices => 1,
        Phase::AwaitPlayback { .. } => 2,
        Phase::AwaitContains { then, .. } => 1 + after_contains_rank(then),
        Phase::AwaitPlaylistPage { .. } => 2,
        Phase::AwaitSavedTracksPage { .. } => 1,
        Phase::AwaitSearch { .. } => 1 + awaited(p).len(),
        Phase::AwaitStartAck { .. } => 3,
        Phase::AwaitTransportRefreshAck => 3,
        Phase::AwaitShuffleAck { .. } => 1,
        Phase::AwaitRepeatAck { .. } => 1,
        Phase::AwaitVolumeAck { .. } => 1,
        Phase::AwaitArtistName { .. } => 4,
        Phase::AwaitArtistJoin { .. } => awaited(p).len(),
        Phase::AwaitAlbumTracksPage { .. } => 2,
        Phase::AwaitRecs { .. } => 7,
        Phase::AwaitRecTracks { .. } => 6,
        Phase::AwaitTrackForRec { .. } => 8,
        Phase::AwaitToggleContains { .. } => 2,
        Phase::AwaitToggleAck { .. } => 1,
        Phase::AwaitFollowedArtists => 1,
        Phase::AwaitSavedAlbumsPage => 1,
        Phase::AwaitSavedAlbumDeleteAck => 2,
        Phase::AwaitSavedAlbumAddAck => 1,
        Phase::AwaitFollowArtistsRefreshAck => 2,
        Phase::AwaitPlaylistFollowRefreshAck => 2,
        Phase::AwaitPlaylistsPage => 1,
        Phase::AwaitMadeForYouSearchPage { .. } => 1,
        Phase::AwaitAnalysis => 1,
        Phase::AwaitRecentlyPlayedPage => 2,
        Phase::AwaitFullAlbum => 1,
        Phase::AwaitConfigWrite { .. } => 1,
    }
}

/// The dispatcher: the search page sizes, the credential expiry it tracks,
/// the persisted configuration, and where it stands in the current command.
#[derive(Debug, PartialEq, Eq)]
pub struct Network {
    pub spotify_token_expiry_ms: u64,
    pub large_search_limit: u32,
    pub small_search_limit: u32,
    pub client_config: ClientConfig,
    pub phase: Phase,
}

/// `a` with the loading flag cleared: every command ends this way.
pub open spec fn app_done(a: AppState) -> AppState {
    AppState { is_loading: false, ..a }
}

/// `a` with the loading flag cleared and a failure recorded.
pub open spec fn app_done_err(a: AppState, e: StateError) -> AppState {
    AppState { is_loading: false, api_error: Option::Some(e), ..a }
}

/// The repeat rotation: off plays on to the context, the context narrows to
/// the track, the track falls back to off.
pub open spec fn next_repeat_spec(r: RepeatState) -> RepeatState {
    match r {
        RepeatState::Off => RepeatState::Context,
        RepeatState::Context => RepeatState::Track,
        RepeatState::Track => RepeatState::Off,
    }
}

/// Computes the repeat state a Repeat command switches to.
pub fn next_repeat_state(r: RepeatState) -> (n: RepeatState)
    ensures
        n == next_repeat_spec(r),
{
    match r {
        RepeatState::Off => RepeatState::Context,
        RepeatState::Context => RepeatState::Track,
        RepeatState::Track => RepeatState::Off,
    }
}

/// A request list of one element.
fn one_req(r: RemoteRequest) -> (v: Vec<RemoteRequest>)
    ensures
        v@ == seq![r],
        req_tags(v@) == seq![req_tag(r)],
{
    let mut v: Vec<RemoteRequest> = Vec::new();
    v.push(r);
    proof {
        assert(v@ =~= seq![r]);
        assert(req_tags(v@) =~= seq![req_tag(r)]);
    }
    v
}

/// A request list of three elements.
fn three_reqs(r0: RemoteRequest, r1: RemoteRequest, r2: RemoteRequest) -> (v: Vec<RemoteRequest>)
    ensures
        v@ == seq![r0, r1, r2],
        req_tags(v@) == seq![req_tag(r0), req_tag(r1), req_tag(r2)],
{
    let mut v: Vec<RemoteRequest> = Vec::new();
    v.push(r0);
    v.push(r1);
    v.push(r2);
    proof {
        assert(v@ =~= seq![r0, r1, r2]);
        assert(req_tags(v@) =~= seq![req_tag(r0), req_tag(r1), req_tag(r2)]);
    }
    v
}

/// A request list of four elements.
fn four_reqs(
    r0: RemoteRequest,
    r1: RemoteRequest,
    r2: RemoteRequest,
    r3: RemoteRequest,
) -> (v: Vec<RemoteRequest>)
    ensures
        v@ == seq![r0, r1, r2, r3],
        req_tags(v@) == seq![req_tag(r0), req_tag(r1), req_tag(r2), req_tag(r3)],
{
    let mut v: Vec<RemoteRequest> = Vec::new();
    v.push(r0);
    v.push(r1);
    v.push(r2);
    v.push(r3);
    proof {
        assert(v@ =~= seq![r0, r1, r2, r3]);
        assert(req_tags(v@) =~= seq![req_tag(r0), req_tag(r1), req_tag(r2), req_tag(r3)]);
    }
    v
}

/// An identifier list of one element.
fn one_id(s: String) -> (v: Vec<String>)
    ensures
        v@ == seq![s],
{
    let mut v: Vec<String> = Vec::new();
    v.push(s);
    proof {
        assert(v@ =~= seq![s]);
    }
    v
}

impl Network {
    /// A dispatcher with the default page sizes: twenty items for list
    /// views, four for search facets.
    pub fn new(spotify_token_expiry_ms: u64, client_config: ClientConfig) -> (r: Self)
        ensures
            r.spotify_token_expiry_ms == spotify_token_expiry_ms,
            r.large_search_limit == 20,
            r.small_search_limit == 4,
            r.client_config == client_config,
            r.phase is Idle,
    {
        Network {
            spotify_token_expiry_ms,
            large_search_limit: 20,
            small_search_limit: 4,
            client_config,
            phase: Phase::Idle,
        }
    }

    /// No command is in flight.
    pub fn is_idle(&self) -> (r: bool)
        ensures
            r == (self.phase is Idle),
    {
        match self.phase {
            Phase::Idle => true,
            _ => false,
        }
    }

    /// Reads the selected output device for a transport command; when none
    /// is selected, records the precondition failure and completes the
    /// command with nothing issued.
    fn transport_device(&self, app: &mut AppState) -> (r: Option<String>)
        ensures
            match r {
                Option::Some(d) => {
                    &&& Option::Some(d) == self.client_config.device_id
                    &&& *final(app) == *old(app)
                },
                Option::None => {
                    &&& self.client_config.device_id is None
                    &&& *final(app) == app_done_err(*old(app), StateError::NoSelectedDevice)
                },
            },
    {
        match &self.client_config.device_id {
            Option::Some(d) => Option::Some(d.clone()),
            Option::None => {
                app.handle_error(StateError::NoSelectedDevice);
                app.is_loading = false;
                Option::None
            },
        }
    }
}

/// What receiving one command does: the requests issued, the phase entered,
/// and the immediate state writes, for every command. Commands that issue no
/// request complete at once, clearing the loading flag; a transport or
/// playback-start command without a selected output device completes with
/// the precondition failure recorded and nothing issued. Opaque: callers
/// reveal it where they reason under it.
#[verifier::opaque]
pub open spec fn start_post(
    n0: Network,
    a0: AppState,
    n1: Network,
    a1: AppState,
    reqs: Seq<RemoteRequest>,
    event: IoEvent,
) -> bool {
    match event {
        IoEvent::GetCurrentPlayback => {
            &&& reqs == seq![RemoteRequest::CurrentPlayback]
            &&& n1 == (Network {
                phase: Phase::AwaitPlayback {
                    reset_progress: false,
                    after: AfterPlayback::Nothing,
                },
                ..n0
            })
            &&& a1 == a0
        },
        IoEvent::RefreshAuthentication => {
            &&& reqs == seq![RemoteRequest::RefreshToken]
            &&& n1 == (Network { phase: Phase::AwaitToken, ..n0 })
            &&& a1 == a0
        },
        IoEvent::GetPlaylists => {
            &&& reqs == seq![
                RemoteRequest::CurrentUserPlaylists { limit: n0.large_search_limit },
            ]
            &&& n1 == (Network { phase: Phase::AwaitPlaylistsPage, ..n0 })
            &&& a1 == a0
        },
        IoEvent::GetDevices => {
            &&& reqs == seq![RemoteRequest::GetDevices]
            &&& n1 == (Network { phase: Phase::AwaitDevices, ..n0 })
            &&& a1 == a0
        },
        IoEvent::GetSearchResults(term, country) => {
            &&& reqs == seq![
                RemoteRequest::SearchTracks {
                    query: term,
                    limit: n0.small_search_limit,
                    offset: 0,
                    country: country,
                },
                RemoteRequest::SearchArtists {
                    query: term,
                    limit: n0.small_search_limit,
                    offset: 0,
                    country: country,
                },
                RemoteRequest::SearchAlbums {
                    query: term,
                    limit: n0.small_search_limit,
                    offset: 0,
                    country: country,
                },
                RemoteRequest::SearchPlaylists {
                    query: term,
                    limit: n0.small_search_limit,
                    offset: 0,
                    country: country,
                },
            ]
            &&& n1 == (Network {
                phase: Phase::AwaitSearch {
                    tracks: Option::None,
                    artists: Option::None,
                    albums: Option::None,
                    playlists: Option::None,
                },
                ..n0
            })
            &&& a1 == a0
        },
        IoEvent::SetTracksToTable(tracks) => {
            &&& reqs.len() == 1
            &&& (reqs[0] matches RemoteRequest::SavedTracksContains { ids }
                && ids@ == track_ids_vals(tracks@))
            &&& (n1.phase matches Phase::AwaitContains { ids, then }
                && ids@ == track_ids_vals(tracks@)
                && then == (AfterContains::SetTracks { tracks, after: AfterTracks::Nothing }))
            &&& n1 == (Network { phase: n1.phase, ..n0 })
            &&& a1 == a0
        },
        IoEvent::GetMadeForYouPlaylistTracks(playlist_id, offset) => {
            &&& reqs == seq![
                RemoteRequest::PlaylistTracks {
                    playlist_id: playlist_id,
                    limit: n0.large_search_limit,
                    offset: offset,
                },
            ]
            &&& n1 == (Network { phase: Phase::AwaitPlaylistPage { made_for_you: true }, ..n0 })
            &&& a1 == a0
        },
        IoEvent::GetPlaylistTracks(playlist_id, offset) => {
            &&& reqs == seq![
                RemoteRequest::PlaylistTracks {
                    playlist_id: playlist_id,
                    limit: n0.large_search_limit,
                    offset: offset,
                },
            ]
            &&& n1 == (Network { phase: Phase::AwaitPlaylistPage { made_for_you: false }, ..n0 })
            &&& a1 == a0
        },
        IoEvent::GetCurrentSavedTracks(offset, should_navigate) => {
            &&& reqs == seq![
                RemoteRequest::SavedTracks { limit: n0.large_search_limit, offset: offset },
            ]
            &&& n1 == (Network {
                phase: Phase::AwaitSavedTracksPage { should_navigate },
                ..n0
            })
            &&& a1 == a0
        },
        IoEvent::StartPlayback(context_uri, uris, offset) => {
            let resolved_context = if context_uri is Some {
                context_uri
            } else {
                Option::<String>::None
            };
            let resolved_uris = if context_uri is Some {
                Option::<Vec<String>>::None
            } else {
                uris
            };
            match n0.client_config.device_id {
                Option::None => {
                    &&& reqs.len() == 0
                    &&& n1 == n0
                    &&& a1 == app_done_err(a0, StateError::NoSelectedDevice)
                },
                Option::Some(d) => {
                    &&& reqs == seq![
                        RemoteRequest::StartPlayback {
                            device_id: d,
                            context_uri: resolved_context,
                            uris: resolved_uris,
                            offset: offset,
                        },
                    ]
                    &&& n1 == (Network {
                        phase: Phase::AwaitStartAck { after: AfterPlayback::Nothing },
                        ..n0
                    })
                    &&& a1 == a0
                },
            }
        },
        IoEvent::UpdateSearchLimits(large, small) => {
            &&& reqs.len() == 0
            &&& n1 == (Network { large_search_limit: large, small_search_limit: small, ..n0 })
            &&& a1 == app_done(a0)
        },
        IoEvent::Seek(position_ms) => {
            match n0.client_config.device_id {
                Option::None => {
                    &&& reqs.len() == 0
                    &&& n1 == n0
                    &&& a1 == app_done_err(a0, StateError::NoSelectedDevice)
                },
                Option::Some(d) => {
                    &&& reqs == seq![RemoteRequest::SeekTrack { position_ms, device_id: d }]
                    &&& n1 == (Network { phase: Phase::AwaitTransportRefreshAck, ..n0 })
                    &&& a1 == a0
                },
            }
        },
        IoEvent::NextTrack => {
            match n0.client_config.device_id {
                Option::None => {
                    &&& reqs.len() == 0
                    &&& n1 == n0
                    &&& a1 == app_done_err(a0, StateError::NoSelectedDevice)
                },
                Option::Some(d) => {
                    &&& reqs == seq![RemoteRequest::NextTrack { device_id: d }]
                    &&& n1 == (Network { phase: Phase::AwaitTransportRefreshAck, ..n0 })
                    &&& a1 == a0
                },
            }
        },
        IoEvent::PreviousTrack => {
            match n0.client_config.device_id {
                Option::None => {
                    &&& reqs.len() == 0
                    &&& n1 == n0
                    &&& a1 == app_done_err(a0, StateError::NoSelectedDevice)
                },
                Option::Some(d) => {
                    &&& reqs == seq![RemoteRequest::PreviousTrack { device_id: d }]
                    &&& n1 == (Network { phase: Phase::AwaitTransportRefreshAck, ..n0 })
                    &&& a1 == a0
                },
            }
        },
        IoEvent::Shuffle(shuffle_state) => {
            match n0.client_config.device_id {
                Option::None => {
                    &&& reqs.len() == 0
                    &&& n1 == n0
                    &&& a1 == app_done_err(a0, StateError::NoSelectedDevice)
                },
                Option::Some(d) => {
                    &&& reqs == seq![
                        RemoteRequest::SetShuffle { state: !shuffle_state, device_id: d },
                    ]
                    &&& n1 == (Network {
                        phase: Phase::AwaitShuffleAck { target: !shuffle_state },
                        ..n0
                    })
                    &&& a1 == a0
                },
            }
        },
        IoEvent::Repeat(repeat_state) => {
            match n0.client_config.device_id {
                Option::None => {
                    &&& reqs.len() == 0
                    &&& n1 == n0
                    &&& a1 == app_done_err(a0, StateError::NoSelectedDevice)
                },
                Option::Some(d) => {
                    &&& reqs == seq![
                        RemoteRequest::SetRepeat {
                            state: next_repeat_spec(repeat_state),
                            device_id: d,
                        },
                    ]
                    &&& n1 == (Network {
                        phase: Phase::AwaitRepeatAck { mode: next_repeat_spec(repeat_state) },
                        ..n0
                    })
                    &&& a1 == a0
                },
            }
        },
        IoEvent::PausePlayback => {
            match n0.client_config.device_id {
                Option::None => {
                    &&& reqs.len() == 0
                    &&& n1 == n0
                    &&& a1 == app_done_err(a0, StateError::NoSelectedDevice)
                },
                Option::Some(d) => {
                    &&& reqs == seq![RemoteRequest::PausePlayback { device_id: d }]
                    &&& n1 == (Network { phase: Phase::AwaitTransportRefreshAck, ..n0 })
                    &&& a1 == a0
                },
            }
        },
        IoEvent::ChangeVolume(volume_percent) => {
            match n0.client_config.device_id {
                Option::None => {
                    &&& reqs.len() == 0
                    &&& n1 == n0
                    &&& a1 == app_done_err(a0, StateError::NoSelectedDevice)
                },
                Option::Some(d) => {
                    &&& reqs == seq![RemoteRequest::SetVolume { volume_percent, device_id: d }]
                    &&& n1 == (Network {
                        phase: Phase::AwaitVolumeAck { volume_percent },
                        ..n0
                    })
                    &&& a1 == a0
                },
            }
        },
        IoEvent::GetArtist(artist_id, input_artist_name, country) => {
            if input_artist_name@.len() == 0 {
                &&& reqs == seq![RemoteRequest::ArtistProfile { artist_id: artist_id }]
                &&& n1 == (Network {
                    phase: Phase::AwaitArtistName { artist_id, country },
                    ..n0
                })
                &&& a1 == a0
            } else {
                &&& reqs == seq![
                    RemoteRequest::ArtistAlbums {
                        artist_id: artist_id,
                        country: country,
                        limit: n0.large_search_limit,
                        offset: 0,
                    },
                    RemoteRequest::ArtistTopTracks { artist_id: artist_id, country: country },
                    RemoteRequest::RelatedArtists { artist_id: artist_id },
                ]
                &&& n1 == (Network {
                    phase: Phase::AwaitArtistJoin {
                        artist_name: input_artist_name,
                        albums: Option::None,
                        top_tracks: Option::None,
                        related: Option::None,
                    },
                    ..n0
                })
                &&& a1 == a0
            }
        },
        IoEvent::GetAlbumTracks(album) => {
            match album.id {
                Option::None => {
                    &&& reqs.len() == 0
                    &&& n1 == n0
                    &&& a1 == app_done(a0)
                },
                Option::Some(album_id) => {
                    &&& reqs == seq![
                        RemoteRequest::AlbumTracks {
                            album_id: album_id,
                            limit: n0.large_search_limit,
                            offset: 0,
                        },
                    ]
                    &&& n1 == (Network { phase: Phase::AwaitAlbumTracksPage { album }, ..n0 })
                    &&& a1 == a0
                },
            }
        },
        IoEvent::GetRecommendationsForSeed(seed_artists, seed_tracks, first_track, country) => {
            &&& reqs == seq![
                RemoteRequest::Recommendations {
                    seed_artists: seed_artists,
                    seed_tracks: seed_tracks,
                    limit: n0.large_search_limit,
                    country: country,
                },
            ]
            &&& n1 == (Network { phase: Phase::AwaitRecs { first_track }, ..n0 })
            &&& a1 == a0
        },
        IoEvent::GetCurrentUserSavedAlbums(offset) => {
            &&& reqs == seq![
                RemoteRequest::SavedAlbums { limit: n0.large_search_limit, offset: offset },
            ]
            &&& n1 == (Network { phase: Phase::AwaitSavedAlbumsPage, ..n0 })
            &&& a1 == a0
        },
        IoEvent::CurrentUserSavedAlbumDelete(album_id) => {
            &&& reqs.len() == 1
            &&& (reqs[0] matches RemoteRequest::SavedAlbumsDelete { ids }
                && ids@ == seq![album_id])
            &&& n1 == (Network { phase: Phase::AwaitSavedAlbumDeleteAck, ..n0 })
            &&& a1 == a0
        },
        IoEvent::CurrentUserSavedAlbumAdd(album_id) => {
            &&& reqs.len() == 1
            &&& (reqs[0] matches RemoteRequest::SavedAlbumsAdd { ids } && ids@ == seq![album_id])
            &&& n1 == (Network { phase: Phase::AwaitSavedAlbumAddAck, ..n0 })
            &&& a1 == a0
        },
        IoEvent::UserUnfollowArtists(artist_ids) => {
            &&& reqs == seq![RemoteRequest::UnfollowArtists { ids: artist_ids }]
            &&& n1 == (Network { phase: Phase::AwaitFollowArtistsRefreshAck, ..n0 })
            &&& a1 == a0
        },
        IoEvent::UserFollowArtists(artist_ids) => {
            &&& reqs == seq![RemoteRequest::FollowArtists { ids: artist_ids }]
            &&& n1 == (Network { phase: Phase::AwaitFollowArtistsRefreshAck, ..n0 })
            &&& a1 == a0
        },
        IoEvent::UserFollowPlaylist(owner_id, playlist_id, public) => {
            &&& reqs == seq![
                RemoteRequest::FollowPlaylist { owner_id, playlist_id, public },
            ]
            &&& n1 == (Network { phase: Phase::AwaitPlaylistFollowRefreshAck, ..n0 })
            &&& a1 == a0
        },
        IoEvent::UserUnfollowPlaylist(user_id, playlist_id) => {
            &&& reqs == seq![RemoteRequest::UnfollowPlaylist { user_id, playlist_id }]
            &&& n1 == (Network { phase: Phase::AwaitPlaylistFollowRefreshAck, ..n0 })
            &&& a1 == a0
        },
        IoEvent::MadeForYouSearchAndAdd(search_string, country) => {
            &&& reqs == seq![
                RemoteRequest::SearchPlaylists {
                    query: search_string,
                    limit: n0.large_search_limit,
                    offset: 0,
                    country: country,
                },
            ]
            &&& n1 == (Network {
                phase: Phase::AwaitMadeForYouSearchPage { search_string },
                ..n0
            })
            &&& a1 == a0
        },
        IoEvent::GetAudioAnalysis(uri) => {
            &&& reqs == seq![RemoteRequest::AudioAnalysisFor { uri }]
            &&& n1 == (Network { phase: Phase::AwaitAnalysis, ..n0 })
            &&& a1 == a0
        },
        IoEvent::GetUser => {
            &&& reqs == seq![RemoteRequest::CurrentUser]
            &&& n1 == (Network { phase: Phase::AwaitUser, ..n0 })
            &&& a1 == a0
        },
        IoEvent::ToggleSaveTrack(track_id) => {
            &&& reqs.len() == 1
            &&& (reqs[0] matches RemoteRequest::SavedTracksContains { ids }
                && ids@ == seq![track_id])
            &&& n1 == (Network { phase: Phase::AwaitToggleContains { track_id }, ..n0 })
            &&& a1 == a0
        },
        IoEvent::GetRecommendationsForTrackId(track_id, country) => {
            &&& reqs == seq![RemoteRequest::TrackInfo { track_id }]
            &&& n1 == (Network { phase: Phase::AwaitTrackForRec { country }, ..n0 })
            &&& a1 == a0
        },
        IoEvent::GetRecentlyPlayed => {
            &&& reqs == seq![RemoteRequest::RecentlyPlayed { limit: n0.large_search_limit }]
            &&& n1 == (Network { phase: Phase::AwaitRecentlyPlayedPage, ..n0 })
            &&& a1 == a0
        },
        IoEvent::GetFollowedArtists(after) => {
            &&& reqs == seq![
                RemoteRequest::FollowedArtists { limit: n0.large_search_limit, after },
            ]
            &&& n1 == (Network { phase: Phase::AwaitFollowedArtists, ..n0 })
            &&& a1 == a0
        },
        IoEvent::GetAlbum(album_id) => {
            &&& reqs == seq![RemoteRequest::AlbumInfo { album_id }]
            &&& n1 == (Network { phase: Phase::AwaitFullAlbum, ..n0 })
            &&& a1 == a0
        },
        IoEvent::SetDeviceIdInConfig(device_id) => {
            &&& reqs == seq![RemoteRequest::WriteDeviceConfig { device_id: device_id }]
            &&& n1 == (Network { phase: Phase::AwaitConfigWrite { device_id }, ..n0 })
            &&& a1 == a0
        },
    }
}

/// The identifier the playback snapshot's track is checked for, if any.
pub open spec fn playback_check_ids(ctx: PlaybackContext) -> Seq<String> {
    match ctx.track {
        Option::Some(t) => match t.id {
            Option::Some(id) => seq![id],
            Option::None => Seq::empty(),
        },
        Option::None => Seq::empty(),
    }
}

/// The liked set after a membership answer: merged on success, untouched on
/// failure.
pub open spec fn liked_after_contains(
    liked: Set<Seq<char>>,
    ids: Seq<String>,
    r: Result<Vec<bool>, RemoteError>,
) -> Set<Seq<char>> {
    match r {
        Result::Ok(flags) => saved_check_merge(liked, str_seq(ids), flags@),
        Result::Err(_) => liked,
    }
}

/// The recorded failure after a membership answer: a failed check is
/// reported, a successful one leaves the record alone.
pub open spec fn contains_err_or(
    prior: Option<StateError>,
    r: Result<Vec<bool>, RemoteError>,
) -> Option<StateError> {
    match r {
        Result::Ok(_) => prior,
        Result::Err(e) => Option::Some(StateError::Remote(e.message)),
    }
}

/// The made-for-you playlists among a search page: owned by the catalog
/// curator and named exactly like the search string.
pub open spec fn mfy_filter(items: Seq<PlaylistSummary>, term: String) -> Seq<PlaylistSummary>
    decreases items.len(),
{
    if items.len() == 0 {
        Seq::empty()
    } else {
        mfy_filter(items.drop_last(), term) + if items.last().owner_id@ == "spotify"@
            && items.last().name@ == term@ {
            seq![items.last()]
        } else {
            Seq::empty()
        }
    }
}

/// What one search facet's failure surfaces: the first failed facet, in
/// facet order, is the operation's only error.
pub open spec fn search_first_err(
    t: Result<Page<Track>, RemoteError>,
    ar: Result<Page<ArtistSummary>, RemoteError>,
    al: Result<Page<AlbumSummary>, RemoteError>,
    p: Result<Page<PlaylistSummary>, RemoteError>,
) -> Seq<char> {
    if t is Err {
        (match t {
            Result::Err(e) => e.message@,
            Result::Ok(_) => Seq::empty(),
        })
    } else if ar is Err {
        (match ar {
            Result::Err(e) => e.message@,
            Result::Ok(_) => Seq::empty(),
        })
    } else if al is Err {
        (match al {
            Result::Err(e) => e.message@,
            Result::Ok(_) => Seq::empty(),
        })
    } else {
        (match p {
            Result::Err(e) => e.message@,
            Result::Ok(_) => Seq::empty(),
        })
    }
}

/// What filling one search slot leads to: while a facet is still missing the
/// dispatcher only records the slot; once all four are in, it either chains
/// into the liked-membership check for the found tracks or surfaces the
/// first facet failure as the operation's only error.
pub open spec fn search_resume_post(
    n0: Network,
    a0: AppState,
    n1: Network,
    a1: AppState,
    reqs: Seq<RemoteRequest>,
    t: Option<Result<Page<Track>, RemoteError>>,
    ar: Option<Result<Page<ArtistSummary>, RemoteError>>,
    al: Option<Result<Page<AlbumSummary>, RemoteError>>,
    p: Option<Result<Page<PlaylistSummary>, RemoteError>>,
) -> bool {
    if t is Some && ar is Some && al is Some && p is Some {
        match (t, ar, al, p) {
            (Option::Some(t), Option::Some(ar), Option::Some(al), Option::Some(p)) => {
                if t is Ok && ar is Ok && al is Ok && p is Ok {
                    match (t, ar, al, p) {
                        (Result::Ok(tp), Result::Ok(arp), Result::Ok(alp), Result::Ok(pp)) => {
                            &&& reqs.len() == 1
                            &&& (reqs[0] matches RemoteRequest::SavedTracksContains { ids }
                                && ids@ == track_ids_vals(tp.items@))
                            &&& (n1.phase matches Phase::AwaitContains { ids, then }
                                && ids@ == track_ids_vals(tp.items@)
                                && (then matches AfterContains::SetTracks { tracks, after }
                                    && tracks@ == tp.items@
                                    && after == (AfterTracks::WriteSearch {
                                        tracks: tp,
                                        artists: arp,
                                        albums: alp,
                                        playlists: pp,
                                    })))
                            &&& n1 == (Network { phase: n1.phase, ..n0 })
                            &&& a1 == a0
                        },
                        _ => false,
                    }
                } else {
                    &&& reqs.len() == 0
                    &&& n1 == (Network { phase: Phase::Idle, ..n0 })
                    &&& (a1.api_error matches Option::Some(StateError::Remote(m))
                        && m@ == search_first_err(t, ar, al, p))
                    &&& a1 == (AppState {
                        api_error: a1.api_error,
                        is_loading: false,
                        ..a0
                    })
                }
            },
            _ => false,
        }
    } else {
        &&& reqs.len() == 0
        &&& n1 == (Network {
            phase: Phase::AwaitSearch { tracks: t, artists: ar, albums: al, playlists: p },
            ..n0
        })
        &&& a1 == a0
    }
}

/// What one artist-join facet's failure surfaces: the first failed facet,
/// in facet order, is the operation's only error.
pub open spec fn artist_first_err(
    al: Result<Page<AlbumSummary>, RemoteError>,
    tt: Result<Vec<Track>, RemoteError>,
    rl: Result<Vec<ArtistSummary>, RemoteError>,
) -> Seq<char> {
    if al is Err {
        (match al {
            Result::Err(e) => e.message@,
            Result::Ok(_) => Seq::empty(),
        })
    } else if tt is Err {
        (match tt {
            Result::Err(e) => e.message@,
            Result::Ok(_) => Seq::empty(),
        })
    } else {
        (match rl {
            Result::Err(e) => e.message@,
            Result::Ok(_) => Seq::empty(),
        })
    }
}

/// What filling one artist-join slot leads to: once the catalog, the top
/// tracks and the related artists are all in, a fully successful join is
/// written as the artist view, and any facet's failure surfaces as the
/// operation's only recorded error, the view untouched.
pub open spec fn artist_resume_post(
    n0: Network,
    a0: AppState,
    n1: Network,
    a1: AppState,
    reqs: Seq<RemoteRequest>,
    artist_name: String,
    al: Option<Result<Page<AlbumSummary>, RemoteError>>,
    tt: Option<Result<Vec<Track>, RemoteError>>,
    rl: Option<Result<Vec<ArtistSummary>, RemoteError>>,
) -> bool {
    if al is Some && tt is Some && rl is Some {
        match (al, tt, rl) {
            (Option::Some(al), Option::Some(tt), Option::Some(rl)) => {
                &&& reqs.len() == 0
                &&& n1 == (Network { phase: Phase::Idle, ..n0 })
                &&& (match (al, tt, rl) {
                    (Result::Ok(albums), Result::Ok(top_tracks), Result::Ok(related)) => a1
                        == (AppState {
                        artist: Option::Some(
                            Artist {
                                artist_name: artist_name,
                                albums: albums,
                                related_artists: related,
                                top_tracks: top_tracks,
                                selected_album_index: 0,
                                selected_related_artist_index: 0,
                                selected_top_track_index: 0,
                                artist_hovered_block: ArtistBlock::TopTracks,
                                artist_selected_block: ArtistBlock::Empty,
                            },
                        ),
                        is_loading: false,
                        ..a0
                    }),
                    _ => {
                        &&& (a1.api_error matches Option::Some(StateError::Remote(m))
                            && m@ == artist_first_err(al, tt, rl))
                        &&& a1 == (AppState {
                            api_error: a1.api_error,
                            is_loading: false,
                            ..a0
                        })
                    },
                })
            },
            _ => false,
        }
    } else {
        &&& reqs.len() == 0
        &&& n1 == (Network {
            phase: Phase::AwaitArtistJoin { artist_name, albums: al, top_tracks: tt, related: rl },
            ..n0
        })
        &&& a1 == a0
    }
}

/// What handling one response does, for every phase of every command: the
/// state writes performed, the failure recorded if any, the requests issued
/// next, and the phase entered. Read together with [`start_post`] this is
/// the whole behaviour of the dispatcher.
pub open spec fn step_post(
    n0: Network,
    a0: AppState,
    n1: Network,
    a1: AppState,
    reqs: Seq<RemoteRequest>,
    resp: RemoteResponse,
    now_ms: u64,
) -> bool {
    match n0.phase {
        Phase::Idle => false,
        Phase::AwaitToken => (resp matches RemoteResponse::Token(t) && {
            &&& reqs.len() == 0
            &&& (match t {
                Option::Some(ti) => {
                    &&& n1 == (Network {
                        spotify_token_expiry_ms: token_expiry_spec(
                            now_ms as int,
                            ti.expires_in as int,
                        ) as u64,
                        phase: Phase::Idle,
                        ..n0
                    })
                    &&& a1 == app_done(a0)
                },
                Option::None => {
                    &&& n1 == (Network { phase: Phase::Idle, ..n0 })
                    &&& a1 == app_done_err(a0, StateError::CredentialRefresh)
                },
            })
        }),
        Phase::AwaitUser => (resp matches RemoteResponse::User(r) && {
            &&& reqs.len() == 0
            &&& n1 == (Network { phase: Phase::Idle, ..n0 })
            &&& (match r {
                Result::Ok(user) => a1 == (AppState {
                    user: Option::Some(user),
                    is_loading: false,
                    ..a0
                }),
                Result::Err(e) => a1 == app_done_err(a0, StateError::Remote(e.message)),
            })
        }),
        Phase::AwaitDevices => (resp matches RemoteResponse::Devices(r) && {
            &&& reqs.len() == 0
            &&& n1 == (Network { phase: Phase::Idle, ..n0 })
            &&& (match r {
                Result::Ok(devices) => {
                    &&& a1.navigation_stack@ == push_route_spec(
                        a0.navigation_stack@,
                        Route { id: RouteId::SelectedDevice, active_block: ActiveBlock::SelectDevice },
                    )
                    &&& (if devices@.len() > 0 {
                        a1 == (AppState {
                            navigation_stack: a1.navigation_stack,
                            devices: Option::Some(devices),
                            selected_device_index: Option::Some(0usize),
                            is_loading: false,
                            ..a0
                        })
                    } else {
                        a1 == (AppState {
                            navigation_stack: a1.navigation_stack,
                            is_loading: false,
                            ..a0
                        })
                    })
                },
                Result::Err(e) => a1 == app_done_err(a0, StateError::Remote(e.message)),
            })
        }),
        Phase::AwaitPlayback { reset_progress, after } => (resp matches RemoteResponse::Playback(r)
            && playback_resp_post(n0, a0, n1, a1, reqs, reset_progress, after, r, now_ms)),
        Phase::AwaitContains { ids, then } => (resp matches RemoteResponse::Contains(r) && {
            contains_step_post(n0, a0, n1, a1, reqs, ids, then, r, now_ms)
        }),
        Phase::AwaitPlaylistPage { made_for_you } => (resp matches RemoteResponse::TrackPage(r)
            && {
            match r {
                Result::Ok(page) => {
                    &&& reqs.len() == 1
                    &&& (reqs[0] matches RemoteRequest::SavedTracksContains { ids }
                        && ids@ == track_ids_vals(page.items@))
                    &&& (n1.phase matches Phase::AwaitContains { ids, then }
                        && ids@ == track_ids_vals(page.items@)
                        && (then matches AfterContains::SetTracks { tracks, after }
                            && tracks@ == page.items@
                            && after == (if made_for_you {
                                AfterTracks::WriteMadeForYou { page }
                            } else {
                                AfterTracks::WritePlaylist { page }
                            })))
                    &&& n1 == (Network { phase: n1.phase, ..n0 })
                    &&& a1 == a0
                },
                Result::Err(e) => {
                    &&& reqs.len() == 0
                    &&& n1 == (Network { phase: Phase::Idle, ..n0 })
                    &&& a1 == app_done_err(a0, StateError::Remote(e.message))
                },
            }
        }),
        Phase::AwaitSavedTracksPage { should_navigate } => (resp
            matches RemoteResponse::SavedTracksPage(r) && {
            &&& reqs.len() == 0
            &&& n1 == (Network { phase: Phase::Idle, ..n0 })
            &&& (match r {
                Result::Ok(page) => {
                    &&& a1.liked_song_ids_set@ == liked_with_saved(
                        a0.liked_song_ids_set@,
                        page.items@,
                    )
                    &&& a1.track_table.tracks@ == page.items@
                    &&& a1.library.saved_tracks.pages@ == a0.library.saved_tracks.pages@.push(page)
                    &&& a1.library.saved_tracks.index == a0.library.saved_tracks.pages@.len()
                    &&& a1.navigation_stack@ == (if should_navigate {
                        push_route_spec(
                            a0.navigation_stack@,
                            Route { id: RouteId::TrackTable, active_block: ActiveBlock::TrackTable },
                        )
                    } else {
                        a0.navigation_stack@
                    })
                    &&& a1 == (AppState {
                        liked_song_ids_set: a1.liked_song_ids_set,
                        track_table: TrackTable {
                            tracks: a1.track_table.tracks,
                            context: Option::Some(TrackTableContext::SavedTracks),
                        },
                        library: Library { saved_tracks: a1.library.saved_tracks, ..a0.library },
                        navigation_stack: a1.navigation_stack,
                        is_loading: false,
                        ..a0
                    })
                },
                Result::Err(e) => a1 == app_done_err(a0, StateError::Remote(e.message)),
            })
        }),
        Phase::AwaitSearch { tracks, artists, albums, playlists } => {
            match resp {
                RemoteResponse::SearchTracksPage(r) => search_resume_post(
                    n0, a0, n1, a1, reqs, Option::Some(r), artists, albums, playlists,
                ),
                RemoteResponse::SearchArtistsPage(r) => search_resume_post(
                    n0, a0, n1, a1, reqs, tracks, Option::Some(r), albums, playlists,
                ),
                RemoteResponse::SearchAlbumsPage(r) => search_resume_post(
                    n0, a0, n1, a1, reqs, tracks, artists, Option::Some(r), playlists,
                ),
                RemoteResponse::SearchPlaylistsPage(r) => search_resume_post(
                    n0, a0, n1, a1, reqs, tracks, artists, albums, Option::Some(r),
                ),
                _ => false,
            }
        },
        Phase::AwaitStartAck { after } => (resp matches RemoteResponse::Ack(r) && {
            match r {
                Result::Ok(_) => {
                    &&& reqs == seq![RemoteRequest::CurrentPlayback]
                    &&& n1 == (Network {
                        phase: Phase::AwaitPlayback { reset_progress: true, after },
                        ..n0
                    })
                    &&& a1 == a0
                },
                Result::Err(e) => {
                    &&& reqs.len() == 0
                    &&& n1 == (Network { phase: Phase::Idle, ..n0 })
                    &&& (match after {
                        AfterPlayback::Nothing => a1 == app_done_err(
                            a0,
                            StateError::Remote(e.message),
                        ),
                        AfterPlayback::RecsFinal { tracks } => {
                            &&& a1.navigation_stack@ == push_route_spec(
                                a0.navigation_stack@,
                                Route {
                                    id: RouteId::Recommendations,
                                    active_block: ActiveBlock::TrackTable,
                                },
                            )
                            &&& a1 == (AppState {
                                api_error: Option::Some(StateError::Remote(e.message)),
                                navigation_stack: a1.navigation_stack,
                                recommended_tracks: tracks,
                                track_table: TrackTable {
                                    context: Option::Some(TrackTableContext::RecommendedTracks),
                                    ..a0.track_table
                                },
                                is_loading: false,
                                ..a0
                            })
                        },
                    })
                },
            }
        }),
        Phase::AwaitTransportRefreshAck => (resp matches RemoteResponse::Ack(r) && {
            match r {
                Result::Ok(_) => {
                    &&& reqs == seq![RemoteRequest::CurrentPlayback]
                    &&& n1 == (Network {
                        phase: Phase::AwaitPlayback {
                            reset_progress: false,
                            after: AfterPlayback::Nothing,
                        },
                        ..n0
                    })
                    &&& a1 == a0
                },
                Result::Err(e) => {
                    &&& reqs.len() == 0
                    &&& n1 == (Network { phase: Phase::Idle, ..n0 })
                    &&& a1 == app_done_err(a0, StateError::Remote(e.message))
                },
            }
        }),
        Phase::AwaitShuffleAck { target } => (resp matches RemoteResponse::Ack(r) && {
            &&& reqs.len() == 0
            &&& n1 == (Network { phase: Phase::Idle, ..n0 })
            &&& (match r {
                Result::Ok(_) => a1 == (AppState {
                    current_playback_context: match a0.current_playback_context {
                        Option::Some(c) => Option::Some(
                            PlaybackContext { shuffle_state: target, ..c },
                        ),
                        Option::None => Option::None,
                    },
                    is_loading: false,
                    ..a0
                }),
                Result::Err(e) => a1 == app_done_err(a0, StateError::Remote(e.message)),
            })
        }),
        Phase::AwaitRepeatAck { mode } => (resp matches RemoteResponse::Ack(r) && {
            &&& reqs.len() == 0
            &&& n1 == (Network { phase: Phase::Idle, ..n0 })
            &&& (match r {
                Result::Ok(_) => a1 == (AppState {
                    current_playback_context: match a0.current_playback_context {
                        Option::Some(c) => Option::Some(
                            PlaybackContext { repeat_state: mode, ..c },
                        ),
                        Option::None => Option::None,
                    },
                    is_loading: false,
                    ..a0
                }),
                Result::Err(e) => a1 == app_done_err(a0, StateError::Remote(e.message)),
            })
        }),
        Phase::AwaitVolumeAck { volume_percent } => (resp matches RemoteResponse::Ack(r) && {
            &&& reqs.len() == 0
            &&& n1 == (Network { phase: Phase::Idle, ..n0 })
            &&& (match r {
                Result::Ok(_) => a1 == (AppState {
                    current_playback_context: match a0.current_playback_context {
                        Option::Some(c) => Option::Some(
                            PlaybackContext {
                                device: Device {
                                    volume_percent: volume_percent as u32,
                                    ..c.device
                                },
                                ..c
                            },
                        ),
                        Option::None => Option::None,
                    },
                    is_loading: false,
                    ..a0
                }),
                Result::Err(e) => a1 == app_done_err(a0, StateError::Remote(e.message)),
            })
        }),
        Phase::AwaitArtistName { artist_id, country } => (resp
            matches RemoteResponse::ArtistProfileInfo(r) && {
            &&& reqs == seq![
                RemoteRequest::ArtistAlbums {
                    artist_id: artist_id,
                    country: country,
                    limit: n0.large_search_limit,
                    offset: 0,
                },
                RemoteRequest::ArtistTopTracks { artist_id: artist_id, country: country },
                RemoteRequest::RelatedArtists { artist_id: artist_id },
            ]
            &&& (n1.phase matches Phase::AwaitArtistJoin {
                artist_name,
                albums: Option::None,
                top_tracks: Option::None,
                related: Option::None,
            } && artist_name@ == (match r {
                Result::Ok(profile) => profile.name@,
                Result::Err(_) => Seq::<char>::empty(),
            }))
            &&& n1 == (Network { phase: n1.phase, ..n0 })
            &&& a1 == a0
        }),
        Phase::AwaitArtistJoin { artist_name, albums, top_tracks, related } => {
            match resp {
                RemoteResponse::ArtistAlbumsPage(r) => artist_resume_post(
                    n0, a0, n1, a1, reqs, artist_name, Option::Some(r), top_tracks, related,
                ),
                RemoteResponse::TopTracks(r) => artist_resume_post(
                    n0, a0, n1, a1, reqs, artist_name, albums, Option::Some(r), related,
                ),
                RemoteResponse::Related(r) => artist_resume_post(
                    n0, a0, n1, a1, reqs, artist_name, albums, top_tracks, Option::Some(r),
                ),
                _ => false,
            }
        },
        Phase::AwaitAlbumTracksPage { album } => (resp matches RemoteResponse::AlbumTracksPage(r)
            && {
            match r {
                Result::Ok(page) => {
                    &&& reqs.len() == 1
                    &&& (reqs[0] matches RemoteRequest::SavedTracksContains { ids }
                        && ids@ == track_ids_vals(page.items@))
                    &&& (n1.phase matches Phase::AwaitContains { ids, then }
                        && ids@ == track_ids_vals(page.items@)
                        && then == (AfterContains::WriteAlbum { album, tracks_page: page }))
                    &&& n1 == (Network { phase: n1.phase, ..n0 })
                    &&& a1 == a0
                },
                Result::Err(e) => {
                    &&& reqs.len() == 0
                    &&& n1 == (Network { phase: Phase::Idle, ..n0 })
                    &&& a1 == app_done_err(a0, StateError::Remote(e.message))
                },
            }
        }),
        Phase::AwaitRecs { first_track } => (resp matches RemoteResponse::RecommendedUris(r) && {
            match r {
                Result::Ok(uris) => {
                    &&& reqs == seq![RemoteRequest::TracksInfo { uris }]
                    &&& n1 == (Network { phase: Phase::AwaitRecTracks { first_track }, ..n0 })
                    &&& a1 == a0
                },
                Result::Err(e) => {
                    &&& reqs.len() == 0
                    &&& n1 == (Network { phase: Phase::Idle, ..n0 })
                    &&& a1 == app_done_err(a0, StateError::Remote(e.message))
                },
            }
        }),
        Phase::AwaitRecTracks { first_track } => (resp matches RemoteResponse::TracksList(r) && {
            match r {
                Result::Ok(tracks0) => {
                    let full = match first_track {
                        Option::Some(t) => tracks0@.insert(0, t),
                        Option::None => tracks0@,
                    };
                    &&& reqs.len() == 1
                    &&& (reqs[0] matches RemoteRequest::SavedTracksContains { ids }
                        && ids@ == track_ids_vals(full))
                    &&& (n1.phase matches Phase::AwaitContains { ids, then }
                        && ids@ == track_ids_vals(full)
                        && (then matches AfterContains::SetTracks { tracks, after }
                            && tracks@ == full
                            && (after matches AfterTracks::StartRecsPlayback { uris, rec_tracks }
                                && uris@ == track_uris_vals(full)
                                && rec_tracks@ == full)))
                    &&& n1 == (Network { phase: n1.phase, ..n0 })
                    &&& a1 == a0
                },
                Result::Err(e) => {
                    &&& reqs.len() == 0
                    &&& n1 == (Network { phase: Phase::Idle, ..n0 })
                    &&& a1 == app_done_err(a0, StateError::Remote(e.message))
                },
            }
        }),
        Phase::AwaitTrackForRec { country } => (resp matches RemoteResponse::TrackObject(r) && {
            match r {
                Result::Ok(track) => {
                    &&& reqs.len() == 1
                    &&& (reqs[0] matches RemoteRequest::Recommendations {
                        seed_artists,
                        seed_tracks,
                        limit,
                        country: c,
                    } && seed_artists is None && limit == n0.large_search_limit && c == country
                        && (match track.id {
                        Option::Some(id) => seed_tracks matches Option::Some(v) && v@ == seq![id],
                        Option::None => seed_tracks is None,
                    }))
                    &&& n1 == (Network {
                        phase: Phase::AwaitRecs { first_track: Option::Some(track) },
                        ..n0
                    })
                    &&& a1 == a0
                },
                Result::Err(e) => {
                    &&& reqs.len() == 0
                    &&& n1 == (Network { phase: Phase::Idle, ..n0 })
                    &&& a1 == app_done_err(a0, StateError::Remote(e.message))
                },
            }
        }),
        Phase::AwaitToggleContains { track_id } => (resp matches RemoteResponse::Contains(r) && {
            match r {
                Result::Ok(flags) => {
                    let saved = flags@.len() > 0 && flags@[0];
                    &&& reqs.len() == 1
                    &&& (if saved {
                        reqs[0] matches RemoteRequest::SavedTracksDelete { ids }
                            && ids@ == seq![track_id]
                    } else {
                        reqs[0] matches RemoteRequest::SavedTracksAdd { ids }
                            && ids@ == seq![track_id]
                    })
                    &&& n1 == (Network {
                        phase: Phase::AwaitToggleAck { track_id, deleting: saved },
                        ..n0
                    })
                    &&& a1 == a0
                },
                Result::Err(e) => {
                    &&& reqs.len() == 0
                    &&& n1 == (Network { phase: Phase::Idle, ..n0 })
                    &&& a1 == app_done_err(a0, StateError::Remote(e.message))
                },
            }
        }),
        Phase::AwaitToggleAck { track_id, deleting } => (resp matches RemoteResponse::Ack(r) && {
            &&& reqs.len() == 0
            &&& n1 == (Network { phase: Phase::Idle, ..n0 })
            &&& (match r {
                Result::Ok(_) => {
                    &&& a1.liked_song_ids_set@ == (if deleting {
                        a0.liked_song_ids_set@.remove(track_id@)
                    } else {
                        a0.liked_song_ids_set@.insert(track_id@)
                    })
                    &&& a1 == (AppState {
                        liked_song_ids_set: a1.liked_song_ids_set,
                        is_loading: false,
                        ..a0
                    })
                },
                Result::Err(e) => a1 == app_done_err(a0, StateError::Remote(e.message)),
            })
        }),
        Phase::AwaitFollowedArtists => (resp matches RemoteResponse::ArtistsPage(r) && {
            &&& reqs.len() == 0
            &&& n1 == (Network { phase: Phase::Idle, ..n0 })
            &&& (match r {
                Result::Ok(page) => {
                    &&& a1.artists@ == page.items@
                    &&& a1.library.saved_artists.pages@ == a0.library.saved_artists.pages@.push(
                        page,
                    )
                    &&& a1.library.saved_artists.index == a0.library.saved_artists.pages@.len()
                    &&& a1 == (AppState {
                        artists: a1.artists,
                        library: Library { saved_artists: a1.library.saved_artists, ..a0.library },
                        is_loading: false,
                        ..a0
                    })
                },
                Result::Err(e) => a1 == app_done_err(a0, StateError::Remote(e.message)),
            })
        }),
        Phase::AwaitSavedAlbumsPage => (resp matches RemoteResponse::AlbumsPage(r) && {
            &&& reqs.len() == 0
            &&& n1 == (Network { phase: Phase::Idle, ..n0 })
            &&& (match r {
                Result::Ok(page) => {
                    if page.items@.len() > 0 {
                        &&& a1.library.saved_albums.pages@ == a0.library.saved_albums.pages@.push(
                            page,
                        )
                        &&& a1.library.saved_albums.index == a0.library.saved_albums.pages@.len()
                        &&& a1 == (AppState {
                            library: Library {
                                saved_albums: a1.library.saved_albums,
                                ..a0.library
                            },
                            is_loading: false,
                            ..a0
                        })
                    } else {
                        a1 == app_done(a0)
                    }
                },
                Result::Err(e) => a1 == app_done_err(a0, StateError::Remote(e.message)),
            })
        }),
        Phase::AwaitSavedAlbumDeleteAck => (resp matches RemoteResponse::Ack(r) && {
            match r {
                Result::Ok(_) => {
                    &&& reqs == seq![
                        RemoteRequest::SavedAlbums {
                            limit: n0.large_search_limit,
                            offset: Option::None,
                        },
                    ]
                    &&& n1 == (Network { phase: Phase::AwaitSavedAlbumsPage, ..n0 })
                    &&& a1 == a0
                },
                Result::Err(e) => {
                    &&& reqs.len() == 0
                    &&& n1 == (Network { phase: Phase::Idle, ..n0 })
                    &&& a1 == app_done_err(a0, StateError::Remote(e.message))
                },
            }
        }),
        Phase::AwaitSavedAlbumAddAck => (resp matches RemoteResponse::Ack(r) && {
            &&& reqs.len() == 0
            &&& n1 == (Network { phase: Phase::Idle, ..n0 })
            &&& (match r {
                Result::Ok(_) => a1 == app_done(a0),
                Result::Err(e) => a1 == app_done_err(a0, StateError::Remote(e.message)),
            })
        }),
        Phase::AwaitFollowArtistsRefreshAck => (resp matches RemoteResponse::Ack(r) && {
            match r {
                Result::Ok(_) => {
                    &&& reqs == seq![
                        RemoteRequest::FollowedArtists {
                            limit: n0.large_search_limit,
                            after: Option::None,
                        },
                    ]
                    &&& n1 == (Network { phase: Phase::AwaitFollowedArtists, ..n0 })
                    &&& a1 == a0
                },
                Result::Err(e) => {
                    &&& reqs.len() == 0
                    &&& n1 == (Network { phase: Phase::Idle, ..n0 })
                    &&& a1 == app_done_err(a0, StateError::Remote(e.message))
                },
            }
        }),
        Phase::AwaitPlaylistFollowRefreshAck => (resp matches RemoteResponse::Ack(r) && {
            match r {
                Result::Ok(_) => {
                    &&& reqs == seq![
                        RemoteRequest::CurrentUserPlaylists { limit: n0.large_search_limit },
                    ]
                    &&& n1 == (Network { phase: Phase::AwaitPlaylistsPage, ..n0 })
                    &&& a1 == a0
                },
                Result::Err(e) => {
                    &&& reqs.len() == 0
                    &&& n1 == (Network { phase: Phase::Idle, ..n0 })
                    &&& a1 == app_done_err(a0, StateError::Remote(e.message))
                },
            }
        }),
        Phase::AwaitPlaylistsPage => (resp matches RemoteResponse::PlaylistsPage(r) && {
            &&& reqs.len() == 0
            &&& n1 == (Network { phase: Phase::Idle, ..n0 })
            &&& (match r {
                Result::Ok(page) => a1 == (AppState {
                    playlists: Option::Some(page),
                    selected_playlist_index: Option::Some(0usize),
                    is_loading: false,
                    ..a0
                }),
                Result::Err(e) => a1 == app_done_err(a0, StateError::Remote(e.message)),
            })
        }),
        Phase::AwaitMadeForYouSearchPage { search_string } => (resp
            matches RemoteResponse::SearchPlaylistsPage(r) && {
            &&& reqs.len() == 0
            &&& n1 == (Network { phase: Phase::Idle, ..n0 })
            &&& (match r {
                Result::Ok(page) => {
                    let filtered = mfy_filter(page.items@, search_string);
                    let k = a0.library.made_for_you_playlists.index as int;
                    if a0.library.made_for_you_playlists.pages@.len() > 0 {
                        &&& a1.library.made_for_you_playlists.index
                            == a0.library.made_for_you_playlists.index
                        &&& a1.library.made_for_you_playlists.pages@.len()
                            == a0.library.made_for_you_playlists.pages@.len()
                        &&& a1.library.made_for_you_playlists.pages@[k].items@
                            == a0.library.made_for_you_playlists.pages@[k].items@ + filtered
                        &&& a1.library.made_for_you_playlists.pages@[k] == (Page {
                            items: a1.library.made_for_you_playlists.pages@[k].items,
                            ..a0.library.made_for_you_playlists.pages@[k]
                        })
                        &&& (forall|j: int|
                            0 <= j < a0.library.made_for_you_playlists.pages@.len() && j != k
                                ==> a1.library.made_for_you_playlists.pages@[j]
                                == a0.library.made_for_you_playlists.pages@[j])
                        &&& a1 == (AppState {
                            library: Library {
                                made_for_you_playlists: a1.library.made_for_you_playlists,
                                ..a0.library
                            },
                            is_loading: false,
                            ..a0
                        })
                    } else {
                        &&& a1.library.made_for_you_playlists.pages@.len() == 1
                        &&& a1.library.made_for_you_playlists.pages@[0].items@ == filtered
                        &&& a1.library.made_for_you_playlists.pages@[0] == (Page {
                            items: a1.library.made_for_you_playlists.pages@[0].items,
                            ..page
                        })
                        &&& a1.library.made_for_you_playlists.index == 0
                        &&& a1 == (AppState {
                            library: Library {
                                made_for_you_playlists: a1.library.made_for_you_playlists,
                                ..a0.library
                            },
                            is_loading: false,
                            ..a0
                        })
                    }
                },
                Result::Err(e) => a1 == app_done_err(a0, StateError::Remote(e.message)),
            })
        }),
        Phase::AwaitAnalysis => (resp matches RemoteResponse::Analysis(r) && {
            &&& reqs.len() == 0
            &&& n1 == (Network { phase: Phase::Idle, ..n0 })
            &&& (match r {
                Result::Ok(analysis) => {
                    &&& a1.navigation_stack@ == push_route_spec(
                        a0.navigation_stack@,
                        Route { id: RouteId::Analysis, active_block: ActiveBlock::Analysis },
                    )
                    &&& a1 == (AppState {
                        audio_analysis: Option::Some(analysis),
                        navigation_stack: a1.navigation_stack,
                        is_loading: false,
                        ..a0
                    })
                },
                Result::Err(e) => a1 == app_done_err(a0, StateError::Remote(e.message)),
            })
        }),
        Phase::AwaitRecentlyPlayedPage => (resp matches RemoteResponse::RecentPage(r) && {
            match r {
                Result::Ok(page) => {
                    &&& reqs.len() == 1
                    &&& (reqs[0] matches RemoteRequest::SavedTracksContains { ids }
                        && ids@ == track_ids_vals(page.items@))
                    &&& (n1.phase matches Phase::AwaitContains { ids, then }
                        && ids@ == track_ids_vals(page.items@)
                        && then == (AfterContains::WriteRecentlyPlayed { page }))
                    &&& n1 == (Network { phase: n1.phase, ..n0 })
                    &&& a1 == a0
                },
                Result::Err(e) => {
                    &&& reqs.len() == 0
                    &&& n1 == (Network { phase: Phase::Idle, ..n0 })
                    &&& a1 == app_done_err(a0, StateError::Remote(e.message))
                },
            }
        }),
        Phase::AwaitFullAlbum => (resp matches RemoteResponse::FullAlbumInfo(r) && {
            &&& reqs.len() == 0
            &&& n1 == (Network { phase: Phase::Idle, ..n0 })
            &&& (match r {
                Result::Ok(album) => {
                    &&& a1.navigation_stack@ == push_route_spec(
                        a0.navigation_stack@,
                        Route { id: RouteId::AlbumTracks, active_block: ActiveBlock::AlbumTracks },
                    )
                    &&& a1 == (AppState {
                        selected_album_full: Option::Some(
                            SelectedFullAlbum { album, selected_index: 0 },
                        ),
                        album_table_context: AlbumTableContext::Full,
                        navigation_stack: a1.navigation_stack,
                        is_loading: false,
                        ..a0
                    })
                },
                Result::Err(e) => a1 == app_done_err(a0, StateError::Remote(e.message)),
            })
        }),
        Phase::AwaitConfigWrite { device_id } => (resp matches RemoteResponse::ConfigAck(r) && {
            &&& reqs.len() == 0
            &&& (match r {
                Result::Ok(_) => {
                    &&& n1 == (Network {
                        phase: Phase::Idle,
                        client_config: ClientConfig { device_id: Option::Some(device_id) },
                        ..n0
                    })
                    &&& a1.navigation_stack@ == (if a0.navigation_stack@.len() > 1 {
                        a0.navigation_stack@.drop_last()
                    } else {
                        a0.navigation_stack@
                    })
                    &&& a1 == (AppState {
                        navigation_stack: a1.navigation_stack,
                        is_loading: false,
                        ..a0
                    })
                },
                Result::Err(e) => {
                    &&& n1 == (Network { phase: Phase::Idle, ..n0 })
                    &&& a1 == app_done_err(a0, StateError::Config(e.message))
                },
            })
        }),
    }
}

/// What one playback-refresh answer does: a snapshot with an identified
/// track chains into a liked-membership check before being written; a
/// snapshot without one is written at once; an absent snapshot leaves only
/// the pending progress reset and recommendations finish, and a failed poll
/// additionally records the failure on the single error path.
pub open spec fn playback_resp_post(
    n0: Network,
    a0: AppState,
    n1: Network,
    a1: AppState,
    reqs: Seq<RemoteRequest>,
    reset_progress: bool,
    after: AfterPlayback,
    r: Result<Option<PlaybackContext>, RemoteError>,
    now_ms: u64,
) -> bool {
    match r {
        Result::Ok(Option::Some(ctx)) => {
            let pids = playback_check_ids(ctx);
            if pids.len() > 0 {
                &&& reqs.len() == 1
                &&& (reqs[0] matches RemoteRequest::SavedTracksContains { ids } && ids@ == pids)
                &&& (n1.phase matches Phase::AwaitContains { ids, then }
                    && ids@ == pids
                    && then == (AfterContains::WritePlayback { ctx, reset_progress, after }))
                &&& n1 == (Network { phase: n1.phase, ..n0 })
                &&& a1 == a0
            } else {
                &&& reqs.len() == 0
                &&& n1 == (Network { phase: Phase::Idle, ..n0 })
                &&& playback_write_post(a0, a1, ctx, reset_progress, after, now_ms)
            }
        },
        Result::Ok(Option::None) => {
            &&& reqs.len() == 0
            &&& n1 == (Network { phase: Phase::Idle, ..n0 })
            &&& after_play_skip_post(a0, a1, reset_progress, after, a0.api_error)
        },
        Result::Err(e) => {
            &&& reqs.len() == 0
            &&& n1 == (Network { phase: Phase::Idle, ..n0 })
            &&& after_play_skip_post(
                a0,
                a1,
                reset_progress,
                after,
                Option::Some(StateError::Remote(e.message)),
            )
        },
    }
}

/// The state writes of a completed playback refresh: the snapshot and the
/// poll instant are recorded, the progress counter is reset when a playback
/// start triggered the refresh, and the recommendations flow finishes if it
/// is the caller.
pub open spec fn playback_write_post(
    a0: AppState,
    a1: AppState,
    ctx: PlaybackContext,
    reset_progress: bool,
    after: AfterPlayback,
    now_ms: u64,
) -> bool {
    match after {
        AfterPlayback::Nothing => a1 == (AppState {
            current_playback_context: Option::Some(ctx),
            last_playback_poll_ms: now_ms,
            song_progress_ms: if reset_progress {
                0
            } else {
                a0.song_progress_ms
            },
            is_loading: false,
            ..a0
        }),
        AfterPlayback::RecsFinal { tracks } => {
            &&& a1.navigation_stack@ == push_route_spec(
                a0.navigation_stack@,
                Route { id: RouteId::Recommendations, active_block: ActiveBlock::TrackTable },
            )
            &&& a1 == (AppState {
                current_playback_context: Option::Some(ctx),
                last_playback_poll_ms: now_ms,
                song_progress_ms: if reset_progress {
                    0
                } else {
                    a0.song_progress_ms
                },
                navigation_stack: a1.navigation_stack,
                recommended_tracks: tracks,
                track_table: TrackTable {
                    context: Option::Some(TrackTableContext::RecommendedTracks),
                    ..a0.track_table
                },
                is_loading: false,
                ..a0
            })
        },
    }
}

/// The state writes when a playback refresh wrote no snapshot: only the
/// failure record (`err1` is the recorded value afterwards), the progress
/// reset and the pending recommendations finish apply.
pub open spec fn after_play_skip_post(
    a0: AppState,
    a1: AppState,
    reset_progress: bool,
    after: AfterPlayback,
    err1: Option<StateError>,
) -> bool {
    match after {
        AfterPlayback::Nothing => a1 == (AppState {
            api_error: err1,
            song_progress_ms: if reset_progress {
                0
            } else {
                a0.song_progress_ms
            },
            is_loading: false,
            ..a0
        }),
        AfterPlayback::RecsFinal { tracks } => {
            &&& a1.navigation_stack@ == push_route_spec(
                a0.navigation_stack@,
                Route { id: RouteId::Recommendations, active_block: ActiveBlock::TrackTable },
            )
            &&& a1 == (AppState {
                api_error: err1,
                song_progress_ms: if reset_progress {
                    0
                } else {
                    a0.song_progress_ms
                },
                navigation_stack: a1.navigation_stack,
                recommended_tracks: tracks,
                track_table: TrackTable {
                    context: Option::Some(TrackTableContext::RecommendedTracks),
                    ..a0.track_table
                },
                is_loading: false,
                ..a0
            })
        },
    }
}

/// What handling a liked-membership answer does: the merge (or its failure
/// record) followed by whatever the pending continuation still writes.
pub open spec fn contains_step_post(
    n0: Network,
    a0: AppState,
    n1: Network,
    a1: AppState,
    reqs: Seq<RemoteRequest>,
    ids: Vec<String>,
    then: AfterContains,
    r: Result<Vec<bool>, RemoteError>,
    now_ms: u64,
) -> bool {
    let liked1 = liked_after_contains(a0.liked_song_ids_set@, ids@, r);
    let err1 = contains_err_or(a0.api_error, r);
    match then {
        AfterContains::SetTracks { tracks, after } => {
            match after {
                AfterTracks::Nothing => {
                    &&& reqs.len() == 0
                    &&& n1 == (Network { phase: Phase::Idle, ..n0 })
                    &&& a1.liked_song_ids_set@ == liked1
                    &&& a1 == (AppState {
                        liked_song_ids_set: a1.liked_song_ids_set,
                        api_error: err1,
                        track_table: TrackTable { tracks: tracks, ..a0.track_table },
                        is_loading: false,
                        ..a0
                    })
                },
                AfterTracks::WritePlaylist { page } => {
                    &&& reqs.len() == 0
                    &&& n1 == (Network { phase: Phase::Idle, ..n0 })
                    &&& a1.liked_song_ids_set@ == liked1
                    &&& a1.navigation_stack@ == push_route_spec(
                        a0.navigation_stack@,
                        Route { id: RouteId::TrackTable, active_block: ActiveBlock::TrackTable },
                    )
                    &&& a1 == (AppState {
                        liked_song_ids_set: a1.liked_song_ids_set,
                        api_error: err1,
                        track_table: TrackTable { tracks: tracks, ..a0.track_table },
                        playlist_tracks: Option::Some(page),
                        navigation_stack: a1.navigation_stack,
                        is_loading: false,
                        ..a0
                    })
                },
                AfterTracks::WriteMadeForYou { page } => {
                    &&& reqs.len() == 0
                    &&& n1 == (Network { phase: Phase::Idle, ..n0 })
                    &&& a1.liked_song_ids_set@ == liked1
                    &&& a1.navigation_stack@ == push_route_spec(
                        a0.navigation_stack@,
                        Route { id: RouteId::TrackTable, active_block: ActiveBlock::TrackTable },
                    )
                    &&& a1 == (AppState {
                        liked_song_ids_set: a1.liked_song_ids_set,
                        api_error: err1,
                        track_table: TrackTable { tracks: tracks, ..a0.track_table },
                        made_for_you_tracks: Option::Some(page),
                        navigation_stack: a1.navigation_stack,
                        is_loading: false,
                        ..a0
                    })
                },
                AfterTracks::WriteSearch { tracks: tp, artists, albums, playlists } => {
                    &&& reqs.len() == 0
                    &&& n1 == (Network { phase: Phase::Idle, ..n0 })
                    &&& a1.liked_song_ids_set@ == liked1
                    &&& a1 == (AppState {
                        liked_song_ids_set: a1.liked_song_ids_set,
                        api_error: err1,
                        track_table: TrackTable { tracks: tracks, ..a0.track_table },
                        search_results: SearchResults {
                            tracks: Option::Some(tp),
                            artists: Option::Some(artists),
                            albums: Option::Some(albums),
                            playlists: Option::Some(playlists),
                        },
                        is_loading: false,
                        ..a0
                    })
                },
                AfterTracks::StartRecsPlayback { uris, rec_tracks } => {
                    match n0.client_config.device_id {
                        Option::Some(d) => {
                            &&& reqs == seq![
                                RemoteRequest::StartPlayback {
                                    device_id: d,
                                    context_uri: Option::None,
                                    uris: Option::Some(uris),
                                    offset: Option::Some(0u32),
                                },
                            ]
                            &&& n1 == (Network {
                                phase: Phase::AwaitStartAck {
                                    after: AfterPlayback::RecsFinal { tracks: rec_tracks },
                                },
                                ..n0
                            })
                            &&& a1.liked_song_ids_set@ == liked1
                            &&& a1 == (AppState {
                                liked_song_ids_set: a1.liked_song_ids_set,
                                api_error: err1,
                                track_table: TrackTable { tracks: tracks, ..a0.track_table },
                                ..a0
                            })
                        },
                        Option::None => {
                            &&& reqs.len() == 0
                            &&& n1 == (Network { phase: Phase::Idle, ..n0 })
                            &&& a1.liked_song_ids_set@ == liked1
                            &&& a1.navigation_stack@ == push_route_spec(
                                a0.navigation_stack@,
                                Route {
                                    id: RouteId::Recommendations,
                                    active_block: ActiveBlock::TrackTable,
                                },
                            )
                            &&& a1 == (AppState {
                                liked_song_ids_set: a1.liked_song_ids_set,
                                api_error: Option::Some(StateError::NoSelectedDevice),
                                track_table: TrackTable {
                                    tracks: tracks,
                                    context: Option::Some(TrackTableContext::RecommendedTracks),
                                },
                                navigation_stack: a1.navigation_stack,
                                recommended_tracks: rec_tracks,
                                is_loading: false,
                                ..a0
                            })
                        },
                    }
                },
            }
        },
        AfterContains::WritePlayback { ctx, reset_progress, after } => {
            &&& reqs.len() == 0
            &&& n1 == (Network { phase: Phase::Idle, ..n0 })
            &&& a1.liked_song_ids_set@ == liked1
            &&& (match after {
                AfterPlayback::Nothing => a1 == (AppState {
                    liked_song_ids_set: a1.liked_song_ids_set,
                    api_error: err1,
                    current_playback_context: Option::Some(ctx),
                    last_playback_poll_ms: now_ms,
                    song_progress_ms: if reset_progress {
                        0
                    } else {
                        a0.song_progress_ms
                    },
                    is_loading: false,
                    ..a0
                }),
                AfterPlayback::RecsFinal { tracks } => {
                    &&& a1.navigation_stack@ == push_route_spec(
                        a0.navigation_stack@,
                        Route {
                            id: RouteId::Recommendations,
                            active_block: ActiveBlock::TrackTable,
                        },
                    )
                    &&& a1 == (AppState {
                        liked_song_ids_set: a1.liked_song_ids_set,
                        api_error: err1,
                        current_playback_context: Option::Some(ctx),
                        last_playback_poll_ms: now_ms,
                        song_progress_ms: if reset_progress {
                            0
                        } else {
                            a0.song_progress_ms
                        },
                        navigation_stack: a1.navigation_stack,
                        recommended_tracks: tracks,
                        track_table: TrackTable {
                            context: Option::Some(TrackTableContext::RecommendedTracks),
                            ..a0.track_table
                        },
                        is_loading: false,
                        ..a0
                    })
                },
            })
        },
        AfterContains::WriteAlbum { album, tracks_page } => {
            &&& reqs.len() == 0
            &&& n1 == (Network { phase: Phase::Idle, ..n0 })
            &&& a1.liked_song_ids_set@ == liked1
            &&& a1.navigation_stack@ == push_route_spec(
                a0.navigation_stack@,
                Route { id: RouteId::AlbumTracks, active_block: ActiveBlock::AlbumTracks },
            )
            &&& a1 == (AppState {
                liked_song_ids_set: a1.liked_song_ids_set,
                api_error: err1,
                selected_album_simplified: Option::Some(
                    SelectedAlbum { album, tracks: tracks_page, selected_index: 0 },
                ),
                album_table_context: AlbumTableContext::Simplified,
                navigation_stack: a1.navigation_stack,
                is_loading: false,
                ..a0
            })
        },
        AfterContains::WriteRecentlyPlayed { page } => {
            &&& reqs.len() == 0
            &&& n1 == (Network { phase: Phase::Idle, ..n0 })
            &&& a1.liked_song_ids_set@ == liked1
            &&& a1.navigation_stack@ == push_route_spec(
                a0.navigation_stack@,
                Route { id: RouteId::RecentlyPlayed, active_block: ActiveBlock::RecentlyPlayed },
            )
            &&& a1 == (AppState {
                liked_song_ids_set: a1.liked_song_ids_set,
                api_error: err1,
                recently_played: Option::Some(page),
                navigation_stack: a1.navigation_stack,
                is_loading: false,
                ..a0
            })
        },
    }
}

impl Network {
    /// Receives one command and issues the remote requests it needs. The
    /// caller performs them and feeds each result to
    /// [`Network::handle_response`], in order; a command that needs none
    /// completes here, with the loading flag cleared.
    #[verifier::rlimit(60)]
    pub fn handle_network_event(&mut self, io_event: IoEvent, app: &mut AppState) -> (reqs: Vec<
        RemoteRequest,
    >)
        requires
            old(self).phase is Idle,
            old(app).wf(),
        ensures
            final(app).wf(),
            req_tags(reqs@) == awaited(final(self).phase),
            (final(self).phase is Idle) <==> (awaited(final(self).phase).len() == 0),
            final(self).phase is Idle ==> !final(app).is_loading,
            start_post(*old(self), *old(app), *final(self), *final(app), reqs@, io_event),
    {
        proof {
            reveal(crate::network::start_post);
        }
        match io_event {
            IoEvent::GetCurrentPlayback => {
                self.phase = Phase::AwaitPlayback {
                    reset_progress: false,
                    after: AfterPlayback::Nothing,
                };
                one_req(RemoteRequest::CurrentPlayback)
            },
            IoEvent::RefreshAuthentication => {
                self.phase = Phase::AwaitToken;
                one_req(RemoteRequest::RefreshToken)
            },
            IoEvent::GetPlaylists => {
                self.phase = Phase::AwaitPlaylistsPage;
                one_req(RemoteRequest::CurrentUserPlaylists { limit: self.large_search_limit })
            },
            IoEvent::GetDevices => {
                self.phase = Phase::AwaitDevices;
                one_req(RemoteRequest::GetDevices)
            },
            IoEvent::GetSearchResults(term, country) => {
                let reqs = four_reqs(
                    RemoteRequest::SearchTracks {
                        query: term.clone(),
                        limit: self.small_search_limit,
                        offset: 0,
                        country: clone_opt_string(&country),
                    },
                    RemoteRequest::SearchArtists {
                        query: term.clone(),
                        limit: self.small_search_limit,
                        offset: 0,
                        country: clone_opt_string(&country),
                    },
                    RemoteRequest::SearchAlbums {
                        query: term.clone(),
                        limit: self.small_search_limit,
                        offset: 0,
                        country: clone_opt_string(&country),
                    },
                    RemoteRequest::SearchPlaylists {
                        query: term,
                        limit: self.small_search_limit,
                        offset: 0,
                        country: country,
                    },
                );
                self.phase = Phase::AwaitSearch {
                    tracks: Option::None,
                    artists: Option::None,
                    albums: Option::None,
                    playlists: Option::None,
                };
                reqs
            },
            IoEvent::SetTracksToTable(tracks) => {
                let ids = track_id_list(&tracks);
                let reqs = one_req(RemoteRequest::SavedTracksContains {
                    ids: clone_strings(&ids),
                });
                self.phase = Phase::AwaitContains {
                    ids,
                    then: AfterContains::SetTracks { tracks, after: AfterTracks::Nothing },
                };
                reqs
            },
            IoEvent::GetMadeForYouPlaylistTracks(playlist_id, offset) => {
                self.phase = Phase::AwaitPlaylistPage { made_for_you: true };
                one_req(RemoteRequest::PlaylistTracks {
                    playlist_id,
                    limit: self.large_search_limit,
                    offset,
                })
            },
            IoEvent::GetPlaylistTracks(playlist_id, offset) => {
                self.phase = Phase::AwaitPlaylistPage { made_for_you: false };
                one_req(RemoteRequest::PlaylistTracks {
                    playlist_id,
                    limit: self.large_search_limit,
                    offset,
                })
            },
            IoEvent::GetCurrentSavedTracks(offset, should_navigate) => {
                self.phase = Phase::AwaitSavedTracksPage { should_navigate };
                one_req(RemoteRequest::SavedTracks { limit: self.large_search_limit, offset })
            },
            IoEvent::StartPlayback(context_uri, uris, offset) => {
                let (resolved_uris, resolved_context) = if context_uri.is_some() {
                    (Option::None, context_uri)
                } else {
                    (uris, Option::None)
                };
                match self.transport_device(app) {
                    Option::Some(device_id) => {
                        self.phase = Phase::AwaitStartAck { after: AfterPlayback::Nothing };
                        one_req(RemoteRequest::StartPlayback {
                            device_id,
                            context_uri: resolved_context,
                            uris: resolved_uris,
                            offset,
                        })
                    },
                    Option::None => Vec::new(),
                }
            },
            IoEvent::UpdateSearchLimits(large, small) => {
                self.large_search_limit = large;
                self.small_search_limit = small;
                app.is_loading = false;
                Vec::new()
            },
            IoEvent::Seek(position_ms) => {
                match self.transport_device(app) {
                    Option::Some(device_id) => {
                        self.phase = Phase::AwaitTransportRefreshAck;
                        one_req(RemoteRequest::SeekTrack { position_ms, device_id })
                    },
                    Option::None => Vec::new(),
                }
            },
            IoEvent::NextTrack => {
                match self.transport_device(app) {
                    Option::Some(device_id) => {
                        self.phase = Phase::AwaitTransportRefreshAck;
                        one_req(RemoteRequest::NextTrack { device_id })
                    },
                    Option::None => Vec::new(),
                }
            },
            IoEvent::PreviousTrack => {
                match self.transport_device(app) {
                    Option::Some(device_id) => {
                        self.phase = Phase::AwaitTransportRefreshAck;
                        one_req(RemoteRequest::PreviousTrack { device_id })
                    },
                    Option::None => Vec::new(),
                }
            },
            IoEvent::Shuffle(shuffle_state) => {
                match self.transport_device(app) {
                    Option::Some(device_id) => {
                        self.phase = Phase::AwaitShuffleAck { target: !shuffle_state };
                        one_req(RemoteRequest::SetShuffle { state: !shuffle_state, device_id })
                    },
                    Option::None => Vec::new(),
                }
            },
            IoEvent::Repeat(repeat_state) => {
                match self.transport_device(app) {
                    Option::Some(device_id) => {
                        let next = next_repeat_state(repeat_state);
                        self.phase = Phase::AwaitRepeatAck { mode: next };
                        one_req(RemoteRequest::SetRepeat { state: next, device_id })
                    },
                    Option::None => Vec::new(),
                }
            },
            IoEvent::PausePlayback => {
                match self.transport_device(app) {
                    Option::Some(device_id) => {
                        self.phase = Phase::AwaitTransportRefreshAck;
                        one_req(RemoteRequest::PausePlayback { device_id })
                    },
                    Option::None => Vec::new(),
                }
            },
            IoEvent::ChangeVolume(volume_percent) => {
                match self.transport_device(app) {
                    Option::Some(device_id) => {
                        self.phase = Phase::AwaitVolumeAck { volume_percent };
                        one_req(RemoteRequest::SetVolume { volume_percent, device_id })
                    },
                    Option::None => Vec::new(),
                }
            },
            IoEvent::GetArtist(artist_id, input_artist_name, country) => {
                if input_artist_name.as_str().is_empty() {
                    let reqs = one_req(RemoteRequest::ArtistProfile {
                        artist_id: artist_id.clone(),
                    });
                    self.phase = Phase::AwaitArtistName { artist_id, country };
                    reqs
                } else {
                    let reqs = three_reqs(
                        RemoteRequest::ArtistAlbums {
                            artist_id: artist_id.clone(),
                            country: clone_opt_string(&country),
                            limit: self.large_search_limit,
                            offset: 0,
                        },
                        RemoteRequest::ArtistTopTracks {
                            artist_id: artist_id.clone(),
                            country,
                        },
                        RemoteRequest::RelatedArtists { artist_id },
                    );
                    self.phase = Phase::AwaitArtistJoin {
                        artist_name: input_artist_name,
                        albums: Option::None,
                        top_tracks: Option::None,
                        related: Option::None,
                    };
                    reqs
                }
            },
            IoEvent::GetAlbumTracks(album) => {
                match &album.id {
                    Option::Some(album_id) => {
                        let reqs = one_req(RemoteRequest::AlbumTracks {
                            album_id: album_id.clone(),
                            limit: self.large_search_limit,
                            offset: 0,
                        });
                        self.phase = Phase::AwaitAlbumTracksPage { album };
                        reqs
                    },
                    Option::None => {
                        app.is_loading = false;
                        Vec::new()
                    },
                }
            },
            IoEvent::GetRecommendationsForSeed(seed_artists, seed_tracks, first_track, country) => {
                let reqs = one_req(RemoteRequest::Recommendations {
                    seed_artists,
                    seed_tracks,
                    limit: self.large_search_limit,
                    country,
                });
                self.phase = Phase::AwaitRecs { first_track };
                reqs
            },
            IoEvent::GetCurrentUserSavedAlbums(offset) => {
                self.phase = Phase::AwaitSavedAlbumsPage;
                one_req(RemoteRequest::SavedAlbums { limit: self.large_search_limit, offset })
            },
            IoEvent::CurrentUserSavedAlbumDelete(album_id) => {
                self.phase = Phase::AwaitSavedAlbumDeleteAck;
                one_req(RemoteRequest::SavedAlbumsDelete { ids: one_id(album_id) })
            },
            IoEvent::CurrentUserSavedAlbumAdd(album_id) => {
                self.phase = Phase::AwaitSavedAlbumAddAck;
                one_req(RemoteRequest::SavedAlbumsAdd { ids: one_id(album_id) })
            },
            IoEvent::UserUnfollowArtists(artist_ids) => {
                self.phase = Phase::AwaitFollowArtistsRefreshAck;
                one_req(RemoteRequest::UnfollowArtists { ids: artist_ids })
            },
            IoEvent::UserFollowArtists(artist_ids) => {
                self.phase = Phase::AwaitFollowArtistsRefreshAck;
                one_req(RemoteRequest::FollowArtists { ids: artist_ids })
            },
            IoEvent::UserFollowPlaylist(owner_id, playlist_id, public) => {
                self.phase = Phase::AwaitPlaylistFollowRefreshAck;
                one_req(RemoteRequest::FollowPlaylist { owner_id, playlist_id, public })
            },
            IoEvent::UserUnfollowPlaylist(user_id, playlist_id) => {
                self.phase = Phase::AwaitPlaylistFollowRefreshAck;
                one_req(RemoteRequest::UnfollowPlaylist { user_id, playlist_id })
            },
            IoEvent::MadeForYouSearchAndAdd(search_string, country) => {
                let reqs = one_req(RemoteRequest::SearchPlaylists {
                    query: search_string.clone(),
                    limit: self.large_search_limit,
                    offset: 0,
                    country,
                });
                self.phase = Phase::AwaitMadeForYouSearchPage { search_string };
                reqs
            },
            IoEvent::GetAudioAnalysis(uri) => {
                self.phase = Phase::AwaitAnalysis;
                one_req(RemoteRequest::AudioAnalysisFor { uri })
            },
            IoEvent::GetUser => {
                self.phase = Phase::AwaitUser;
                one_req(RemoteRequest::CurrentUser)
            },
            IoEvent::ToggleSaveTrack(track_id) => {
                let reqs = one_req(RemoteRequest::SavedTracksContains {
                    ids: one_id(track_id.clone()),
                });
                self.phase = Phase::AwaitToggleContains { track_id };
                reqs
            },
            IoEvent::GetRecommendationsForTrackId(track_id, country) => {
                let reqs = one_req(RemoteRequest::TrackInfo { track_id });
                self.phase = Phase::AwaitTrackForRec { country };
                reqs
            },
            IoEvent::GetRecentlyPlayed => {
                self.phase = Phase::AwaitRecentlyPlayedPage;
                one_req(RemoteRequest::RecentlyPlayed { limit: self.large_search_limit })
            },
            IoEvent::GetFollowedArtists(after) => {
                self.phase = Phase::AwaitFollowedArtists;
                one_req(RemoteRequest::FollowedArtists { limit: self.large_search_limit, after })
            },
            IoEvent::GetAlbum(album_id) => {
                self.phase = Phase::AwaitFullAlbum;
                one_req(RemoteRequest::AlbumInfo { album_id })
            },
            IoEvent::SetDeviceIdInConfig(device_id) => {
                let reqs = one_req(RemoteRequest::WriteDeviceConfig {
                    device_id: device_id.clone(),
                });
                self.phase = Phase::AwaitConfigWrite { device_id };
                reqs
            },
        }
    }

    /// Final writes of the recommendations flow: the resolved tracks become
    /// the recommended list, the table context switches, the view navigates.
    fn recs_final_writes(&self, app: &mut AppState, tracks: Vec<Track>)
        requires
            old(app).wf(),
        ensures
            final(app).wf(),
            final(app).navigation_stack@ == push_route_spec(
                old(app).navigation_stack@,
                Route { id: RouteId::Recommendations, active_block: ActiveBlock::TrackTable },
            ),
            *final(app) == (AppState {
                navigation_stack: final(app).navigation_stack,
                recommended_tracks: tracks,
                track_table: (TrackTable {
                    context: Option::Some(TrackTableContext::RecommendedTracks),
                    ..old(app).track_table
                }),
                ..*old(app)
            }),
    {
        app.recommended_tracks = tracks;
        app.track_table.context = Option::Some(TrackTableContext::RecommendedTracks);
        app.push_navigation_stack(RouteId::Recommendations, ActiveBlock::TrackTable);
    }

    /// Handles one playback-refresh answer, as [`playback_resp_post`]
    /// describes.
    fn step_playback(
        &mut self,
        app: &mut AppState,
        reset_progress: bool,
        after: AfterPlayback,
        r: Result<Option<PlaybackContext>, RemoteError>,
        now_ms: u64,
    ) -> (reqs: Vec<RemoteRequest>)
        requires
            old(self).phase is Idle,
            old(app).wf(),
        ensures
            final(app).wf(),
            playback_resp_post(
                *old(self),
                *old(app),
                *final(self),
                *final(app),
                reqs@,
                reset_progress,
                after,
                r,
                now_ms,
            ),
    {
        match r {
            Result::Ok(Option::Some(ctx)) => {
                let mut ids: Vec<String> = Vec::new();
                match &ctx.track {
                    Option::Some(t) => match &t.id {
                        Option::Some(id) => {
                            ids.push(id.clone());
                        },
                        Option::None => {},
                    },
                    Option::None => {},
                }
                proof {
                    assert(ids@ =~= playback_check_ids(ctx));
                }
                if ids.len() > 0 {
                    let reqs = one_req(RemoteRequest::SavedTracksContains {
                        ids: clone_strings(&ids),
                    });
                    self.phase = Phase::AwaitContains {
                        ids,
                        then: AfterContains::WritePlayback { ctx, reset_progress, after },
                    };
                    reqs
                } else {
                    app.current_playback_context = Option::Some(ctx);
                    app.last_playback_poll_ms = now_ms;
                    if reset_progress {
                        app.song_progress_ms = 0;
                    }
                    match after {
                        AfterPlayback::Nothing => {},
                        AfterPlayback::RecsFinal { tracks } => {
                            self.recs_final_writes(app, tracks);
                        },
                    }
                    app.is_loading = false;
                    Vec::new()
                }
            },
            Result::Ok(Option::None) => {
                if reset_progress {
                    app.song_progress_ms = 0;
                }
                match after {
                    AfterPlayback::Nothing => {},
                    AfterPlayback::RecsFinal { tracks } => {
                        self.recs_final_writes(app, tracks);
                    },
                }
                app.is_loading = false;
                Vec::new()
            },
            Result::Err(e) => {
                app.handle_error(StateError::Remote(e.message));
                if reset_progress {
                    app.song_progress_ms = 0;
                }
                match after {
                    AfterPlayback::Nothing => {},
                    AfterPlayback::RecsFinal { tracks } => {
                        self.recs_final_writes(app, tracks);
                    },
                }
                app.is_loading = false;
                Vec::new()
            },
        }
    }

    /// Handles one liked-membership answer and the pending continuation, as
    /// [`contains_step_post`] describes.
    fn step_contains(
        &mut self,
        app: &mut AppState,
        ids: Vec<String>,
        then: AfterContains,
        r: Result<Vec<bool>, RemoteError>,
        now_ms: u64,
    ) -> (reqs: Vec<RemoteRequest>)
        requires
            old(self).phase is Idle,
            old(app).wf(),
        ensures
            final(app).wf(),
            contains_step_post(
                *old(self),
                *old(app),
                *final(self),
                *final(app),
                reqs@,
                ids,
                then,
                r,
                now_ms,
            ),
    {
        app.current_user_saved_tracks_contains(&ids, r);
        match then {
            AfterContains::SetTracks { tracks, after } => {
                app.track_table.tracks = tracks;
                match after {
                    AfterTracks::Nothing => {
                        app.is_loading = false;
                        Vec::new()
                    },
                    AfterTracks::WritePlaylist { page } => {
                        app.playlist_tracks = Option::Some(page);
                        app.push_navigation_stack(RouteId::TrackTable, ActiveBlock::TrackTable);
                        app.is_loading = false;
                        Vec::new()
                    },
                    AfterTracks::WriteMadeForYou { page } => {
                        app.made_for_you_tracks = Option::Some(page);
                        app.push_navigation_stack(RouteId::TrackTable, ActiveBlock::TrackTable);
                        app.is_loading = false;
                        Vec::new()
                    },
                    AfterTracks::WriteSearch { tracks: tp, artists, albums, playlists } => {
                        app.search_results.tracks = Option::Some(tp);
                        app.search_results.artists = Option::Some(artists);
                        app.search_results.albums = Option::Some(albums);
                        app.search_results.playlists = Option::Some(playlists);
                        app.is_loading = false;
                        Vec::new()
                    },
                    AfterTracks::StartRecsPlayback { uris, rec_tracks } => {
                        match &self.client_config.device_id {
                            Option::Some(d) => {
                                let reqs = one_req(RemoteRequest::StartPlayback {
                                    device_id: d.clone(),
                                    context_uri: Option::None,
                                    uris: Option::Some(uris),
                                    offset: Option::Some(0),
                                });
                                self.phase = Phase::AwaitStartAck {
                                    after: AfterPlayback::RecsFinal { tracks: rec_tracks },
                                };
                                reqs
                            },
                            Option::None => {
                                app.handle_error(StateError::NoSelectedDevice);
                                self.recs_final_writes(app, rec_tracks);
                                app.is_loading = false;
                                Vec::new()
                            },
                        }
                    },
                }
            },
            AfterContains::WritePlayback { ctx, reset_progress, after } => {
                app.current_playback_context = Option::Some(ctx);
                app.last_playback_poll_ms = now_ms;
                if reset_progress {
                    app.song_progress_ms = 0;
                }
                match after {
                    AfterPlayback::Nothing => {},
                    AfterPlayback::RecsFinal { tracks } => {
                        self.recs_final_writes(app, tracks);
                    },
                }
                app.is_loading = false;
                Vec::new()
            },
            AfterContains::WriteAlbum { album, tracks_page } => {
                app.selected_album_simplified = Option::Some(
                    SelectedAlbum { album, tracks: tracks_page, selected_index: 0 },
                );
                app.album_table_context = AlbumTableContext::Simplified;
                app.push_navigation_stack(RouteId::AlbumTracks, ActiveBlock::AlbumTracks);
                app.is_loading = false;
                Vec::new()
            },
            AfterContains::WriteRecentlyPlayed { page } => {
                app.recently_played = Option::Some(page);
                app.push_navigation_stack(RouteId::RecentlyPlayed, ActiveBlock::RecentlyPlayed);
                app.is_loading = false;
                Vec::new()
            },
        }
    }

    /// Records one search facet; once all four are in, either chains into
    /// the liked-membership check for the found tracks or surfaces the first
    /// facet failure.
    fn search_resume(
        &mut self,
        app: &mut AppState,
        t: Option<Result<Page<Track>, RemoteError>>,
        ar: Option<Result<Page<ArtistSummary>, RemoteError>>,
        al: Option<Result<Page<AlbumSummary>, RemoteError>>,
        p: Option<Result<Page<PlaylistSummary>, RemoteError>>,
    ) -> (reqs: Vec<RemoteRequest>)
        requires
            old(self).phase is Idle,
            old(app).wf(),
        ensures
            final(app).wf(),
            search_resume_post(
                *old(self),
                *old(app),
                *final(self),
                *final(app),
                reqs@,
                t,
                ar,
                al,
                p,
            ),
    {
        if t.is_some() && ar.is_some() && al.is_some() && p.is_some() {
            match (t, ar, al, p) {
                (Option::Some(t), Option::Some(ar), Option::Some(al), Option::Some(p)) => {
                    match (t, ar, al, p) {
                        (Result::Ok(tp), Result::Ok(arp), Result::Ok(alp), Result::Ok(pp)) => {
                            let ids = track_id_list(&tp.items);
                            let tracks = clone_tracks(&tp.items);
                            let reqs = one_req(RemoteRequest::SavedTracksContains {
                                ids: clone_strings(&ids),
                            });
                            self.phase = Phase::AwaitContains {
                                ids,
                                then: AfterContains::SetTracks {
                                    tracks,
                                    after: AfterTracks::WriteSearch {
                                        tracks: tp,
                                        artists: arp,
                                        albums: alp,
                                        playlists: pp,
                                    },
                                },
                            };
                            reqs
                        },
                        (Result::Err(e), _, _, _) => {
                            app.handle_error(StateError::Remote(e.message));
                            app.is_loading = false;
                            Vec::new()
                        },
                        (_, Result::Err(e), _, _) => {
                            app.handle_error(StateError::Remote(e.message));
                            app.is_loading = false;
                            Vec::new()
                        },
                        (_, _, Result::Err(e), _) => {
                            app.handle_error(StateError::Remote(e.message));
                            app.is_loading = false;
                            Vec::new()
                        },
                        (_, _, _, Result::Err(e)) => {
                            app.handle_error(StateError::Remote(e.message));
                            app.is_loading = false;
                            Vec::new()
                        },
                    }
                },
                _ => vstd::pervasive::unreached(),
            }
        } else {
            self.phase = Phase::AwaitSearch { tracks: t, artists: ar, albums: al, playlists: p };
            Vec::new()
        }
    }

    /// Records one artist-join facet; once the catalog, top tracks and
    /// related artists are all in, a fully successful join becomes the
    /// artist view, and any failure is dropped silently.
    fn artist_resume(
        &mut self,
        app: &mut AppState,
        artist_name: String,
        al: Option<Result<Page<AlbumSummary>, RemoteError>>,
        tt: Option<Result<Vec<Track>, RemoteError>>,
        rl: Option<Result<Vec<ArtistSummary>, RemoteError>>,
    ) -> (reqs: Vec<RemoteRequest>)
        requires
            old(self).phase is Idle,
            old(app).wf(),
        ensures
            final(app).wf(),
            artist_resume_post(
                *old(self),
                *old(app),
                *final(self),
                *final(app),
                reqs@,
                artist_name,
                al,
                tt,
                rl,
            ),
    {
        if al.is_some() && tt.is_some() && rl.is_some() {
            match (al, tt, rl) {
                (Option::Some(al), Option::Some(tt), Option::Some(rl)) => {
                    match (al, tt, rl) {
                        (Result::Ok(albums), Result::Ok(top_tracks), Result::Ok(related)) => {
                            app.artist = Option::Some(
                                Artist {
                                    artist_name,
                                    albums,
                                    related_artists: related,
                                    top_tracks,
                                    selected_album_index: 0,
                                    selected_related_artist_index: 0,
                                    selected_top_track_index: 0,
                                    artist_hovered_block: ArtistBlock::TopTracks,
                                    artist_selected_block: ArtistBlock::Empty,
                                },
                            );
                            app.is_loading = false;
                            Vec::new()
                        },
                        (Result::Err(e), _, _) => {
                            app.handle_error(StateError::Remote(e.message));
                            app.is_loading = false;
                            Vec::new()
                        },
                        (_, Result::Err(e), _) => {
                            app.handle_error(StateError::Remote(e.message));
                            app.is_loading = false;
                            Vec::new()
                        },
                        (_, _, Result::Err(e)) => {
                            app.handle_error(StateError::Remote(e.message));
                            app.is_loading = false;
                            Vec::new()
                        },
                    }
                },
                _ => vstd::pervasive::unreached(),
            }
        } else {
            self.phase = Phase::AwaitArtistJoin {
                artist_name,
                albums: al,
                top_tracks: tt,
                related: rl,
            };
            Vec::new()
        }
    }
}

impl Network {
    /// Whether the phase is handled by the first half of the response
    /// handler; the split keeps each half within the prover's budget.
    pub open spec fn early_phase(p: Phase) -> bool {
        match p {
            Phase::Idle => true,
            Phase::AwaitToken => true,
            Phase::AwaitUser => true,
            Phase::AwaitDevices => true,
            Phase::AwaitPlayback { .. } => true,
            Phase::AwaitContains { .. } => true,
            Phase::AwaitPlaylistPage { .. } => true,
            Phase::AwaitSavedTracksPage { .. } => true,
            Phase::AwaitSearch { .. } => true,
            Phase::AwaitStartAck { .. } => true,
            Phase::AwaitTransportRefreshAck => true,
            _ => false,
        }
    }

    /// Feeds back the typed result of one remote request, in request order.
    /// The answer is merged into the shared state as [`step_post`] describes,
    /// the requests the command still needs come back, and the loading flag
    /// is cleared the moment the command has no response outstanding.
    pub fn handle_response(
        &mut self,
        app: &mut AppState,
        resp: RemoteResponse,
        now_ms: u64,
    ) -> (reqs: Vec<RemoteRequest>)
        requires
            old(app).wf(),
            awaited(old(self).phase).len() > 0,
            resp_tag(resp) == awaited(old(self).phase)[0],
        ensures
            final(app).wf(),
            awaited(final(self).phase) == awaited(old(self).phase).subrange(
                1,
                awaited(old(self).phase).len() as int,
            ) + req_tags(reqs@),
            rank(final(self).phase) < rank(old(self).phase),
            (final(self).phase is Idle) <==> (awaited(final(self).phase).len() == 0),
            final(self).phase is Idle ==> !final(app).is_loading,
            step_post(*old(self), *old(app), *final(self), *final(app), reqs@, resp, now_ms),
    {
        let early = match &self.phase {
            Phase::Idle => true,
            Phase::AwaitToken => true,
            Phase::AwaitUser => true,
            Phase::AwaitDevices => true,
            Phase::AwaitPlayback { .. } => true,
            Phase::AwaitContains { .. } => true,
            Phase::AwaitPlaylistPage { .. } => true,
            Phase::AwaitSavedTracksPage { .. } => true,
            Phase::AwaitSearch { .. } => true,
            Phase::AwaitStartAck { .. } => true,
            Phase::AwaitTransportRefreshAck => true,
            _ => false,
        };
        if early {
            self.handle_response_early(app, resp, now_ms)
        } else {
            self.handle_response_late(app, resp, now_ms)
        }
    }

    /// The first half of the response handler.
    #[verifier::rlimit(100)]
    fn handle_response_early(
        &mut self,
        app: &mut AppState,
        resp: RemoteResponse,
        now_ms: u64,
    ) -> (reqs: Vec<RemoteRequest>)
        requires
            old(app).wf(),
            awaited(old(self).phase).len() > 0,
            resp_tag(resp) == awaited(old(self).phase)[0],
            Self::early_phase(old(self).phase),
        ensures
            final(app).wf(),
            awaited(final(self).phase) == awaited(old(self).phase).subrange(
                1,
                awaited(old(self).phase).len() as int,
            ) + req_tags(reqs@),
            rank(final(self).phase) < rank(old(self).phase),
            (final(self).phase is Idle) <==> (awaited(final(self).phase).len() == 0),
            final(self).phase is Idle ==> !final(app).is_loading,
            step_post(*old(self), *old(app), *final(self), *final(app), reqs@, resp, now_ms),
    {
        proof {
            reveal(crate::network::step_post);
        }
        let mut ph = Phase::Idle;
        core::mem::swap(&mut self.phase, &mut ph);
        match ph {
            Phase::Idle => vstd::pervasive::unreached(),
            Phase::AwaitToken => match resp {
                RemoteResponse::Token(t) => {
                    match t {
                        Option::Some(ti) => {
                            self.spotify_token_expiry_ms = compute_token_expiry(
                                now_ms,
                                ti.expires_in,
                            );
                        },
                        Option::None => {
                            app.handle_error(StateError::CredentialRefresh);
                        },
                    }
                    app.is_loading = false;
                    Vec::new()
                },
                _ => vstd::pervasive::unreached(),
            },
            Phase::AwaitUser => match resp {
                RemoteResponse::User(r) => {
                    match r {
                        Result::Ok(user) => {
                            app.user = Option::Some(user);
                        },
                        Result::Err(e) => {
                            app.handle_error(StateError::Remote(e.message));
                        },
                    }
                    app.is_loading = false;
                    Vec::new()
                },
                _ => vstd::pervasive::unreached(),
            },
            Phase::AwaitDevices => match resp {
                RemoteResponse::Devices(r) => {
                    match r {
                        Result::Ok(devices) => {
                            app.push_navigation_stack(
                                RouteId::SelectedDevice,
                                ActiveBlock::SelectDevice,
                            );
                            if devices.len() > 0 {
                                app.devices = Option::Some(devices);
                                app.selected_device_index = Option::Some(0);
                            }
                        },
                        Result::Err(e) => {
                            app.handle_error(StateError::Remote(e.message));
                        },
                    }
                    app.is_loading = false;
                    Vec::new()
                },
                _ => vstd::pervasive::unreached(),
            },
            Phase::AwaitPlayback { reset_progress, after } => match resp {
                RemoteResponse::Playback(r) => self.step_playback(
                    app,
                    reset_progress,
                    after,
                    r,
                    now_ms,
                ),
                _ => vstd::pervasive::unreached(),
            },
            Phase::AwaitContains { ids, then } => match resp {
                RemoteResponse::Contains(r) => self.step_contains(app, ids, then, r, now_ms),
                _ => vstd::pervasive::unreached(),
            },
            Phase::AwaitPlaylistPage { made_for_you } => match resp {
                RemoteResponse::TrackPage(r) => {
                    match r {
                        Result::Ok(page) => {
                            let ids = track_id_list(&page.items);
                            let tracks = clone_tracks(&page.items);
                            let reqs = one_req(RemoteRequest::SavedTracksContains {
                                ids: clone_strings(&ids),
                            });
                            self.phase = Phase::AwaitContains {
                                ids,
                                then: AfterContains::SetTracks {
                                    tracks,
                                    after: if made_for_you {
                                        AfterTracks::WriteMadeForYou { page }
                                    } else {
                                        AfterTracks::WritePlaylist { page }
                                    },
                                },
                            };
                            reqs
                        },
                        Result::Err(e) => {
                            app.handle_error(StateError::Remote(e.message));
                            app.is_loading = false;
                            Vec::new()
                        },
                    }
                },
                _ => vstd::pervasive::unreached(),
            },
            Phase::AwaitSavedTracksPage { should_navigate } => match resp {
                RemoteResponse::SavedTracksPage(r) => {
                    match r {
                        Result::Ok(page) => {
                            app.set_saved_tracks_to_table(&page);
                            app.library.saved_tracks.add_page(page);
                            app.track_table.context = Option::Some(TrackTableContext::SavedTracks);
                            if should_navigate {
                                app.push_navigation_stack(
                                    RouteId::TrackTable,
                                    ActiveBlock::TrackTable,
                                );
                            }
                        },
                        Result::Err(e) => {
                            app.handle_error(StateError::Remote(e.message));
                        },
                    }
                    app.is_loading = false;
                    Vec::new()
                },
                _ => vstd::pervasive::unreached(),
            },
            Phase::AwaitSearch { tracks, artists, albums, playlists } => match resp {
                RemoteResponse::SearchTracksPage(r) => self.search_resume(
                    app,
                    Option::Some(r),
                    artists,
                    albums,
                    playlists,
                ),
                RemoteResponse::SearchArtistsPage(r) => self.search_resume(
                    app,
                    tracks,
                    Option::Some(r),
                    albums,
                    playlists,
                ),
                RemoteResponse::SearchAlbumsPage(r) => self.search_resume(
                    app,
                    tracks,
                    artists,
                    Option::Some(r),
                    playlists,
                ),
                RemoteResponse::SearchPlaylistsPage(r) => self.search_resume(
                    app,
                    tracks,
                    artists,
                    albums,
                    Option::Some(r),
                ),
                _ => vstd::pervasive::unreached(),
            },
            Phase::AwaitStartAck { after } => match resp {
                RemoteResponse::Ack(r) => {
                    match r {
                        Result::Ok(_) => {
                            self.phase = Phase::AwaitPlayback { reset_progress: true, after };
                            one_req(RemoteRequest::CurrentPlayback)
                        },
                        Result::Err(e) => {
                            app.handle_error(StateError::Remote(e.message));
                            match after {
                                AfterPlayback::Nothing => {},
                                AfterPlayback::RecsFinal { tracks } => {
                                    self.recs_final_writes(app, tracks);
                                },
                            }
                            app.is_loading = false;
                            Vec::new()
                        },
                    }
                },
                _ => vstd::pervasive::unreached(),
            },
            Phase::AwaitTransportRefreshAck => match resp {
                RemoteResponse::Ack(r) => {
                    match r {
                        Result::Ok(_) => {
                            self.phase = Phase::AwaitPlayback {
                                reset_progress: false,
                                after: AfterPlayback::Nothing,
                            };
                            one_req(RemoteRequest::CurrentPlayback)
                        },
                        Result::Err(e) => {
                            app.handle_error(StateError::Remote(e.message));
                            app.is_loading = false;
                            Vec::new()
                        },
                    }
                },
                _ => vstd::pervasive::unreached(),
            },
            _ => vstd::pervasive::unreached(),
        }
    }

    /// The second half of the response handler.
    #[verifier::rlimit(100)]
    fn handle_response_late(
        &mut self,
        app: &mut AppState,
        resp: RemoteResponse,
        now_ms: u64,
    ) -> (reqs: Vec<RemoteRequest>)
        requires
            old(app).wf(),
            awaited(old(self).phase).len() > 0,
            resp_tag(resp) == awaited(old(self).phase)[0],
            !Self::early_phase(old(self).phase),
        ensures
            final(app).wf(),
            awaited(final(self).phase) == awaited(old(self).phase).subrange(
                1,
                awaited(old(self).phase).len() as int,
            ) + req_tags(reqs@),
            rank(final(self).phase) < rank(old(self).phase),
            (final(self).phase is Idle) <==> (awaited(final(self).phase).len() == 0),
            final(self).phase is Idle ==> !final(app).is_loading,
            step_post(*old(self), *old(app), *final(self), *final(app), reqs@, resp, now_ms),
    {
        proof {
            reveal(crate::network::step_post);
        }
        let mut ph = Phase::Idle;
        core::mem::swap(&mut self.phase, &mut ph);
        match ph {
            Phase::AwaitShuffleAck { target } => match resp {
                RemoteResponse::Ack(r) => {
                    match r {
                        Result::Ok(_) => {
                            match &mut app.current_playback_context {
                                Option::Some(c) => {
                                    c.shuffle_state = target;
                                },
                                Option::None => {},
                            }
                        },
                        Result::Err(e) => {
                            app.handle_error(StateError::Remote(e.message));
                        },
                    }
                    app.is_loading = false;
                    Vec::new()
                },
                _ => vstd::pervasive::unreached(),
            },
            Phase::AwaitRepeatAck { mode } => match resp {
                RemoteResponse::Ack(r) => {
                    match r {
                        Result::Ok(_) => {
                            match &mut app.current_playback_context {
                                Option::Some(c) => {
                                    c.repeat_state = mode;
                                },
                                Option::None => {},
                            }
                        },
                        Result::Err(e) => {
                            app.handle_error(StateError::Remote(e.message));
                        },
                    }
                    app.is_loading = false;
                    Vec::new()
                },
                _ => vstd::pervasive::unreached(),
            },
            Phase::AwaitVolumeAck { volume_percent } => match resp {
                RemoteResponse::Ack(r) => {
                    match r {
                        Result::Ok(_) => {
                            match &mut app.current_playback_context {
                                Option::Some(c) => {
                                    c.device.volume_percent = volume_percent as u32;
                                },
                                Option::None => {},
                            }
                        },
                        Result::Err(e) => {
                            app.handle_error(StateError::Remote(e.message));
                        },
                    }
                    app.is_loading = false;
                    Vec::new()
                },
                _ => vstd::pervasive::unreached(),
            },
            Phase::AwaitArtistName { artist_id, country } => match resp {
                RemoteResponse::ArtistProfileInfo(r) => {
                    let artist_name = match r {
                        Result::Ok(profile) => profile.name,
                        Result::Err(_) => String::new(),
                    };
                    let reqs = three_reqs(
                        RemoteRequest::ArtistAlbums {
                            artist_id: artist_id.clone(),
                            country: clone_opt_string(&country),
                            limit: self.large_search_limit,
                            offset: 0,
                        },
                        RemoteRequest::ArtistTopTracks { artist_id: artist_id.clone(), country },
                        RemoteRequest::RelatedArtists { artist_id },
                    );
                    self.phase = Phase::AwaitArtistJoin {
                        artist_name,
                        albums: Option::None,
                        top_tracks: Option::None,
                        related: Option::None,
                    };
                    reqs
                },
                _ => vstd::pervasive::unreached(),
            },
            Phase::AwaitArtistJoin { artist_name, albums, top_tracks, related } => match resp {
                RemoteResponse::ArtistAlbumsPage(r) => self.artist_resume(
                    app,
                    artist_name,
                    Option::Some(r),
                    top_tracks,
                    related,
                ),
                RemoteResponse::TopTracks(r) => self.artist_resume(
                    app,
                    artist_name,
                    albums,
                    Option::Some(r),
                    related,
                ),
                RemoteResponse::Related(r) => self.artist_resume(
                    app,
                    artist_name,
                    albums,
                    top_tracks,
                    Option::Some(r),
                ),
                _ => vstd::pervasive::unreached(),
            },
            Phase::AwaitAlbumTracksPage { album } => match resp {
                RemoteResponse::AlbumTracksPage(r) => {
                    match r {
                        Result::Ok(page) => {
                            let ids = track_id_list(&page.items);
                            let reqs = one_req(RemoteRequest::SavedTracksContains {
                                ids: clone_strings(&ids),
                            });
                            self.phase = Phase::AwaitContains {
                                ids,
                                then: AfterContains::WriteAlbum { album, tracks_page: page },
                            };
                            reqs
                        },
                        Result::Err(e) => {
                            app.handle_error(StateError::Remote(e.message));
                            app.is_loading = false;
                            Vec::new()
                        },
                    }
                },
                _ => vstd::pervasive::unreached(),
            },
            Phase::AwaitRecs { first_track } => match resp {
                RemoteResponse::RecommendedUris(r) => {
                    match r {
                        Result::Ok(uris) => {
                            let reqs = one_req(RemoteRequest::TracksInfo { uris });
                            self.phase = Phase::AwaitRecTracks { first_track };
                            reqs
                        },
                        Result::Err(e) => {
                            app.handle_error(StateError::Remote(e.message));
                            app.is_loading = false;
                            Vec::new()
                        },
                    }
                },
                _ => vstd::pervasive::unreached(),
            },
            Phase::AwaitRecTracks { first_track } => match resp {
                RemoteResponse::TracksList(r) => {
                    match r {
                        Result::Ok(tracks) => {
                            let mut tracks = tracks;
                            match first_track {
                                Option::Some(t) => {
                                    tracks.insert(0, t);
                                },
                                Option::None => {},
                            }
                            let ids = track_id_list(&tracks);
                            let uris = track_uri_list(&tracks);
                            let table_tracks = clone_tracks(&tracks);
                            let reqs = one_req(RemoteRequest::SavedTracksContains {
                                ids: clone_strings(&ids),
                            });
                            self.phase = Phase::AwaitContains {
                                ids,
                                then: AfterContains::SetTracks {
                                    tracks: table_tracks,
                                    after: AfterTracks::StartRecsPlayback {
                                        uris,
                                        rec_tracks: tracks,
                                    },
                                },
                            };
                            reqs
                        },
                        Result::Err(e) => {
                            app.handle_error(StateError::Remote(e.message));
                            app.is_loading = false;
                            Vec::new()
                        },
                    }
                },
                _ => vstd::pervasive::unreached(),
            },
            Phase::AwaitTrackForRec { country } => match resp {
                RemoteResponse::TrackObject(r) => {
                    match r {
                        Result::Ok(track) => {
                            let seed_tracks = match &track.id {
                                Option::Some(id) => Option::Some(one_id(id.clone())),
                                Option::None => Option::None,
                            };
                            let reqs = one_req(RemoteRequest::Recommendations {
                                seed_artists: Option::None,
                                seed_tracks,
                                limit: self.large_search_limit,
                                country,
                            });
                            self.phase = Phase::AwaitRecs { first_track: Option::Some(track) };
                            reqs
                        },
                        Result::Err(e) => {
                            app.handle_error(StateError::Remote(e.message));
                            app.is_loading = false;
                            Vec::new()
                        },
                    }
                },
                _ => vstd::pervasive::unreached(),
            },
            Phase::AwaitToggleContains { track_id } => match resp {
                RemoteResponse::Contains(r) => {
                    match r {
                        Result::Ok(flags) => {
                            let saved = flags.len() > 0 && flags[0];
                            let reqs = if saved {
                                one_req(RemoteRequest::SavedTracksDelete {
                                    ids: one_id(track_id.clone()),
                                })
                            } else {
                                one_req(RemoteRequest::SavedTracksAdd {
                                    ids: one_id(track_id.clone()),
                                })
                            };
                            self.phase = Phase::AwaitToggleAck { track_id, deleting: saved };
                            reqs
                        },
                        Result::Err(e) => {
                            app.handle_error(StateError::Remote(e.message));
                            app.is_loading = false;
                            Vec::new()
                        },
                    }
                },
                _ => vstd::pervasive::unreached(),
            },
            Phase::AwaitToggleAck { track_id, deleting } => match resp {
                RemoteResponse::Ack(r) => {
                    match r {
                        Result::Ok(_) => {
                            if deleting {
                                app.liked_song_ids_set.remove(&track_id);
                            } else {
                                app.liked_song_ids_set.insert(track_id);
                            }
                        },
                        Result::Err(e) => {
                            app.handle_error(StateError::Remote(e.message));
                        },
                    }
                    app.is_loading = false;
                    Vec::new()
                },
                _ => vstd::pervasive::unreached(),
            },
            Phase::AwaitFollowedArtists => match resp {
                RemoteResponse::ArtistsPage(r) => {
                    match r {
                        Result::Ok(page) => {
                            app.artists = clone_artist_summaries(&page.items);
                            app.library.saved_artists.add_page(page);
                        },
                        Result::Err(e) => {
                            app.handle_error(StateError::Remote(e.message));
                        },
                    }
                    app.is_loading = false;
                    Vec::new()
                },
                _ => vstd::pervasive::unreached(),
            },
            Phase::AwaitSavedAlbumsPage => match resp {
                RemoteResponse::AlbumsPage(r) => {
                    match r {
                        Result::Ok(page) => {
                            if page.items.len() > 0 {
                                app.library.saved_albums.add_page(page);
                            }
                        },
                        Result::Err(e) => {
                            app.handle_error(StateError::Remote(e.message));
                        },
                    }
                    app.is_loading = false;
                    Vec::new()
                },
                _ => vstd::pervasive::unreached(),
            },
            Phase::AwaitSavedAlbumDeleteAck => match resp {
                RemoteResponse::Ack(r) => {
                    match r {
                        Result::Ok(_) => {
                            self.phase = Phase::AwaitSavedAlbumsPage;
                            one_req(RemoteRequest::SavedAlbums {
                                limit: self.large_search_limit,
                                offset: Option::None,
                            })
                        },
                        Result::Err(e) => {
                            app.handle_error(StateError::Remote(e.message));
                            app.is_loading = false;
                            Vec::new()
                        },
                    }
                },
                _ => vstd::pervasive::unreached(),
            },
            Phase::AwaitSavedAlbumAddAck => match resp {
                RemoteResponse::Ack(r) => {
                    match r {
                        Result::Ok(_) => {},
                        Result::Err(e) => {
                            app.handle_error(StateError::Remote(e.message));
                        },
                    }
                    app.is_loading = false;
                    Vec::new()
                },
                _ => vstd::pervasive::unreached(),
            },
            Phase::AwaitFollowArtistsRefreshAck => match resp {
                RemoteResponse::Ack(r) => {
                    match r {
                        Result::Ok(_) => {
                            self.phase = Phase::AwaitFollowedArtists;
                            one_req(RemoteRequest::FollowedArtists {
                                limit: self.large_search_limit,
                                after: Option::None,
                            })
                        },
                        Result::Err(e) => {
                            app.handle_error(StateError::Remote(e.message));
                            app.is_loading = false;
                            Vec::new()
                        },
                    }
                },
                _ => vstd::pervasive::unreached(),
            },
            Phase::AwaitPlaylistFollowRefreshAck => match resp {
                RemoteResponse::Ack(r) => {
                    match r {
                        Result::Ok(_) => {
                            self.phase = Phase::AwaitPlaylistsPage;
                            one_req(RemoteRequest::CurrentUserPlaylists {
                                limit: self.large_search_limit,
                            })
                        },
                        Result::Err(e) => {
                            app.handle_error(StateError::Remote(e.message));
                            app.is_loading = false;
                            Vec::new()
                        },
                    }
                },
                _ => vstd::pervasive::unreached(),
            },
            Phase::AwaitPlaylistsPage => match resp {
                RemoteResponse::PlaylistsPage(r) => {
                    match r {
                        Result::Ok(page) => {
                            app.playlists = Option::Some(page);
                            app.selected_playlist_index = Option::Some(0);
                        },
                        Result::Err(e) => {
                            app.handle_error(StateError::Remote(e.message));
                        },
                    }
                    app.is_loading = false;
                    Vec::new()
                },
                _ => vstd::pervasive::unreached(),
            },
            Phase::AwaitMadeForYouSearchPage { search_string } => match resp {
                RemoteResponse::SearchPlaylistsPage(r) => {
                    match r {
                        Result::Ok(page) => {
                            let mut page = page;
                            let mut filtered = filter_made_for_you(&page.items, &search_string);
                            if app.library.made_for_you_playlists.pages.len() > 0 {
                                match app.library.made_for_you_playlists.get_mut_results(
                                    Option::None,
                                ) {
                                    Option::Some(current) => {
                                        current.items.append(&mut filtered);
                                    },
                                    Option::None => vstd::pervasive::unreached(),
                                }
                            } else {
                                page.items = filtered;
                                app.library.made_for_you_playlists.add_page(page);
                            }
                        },
                        Result::Err(e) => {
                            app.handle_error(StateError::Remote(e.message));
                        },
                    }
                    app.is_loading = false;
                    Vec::new()
                },
                _ => vstd::pervasive::unreached(),
            },
            Phase::AwaitAnalysis => match resp {
                RemoteResponse::Analysis(r) => {
                    match r {
                        Result::Ok(analysis) => {
                            app.audio_analysis = Option::Some(analysis);
                            app.push_navigation_stack(RouteId::Analysis, ActiveBlock::Analysis);
                        },
                        Result::Err(e) => {
                            app.handle_error(StateError::Remote(e.message));
                        },
                    }
                    app.is_loading = false;
                    Vec::new()
                },
                _ => vstd::pervasive::unreached(),
            },
            Phase::AwaitRecentlyPlayedPage => match resp {
                RemoteResponse::RecentPage(r) => {
                    match r {
                        Result::Ok(page) => {
                            let ids = track_id_list(&page.items);
                            let reqs = one_req(RemoteRequest::SavedTracksContains {
                                ids: clone_strings(&ids),
                            });
                            self.phase = Phase::AwaitContains {
                                ids,
                                then: AfterContains::WriteRecentlyPlayed { page },
                            };
                            reqs
                        },
                        Result::Err(e) => {
                            app.handle_error(StateError::Remote(e.message));
                            app.is_loading = false;
                            Vec::new()
                        },
                    }
                },
                _ => vstd::pervasive::unreached(),
            },
            Phase::AwaitFullAlbum => match resp {
                RemoteResponse::FullAlbumInfo(r) => {
                    match r {
                        Result::Ok(album) => {
                            app.selected_album_full = Option::Some(
                                SelectedFullAlbum { album, selected_index: 0 },
                            );
                            app.album_table_context = AlbumTableContext::Full;
                            app.push_navigation_stack(
                                RouteId::AlbumTracks,
                                ActiveBlock::AlbumTracks,
                            );
                        },
                        Result::Err(e) => {
                            app.handle_error(StateError::Remote(e.message));
                        },
                    }
                    app.is_loading = false;
                    Vec::new()
                },
                _ => vstd::pervasive::unreached(),
            },
            Phase::AwaitConfigWrite { device_id } => match resp {
                RemoteResponse::ConfigAck(r) => {
                    match r {
                        Result::Ok(_) => {
                            self.client_config.device_id = Option::Some(device_id);
                            app.pop_navigation_stack();
                        },
                        Result::Err(e) => {
                            app.handle_error(StateError::Config(e.message));
                        },
                    }
                    app.is_loading = false;
                    Vec::new()
                },
                _ => vstd::pervasive::unreached(),
            },
            _ => vstd::pervasive::unreached(),
        }
    }
}

/// Keeps the made-for-you playlists of a search page: those owned by the
/// catalog curator whose name is exactly the search string.
pub fn filter_made_for_you(items: &Vec<PlaylistSummary>, term: &String) -> (r: Vec<
    PlaylistSummary,
>)
    ensures
        r@ == mfy_filter(items@, *term),
{
    let spotify_owner = String::from_str("spotify");
    let mut r: Vec<PlaylistSummary> = Vec::new();
    let mut i: usize = 0;
    while i < items.len()
        invariant
            i <= items@.len(),
            r@ == mfy_filter(items@.take(i as int), *term),
            spotify_owner@ == "spotify"@,
        decreases items@.len() - i,
    {
        if items[i].owner_id.eq(&spotify_owner) && items[i].name.eq(term) {
            r.push(items[i].clone());
        }
        proof {
            let pre = items@.take(i as int);
            let cur = items@.take(i + 1 as int);
            assert(cur.drop_last() =~= pre);
            assert(cur.last() == items@[i as int]);
            assert(r@ =~= mfy_filter(cur, *term));
        }
        i = i + 1;
    }
    proof {
        assert(items@.take(items@.len() as int) =~= items@);
    }
    r
}

} // verus!
