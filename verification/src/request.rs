//! The command protocol and the remote-capability interface: one command per
//! user-triggerable action, one request per remote operation, one typed
//! response per request.

use vstd::prelude::*;
use crate::model::{
    AlbumSummary, ArtistSummary, AudioAnalysis, Device, FullAlbum, Page, PlaybackContext,
    PlaylistSummary, RemoteError, RepeatState, TokenInfo, Track, UserProfile,
};

verus! {

/// One discrete user-triggered action, consumed exactly once by the
/// dispatcher. Country parameters are two-letter market codes.
#[derive(Debug, PartialEq, Eq)]
pub enum IoEvent {
    GetCurrentPlayback,
    RefreshAuthentication,
    GetPlaylists,
    GetDevices,
    GetSearchResults(String, Option<String>),
    SetTracksToTable(Vec<Track>),
    GetMadeForYouPlaylistTracks(String, u32),
    GetPlaylistTracks(String, u32),
    GetCurrentSavedTracks(Option<u32>, bool),
    StartPlayback(Option<String>, Option<Vec<String>>, Option<u32>),
    UpdateSearchLimits(u32, u32),
    Seek(u32),
    NextTrack,
    PreviousTrack,
    Shuffle(bool),
    Repeat(RepeatState),
    PausePlayback,
    ChangeVolume(u8),
    GetArtist(String, String, Option<String>),
    GetAlbumTracks(AlbumSummary),
    GetRecommendationsForSeed(Option<Vec<String>>, Option<Vec<String>>, Option<Track>, Option<String>),
    GetCurrentUserSavedAlbums(Option<u32>),
    CurrentUserSavedAlbumDelete(String),
    CurrentUserSavedAlbumAdd(String),
    UserUnfollowArtists(Vec<String>),
    UserFollowArtists(Vec<String>),
    UserFollowPlaylist(String, String, Option<bool>),
    UserUnfollowPlaylist(String, String),
    MadeForYouSearchAndAdd(String, Option<String>),
    GetAudioAnalysis(String),
    GetUser,
    ToggleSaveTrack(String),
    GetRecommendationsForTrackId(String, Option<String>),
    GetRecentlyPlayed,
    GetFollowedArtists(Option<String>),
    GetAlbum(String),
    SetDeviceIdInConfig(String),
}

/// One remote operation the embedding is asked to perform. Each variant
/// carries exactly the parameters of the corresponding remote call.
#[derive(Debug, PartialEq, Eq)]
pub enum RemoteRequest {
    RefreshToken,
    CurrentUser,
    GetDevices,
    CurrentPlayback,
    SavedTracksContains { ids: Vec<String> },
    PlaylistTracks { playlist_id: String, limit: u32, offset: u32 },
    SearchTracks { query: String, limit: u32, offset: u32, country: Option<String> },
    SearchArtists { query: String, limit: u32, offset: u32, country: Option<String> },
    SearchAlbums { query: String, limit: u32, offset: u32, country: Option<String> },
    SearchPlaylists { query: String, limit: u32, offset: u32, country: Option<String> },
    SavedTracks { limit: u32, offset: Option<u32> },
    StartPlayback {
        device_id: String,
        context_uri: Option<String>,
        uris: Option<Vec<String>>,
        offset: Option<u32>,
    },
    SeekTrack { position_ms: u32, device_id: String },
    NextTrack { device_id: String },
    PreviousTrack { device_id: String },
    PausePlayback { device_id: String },
    SetShuffle { state: bool, device_id: String },
    SetRepeat { state: RepeatState, device_id: String },
    SetVolume { volume_percent: u8, device_id: String },
    ArtistProfile { artist_id: String },
    ArtistAlbums { artist_id: String, country: Option<String>, limit: u32, offset: u32 },
    ArtistTopTracks { artist_id: String, country: Option<String> },
    RelatedArtists { artist_id: String },
    AlbumTracks { album_id: String, limit: u32, offset: u32 },
    Recommendations {
        seed_artists: Option<Vec<String>>,
        seed_tracks: Option<Vec<String>>,
        limit: u32,
        country: Option<String>,
    },
    TracksInfo { uris: Vec<String> },
    TrackInfo { track_id: String },
    SavedTracksAdd { ids: Vec<String> },
    SavedTracksDelete { ids: Vec<String> },
    FollowedArtists { limit: u32, after: Option<String> },
    SavedAlbums { limit: u32, offset: Option<u32> },
    SavedAlbumsAdd { ids: Vec<String> },
    SavedAlbumsDelete { ids: Vec<String> },
    FollowArtists { ids: Vec<String> },
    UnfollowArtists { ids: Vec<String> },
    FollowPlaylist { owner_id: String, playlist_id: String, public: Option<bool> },
    UnfollowPlaylist { user_id: String, playlist_id: String },
    AudioAnalysisFor { uri: String },
    CurrentUserPlaylists { limit: u32 },
    RecentlyPlayed { limit: u32 },
    AlbumInfo { album_id: String },
    WriteDeviceConfig { device_id: String },
}

/// The typed result of one remote operation, fed back to the dispatcher.
#[derive(Debug, PartialEq, Eq)]
pub enum RemoteResponse {
    Token(Option<TokenInfo>),
    User(Result<UserProfile, RemoteError>),
    Devices(Result<Vec<Device>, RemoteError>),
    Playback(Result<Option<PlaybackContext>, RemoteError>),
    Contains(Result<Vec<bool>, RemoteError>),
    TrackPage(Result<Page<Track>, RemoteError>),
    SavedTracksPage(Result<Page<Track>, RemoteError>),
    SearchTracksPage(Result<Page<Track>, RemoteError>),
    SearchArtistsPage(Result<Page<ArtistSummary>, RemoteError>),
    SearchAlbumsPage(Result<Page<AlbumSummary>, RemoteError>),
    SearchPlaylistsPage(Result<Page<PlaylistSummary>, RemoteError>),
    Ack(Result<(), RemoteError>),
    ArtistProfileInfo(Result<ArtistSummary, RemoteError>),
    ArtistAlbumsPage(Result<Page<AlbumSummary>, RemoteError>),
    TopTracks(Result<Vec<Track>, RemoteError>),
    Related(Result<Vec<ArtistSummary>, RemoteError>),
    AlbumTracksPage(Result<Page<Track>, RemoteError>),
    RecommendedUris(Result<Vec<String>, RemoteError>),
    TracksList(Result<Vec<Track>, RemoteError>),
    TrackObject(Result<Track, RemoteError>),
    ArtistsPage(Result<Page<ArtistSummary>, RemoteError>),
    AlbumsPage(Result<Page<AlbumSummary>, RemoteError>),
    PlaylistsPage(Result<Page<PlaylistSummary>, RemoteError>),
    Analysis(Result<AudioAnalysis, RemoteError>),
    RecentPage(Result<Page<Track>, RemoteError>),
    FullAlbumInfo(Result<FullAlbum, RemoteError>),
    ConfigAck(Result<(), RemoteError>),
}

/// The shape of a response, used to state which response answers which
/// request and what the dispatcher awaits.
#[derive(Clone, Copy, Debug, PartialEq, Eq, Structural)]
pub enum RespTag {
    Token,
    User,
    Devices,
    Playback,
    Contains,
    TrackPage,
    SavedTracksPage,
    SearchTracksPage,
    SearchArtistsPage,
    SearchAlbumsPage,
    SearchPlaylistsPage,
    Ack,
    ArtistProfileInfo,
    ArtistAlbumsPage,
    TopTracks,
    Related,
    AlbumTracksPage,
    RecommendedUris,
    TracksList,
    TrackObject,
    ArtistsPage,
    AlbumsPage,
    PlaylistsPage,
    Analysis,
    RecentPage,
    FullAlbumInfo,
    ConfigAck,
}

/// The shape of a response value.
pub open spec fn resp_tag(resp: RemoteResponse) -> RespTag {
    match resp {
        RemoteResponse::Token(_) => RespTag::Token,
        RemoteResponse::User(_) => RespTag::User,
        RemoteResponse::Devices(_) => RespTag::Devices,
        RemoteResponse::Playback(_) => RespTag::Playback,
        RemoteResponse::Contains(_) => RespTag::Contains,
        RemoteResponse::TrackPage(_) => RespTag::TrackPage,
        RemoteResponse::SavedTracksPage(_) => RespTag::SavedTracksPage,
        RemoteResponse::SearchTracksPage(_) => RespTag::SearchTracksPage,
        RemoteResponse::SearchArtistsPage(_) => RespTag::SearchArtistsPage,
        RemoteResponse::SearchAlbumsPage(_) => RespTag::SearchAlbumsPage,
        RemoteResponse::SearchPlaylistsPage(_) => RespTag::SearchPlaylistsPage,
        RemoteResponse::Ack(_) => RespTag::Ack,
        RemoteResponse::ArtistProfileInfo(_) => RespTag::ArtistProfileInfo,
        RemoteResponse::ArtistAlbumsPage(_) => RespTag::ArtistAlbumsPage,
        RemoteResponse::TopTracks(_) => RespTag::TopTracks,
        RemoteResponse::Related(_) => RespTag::Related,
        RemoteResponse::AlbumTracksPage(_) => RespTag::AlbumTracksPage,
        RemoteResponse::RecommendedUris(_) => RespTag::RecommendedUris,
        RemoteResponse::TracksList(_) => RespTag::TracksList,
        RemoteResponse::TrackObject(_) => RespTag::TrackObject,
        RemoteResponse::ArtistsPage(_) => RespTag::ArtistsPage,
        RemoteResponse::AlbumsPage(_) => RespTag::AlbumsPage,
        RemoteResponse::PlaylistsPage(_) => RespTag::PlaylistsPage,
        RemoteResponse::Analysis(_) => RespTag::Analysis,
        RemoteResponse::RecentPage(_) => RespTag::RecentPage,
        RemoteResponse::FullAlbumInfo(_) => RespTag::FullAlbumInfo,
        RemoteResponse::ConfigAck(_) => RespTag::ConfigAck,
    }
}

/// The shape of the response that answers a request.
pub open spec fn req_tag(req: RemoteRequest) -> RespTag {
    match req {
        RemoteRequest::RefreshToken => RespTag::Token,
        RemoteRequest::CurrentUser => RespTag::User,
        RemoteRequest::GetDevices => RespTag::Devices,
        RemoteRequest::CurrentPlayback => RespTag::Playback,
        RemoteRequest::SavedTracksContains { .. } => RespTag::Contains,
        RemoteRequest::PlaylistTracks { .. } => RespTag::TrackPage,
        RemoteRequest::SearchTracks { .. } => RespTag::SearchTracksPage,
        RemoteRequest::SearchArtists { .. } => RespTag::SearchArtistsPage,
        RemoteRequest::SearchAlbums { .. } => RespTag::SearchAlbumsPage,
        RemoteRequest::SearchPlaylists { .. } => RespTag::SearchPlaylistsPage,
        RemoteRequest::SavedTracks { .. } => RespTag::SavedTracksPage,
        RemoteRequest::StartPlayback { .. } => RespTag::Ack,
        RemoteRequest::SeekTrack { .. } => RespTag::Ack,
        RemoteRequest::NextTrack { .. } => RespTag::Ack,
        RemoteRequest::PreviousTrack { .. } => RespTag::Ack,
        RemoteRequest::PausePlayback { .. } => RespTag::Ack,
        RemoteRequest::SetShuffle { .. } => RespTag::Ack,
        RemoteRequest::SetRepeat { .. } => RespTag::Ack,
        RemoteRequest::SetVolume { .. } => RespTag::Ack,
        RemoteRequest::ArtistProfile { .. } => RespTag::ArtistProfileInfo,
        RemoteRequest::ArtistAlbums { .. } => RespTag::ArtistAlbumsPage,
        RemoteRequest::ArtistTopTracks { .. } => RespTag::TopTracks,
        RemoteRequest::RelatedArtists { .. } => RespTag::Related,
        RemoteRequest::AlbumTracks { .. } => RespTag::AlbumTracksPage,
        RemoteRequest::Recommendations { .. } => RespTag::RecommendedUris,
        RemoteRequest::TracksInfo { .. } => RespTag::TracksList,
        RemoteRequest::TrackInfo { .. } => RespTag::TrackObject,
        RemoteRequest::SavedTracksAdd { .. } => RespTag::Ack,
        RemoteRequest::SavedTracksDelete { .. } => RespTag::Ack,
        RemoteRequest::FollowedArtists { .. } => RespTag::ArtistsPage,
        RemoteRequest::SavedAlbums { .. } => RespTag::AlbumsPage,
        RemoteRequest::SavedAlbumsAdd { .. } => RespTag::Ack,
        RemoteRequest::SavedAlbumsDelete { .. } => RespTag::Ack,
        RemoteRequest::FollowArtists { .. } => RespTag::Ack,
        RemoteRequest::UnfollowArtists { .. } => RespTag::Ack,
        RemoteRequest::FollowPlaylist { .. } => RespTag::Ack,
        RemoteRequest::UnfollowPlaylist { .. } => RespTag::Ack,
        RemoteRequest::AudioAnalysisFor { .. } => RespTag::Analysis,
        RemoteRequest::CurrentUserPlaylists { .. } => RespTag::PlaylistsPage,
        RemoteRequest::RecentlyPlayed { .. } => RespTag::RecentPage,
        RemoteRequest::AlbumInfo { .. } => RespTag::FullAlbumInfo,
        RemoteRequest::WriteDeviceConfig { .. } => RespTag::ConfigAck,
    }
}

/// The shapes of the responses a request list elicits, in order.
pub open spec fn req_tags(reqs: Seq<RemoteRequest>) -> Seq<RespTag> {
    reqs.map_values(|r: RemoteRequest| req_tag(r))
}

/// Response shapes distribute over concatenation of request lists.
pub proof fn lemma_req_tags_concat(a: Seq<RemoteRequest>, b: Seq<RemoteRequest>)
    ensures
        req_tags(a + b) == req_tags(a) + req_tags(b),
{
    assert forall|k: int| 0 <= k < (a + b).len() implies req_tags(a + b)[k] == (req_tags(a)
        + req_tags(b))[k] by {
        assert(req_tags(a + b)[k] == req_tag((a + b)[k]));
        if k < a.len() {
            assert(req_tags(a)[k] == req_tag(a[k]));
        } else {
            assert(req_tags(b)[k - a.len()] == req_tag(b[k - a.len()]));
        }
    };
    assert(req_tags(a + b) =~= req_tags(a) + req_tags(b));
}

/// Response shapes commute with taking a subrange of a request list.
pub proof fn lemma_req_tags_subrange(s: Seq<RemoteRequest>, i: int, j: int)
    requires
        0 <= i <= j <= s.len(),
    ensures
        req_tags(s.subrange(i, j)) == req_tags(s).subrange(i, j),
{
    assert forall|k: int| 0 <= k < j - i implies req_tags(s.subrange(i, j))[k] == req_tags(
        s,
    ).subrange(i, j)[k] by {
        assert(req_tags(s.subrange(i, j))[k] == req_tag(s.subrange(i, j)[k]));
        assert(req_tags(s)[k + i] == req_tag(s[k + i]));
    };
    assert(req_tags(s.subrange(i, j)) =~= req_tags(s).subrange(i, j));
}

/// The expiry instant of a token issued at `now` (milliseconds) with a
/// lifetime of `expires_in` seconds, set ten seconds early to guard against
/// clock skew, clamped to the representable range.
pub open spec fn token_expiry_spec(now_ms: int, expires_in: int) -> int {
    let lifted = now_ms + expires_in * 1000;
    let capped = if lifted > u64::MAX {
        u64::MAX as int
    } else {
        lifted
    };
    if capped < 10000 {
        0
    } else {
        capped - 10000
    }
}

/// Computes the expiry instant of a fresh token: issue time plus lifetime,
/// minus the ten-second safety margin.
pub fn compute_token_expiry(now_ms: u64, expires_in: u32) -> (r: u64)
    ensures
        r == token_expiry_spec(now_ms as int, expires_in as int),
{
    let scaled: u64 = (expires_in as u64) * 1000;
    let sum: u64 = if now_ms <= u64::MAX - scaled {
        now_ms + scaled
    } else {
        u64::MAX
    };
    if sum >= 10000 {
        sum - 10000
    } else {
        0
    }
}

} // verus!
