//! A deterministic driver for the dispatcher: it plays the embedding's role
//! against a scripted remote, performing each request the machine hands out
//! from canned answers and feeding the results back in order. It mirrors the
//! loop the real embedding runs and is what the test suite dispatches
//! through.

use vstd::prelude::*;
use crate::model::{
    AlbumSummary, ArtistSummary, AudioAnalysis, Device, FullAlbum, Page, PlaybackContext,
    PlaylistSummary, RemoteError, TokenInfo, Track, UserProfile,
};
use crate::network::{Network, awaited, rank};
use crate::request::{IoEvent, RemoteRequest, RemoteResponse, req_tag, req_tags, resp_tag};
use crate::state::{AppState, LikedSet};

verus! {

/// Canned remote answers. Each field answers the matching request kind once
/// and is consumed by it; a request finding its field empty is answered with
/// an anonymous failure. Membership checks are answered from `liked`: an
/// identifier is reported saved exactly when `liked` holds it, unless a
/// scripted `contains_error` fails the check instead.
pub struct RemoteStub {
    pub token: Option<TokenInfo>,
    pub liked: LikedSet,
    pub contains_error: Option<RemoteError>,
    pub user: Option<Result<UserProfile, RemoteError>>,
    pub devices: Option<Result<Vec<Device>, RemoteError>>,
    pub playback: Option<Result<Option<PlaybackContext>, RemoteError>>,
    pub playlist_tracks: Option<Result<Page<Track>, RemoteError>>,
    pub saved_tracks: Option<Result<Page<Track>, RemoteError>>,
    pub album_tracks: Option<Result<Page<Track>, RemoteError>>,
    pub search_tracks: Option<Result<Page<Track>, RemoteError>>,
    pub search_artists: Option<Result<Page<ArtistSummary>, RemoteError>>,
    pub search_albums: Option<Result<Page<AlbumSummary>, RemoteError>>,
    pub search_playlists: Option<Result<Page<PlaylistSummary>, RemoteError>>,
    pub ack: Option<Result<(), RemoteError>>,
    pub artist_profile: Option<Result<ArtistSummary, RemoteError>>,
    pub artist_albums: Option<Result<Page<AlbumSummary>, RemoteError>>,
    pub top_tracks: Option<Result<Vec<Track>, RemoteError>>,
    pub related_artists: Option<Result<Vec<ArtistSummary>, RemoteError>>,
    pub recommendations: Option<Result<Vec<String>, RemoteError>>,
    pub tracks_info: Option<Result<Vec<Track>, RemoteError>>,
    pub track: Option<Result<Track, RemoteError>>,
    pub followed_artists: Option<Result<Page<ArtistSummary>, RemoteError>>,
    pub saved_albums: Option<Result<Page<AlbumSummary>, RemoteError>>,
    pub playlists: Option<Result<Page<PlaylistSummary>, RemoteError>>,
    pub analysis: Option<Result<AudioAnalysis, RemoteError>>,
    pub recently_played: Option<Result<Page<Track>, RemoteError>>,
    pub full_album: Option<Result<FullAlbum, RemoteError>>,
    pub config_write: Option<Result<(), RemoteError>>,
}

/// The script-to-answer relation for one field: the scripted result when
/// one is present, the anonymous failure when the script holds none.
pub open spec fn scripted<T>(field: Option<Result<T, RemoteError>>, r: Result<T, RemoteError>) -> bool {
    match field {
        Option::Some(v) => r == v,
        Option::None => (r matches Result::Err(e) && e.message@ == Seq::<char>::empty()),
    }
}

/// An answer for a request whose script field may be empty.
fn missing<T>(o: Option<Result<T, RemoteError>>) -> (r: Result<T, RemoteError>)
    ensures
        scripted(o, r),
{
    match o {
        Option::Some(r) => r,
        Option::None => Result::Err(RemoteError { message: String::new() }),
    }
}

/// What answering one request does to the script and what comes back, for
/// every request kind: the matching field is consumed and its content (or
/// the anonymous failure) is returned in the response shape the request
/// elicits; a membership check is answered identifier by identifier from
/// `liked`, unless a scripted failure consumes `contains_error` instead.
/// Opaque: callers reveal it where they reason under it.
#[verifier::opaque]
pub open spec fn answer_post(
    s0: RemoteStub,
    s1: RemoteStub,
    req: RemoteRequest,
    resp: RemoteResponse,
) -> bool {
    match req {
        RemoteRequest::RefreshToken => {
            &&& (resp matches RemoteResponse::Token(t) && t == s0.token)
            &&& s1 == (RemoteStub { token: Option::None, ..s0 })
        },
        RemoteRequest::CurrentUser => {
            &&& (resp matches RemoteResponse::User(r) && scripted(s0.user, r))
            &&& s1 == (RemoteStub { user: Option::None, ..s0 })
        },
        RemoteRequest::GetDevices => {
            &&& (resp matches RemoteResponse::Devices(r) && scripted(s0.devices, r))
            &&& s1 == (RemoteStub { devices: Option::None, ..s0 })
        },
        RemoteRequest::CurrentPlayback => {
            &&& (resp matches RemoteResponse::Playback(r) && scripted(s0.playback, r))
            &&& s1 == (RemoteStub { playback: Option::None, ..s0 })
        },
        RemoteRequest::SavedTracksContains { ids } => {
            match s0.contains_error {
                Option::Some(e) => {
                    &&& (resp matches RemoteResponse::Contains(r)
                        && r == Result::<Vec<bool>, RemoteError>::Err(e))
                    &&& s1 == (RemoteStub { contains_error: Option::None, ..s0 })
                },
                Option::None => {
                    &&& (resp matches RemoteResponse::Contains(r) && (r
                        matches Result::Ok(flags) && flags@.len() == ids@.len() && (forall|i: int|
                        0 <= i < ids@.len() ==> flags@[i] == s0.liked@.contains(ids@[i]@))))
                    &&& s1 == s0
                },
            }
        },
        RemoteRequest::PlaylistTracks { .. } => {
            &&& (resp matches RemoteResponse::TrackPage(r) && scripted(s0.playlist_tracks, r))
            &&& s1 == (RemoteStub { playlist_tracks: Option::None, ..s0 })
        },
        RemoteRequest::SearchTracks { .. } => {
            &&& (resp matches RemoteResponse::SearchTracksPage(r) && scripted(s0.search_tracks, r))
            &&& s1 == (RemoteStub { search_tracks: Option::None, ..s0 })
        },
        RemoteRequest::SearchArtists { .. } => {
            &&& (resp matches RemoteResponse::SearchArtistsPage(r)
                && scripted(s0.search_artists, r))
            &&& s1 == (RemoteStub { search_artists: Option::None, ..s0 })
        },
        RemoteRequest::SearchAlbums { .. } => {
            &&& (resp matches RemoteResponse::SearchAlbumsPage(r) && scripted(s0.search_albums, r))
            &&& s1 == (RemoteStub { search_albums: Option::None, ..s0 })
        },
        RemoteRequest::SearchPlaylists { .. } => {
            &&& (resp matches RemoteResponse::SearchPlaylistsPage(r)
                && scripted(s0.search_playlists, r))
            &&& s1 == (RemoteStub { search_playlists: Option::None, ..s0 })
        },
        RemoteRequest::SavedTracks { .. } => {
            &&& (resp matches RemoteResponse::SavedTracksPage(r) && scripted(s0.saved_tracks, r))
            &&& s1 == (RemoteStub { saved_tracks: Option::None, ..s0 })
        },
        RemoteRequest::StartPlayback { .. } => {
            &&& (resp matches RemoteResponse::Ack(r) && scripted(s0.ack, r))
            &&& s1 == (RemoteStub { ack: Option::None, ..s0 })
        },
        RemoteRequest::SeekTrack { .. } => {
            &&& (resp matches RemoteResponse::Ack(r) && scripted(s0.ack, r))
            &&& s1 == (RemoteStub { ack: Option::None, ..s0 })
        },
        RemoteRequest::NextTrack { .. } => {
            &&& (resp matches RemoteResponse::Ack(r) && scripted(s0.ack, r))
            &&& s1 == (RemoteStub { ack: Option::None, ..s0 })
        },
        RemoteRequest::PreviousTrack { .. } => {
            &&& (resp matches RemoteResponse::Ack(r) && scripted(s0.ack, r))
            &&& s1 == (RemoteStub { ack: Option::None, ..s0 })
        },
        RemoteRequest::PausePlayback { .. } => {
            &&& (resp matches RemoteResponse::Ack(r) && scripted(s0.ack, r))
            &&& s1 == (RemoteStub { ack: Option::None, ..s0 })
        },
        RemoteRequest::SetShuffle { .. } => {
            &&& (resp matches RemoteResponse::Ack(r) && scripted(s0.ack, r))
            &&& s1 == (RemoteStub { ack: Option::None, ..s0 })
        },
        RemoteRequest::SetRepeat { .. } => {
            &&& (resp matches RemoteResponse::Ack(r) && scripted(s0.ack, r))
            &&& s1 == (RemoteStub { ack: Option::None, ..s0 })
        },
        RemoteRequest::SetVolume { .. } => {
            &&& (resp matches RemoteResponse::Ack(r) && scripted(s0.ack, r))
            &&& s1 == (RemoteStub { ack: Option::None, ..s0 })
        },
        RemoteRequest::ArtistProfile { .. } => {
            &&& (resp matches RemoteResponse::ArtistProfileInfo(r)
                && scripted(s0.artist_profile, r))
            &&& s1 == (RemoteStub { artist_profile: Option::None, ..s0 })
        },
        RemoteRequest::ArtistAlbums { .. } => {
            &&& (resp matches RemoteResponse::ArtistAlbumsPage(r)
                && scripted(s0.artist_albums, r))
            &&& s1 == (RemoteStub { artist_albums: Option::None, ..s0 })
        },
        RemoteRequest::ArtistTopTracks { .. } => {
            &&& (resp matches RemoteResponse::TopTracks(r) && scripted(s0.top_tracks, r))
            &&& s1 == (RemoteStub { top_tracks: Option::None, ..s0 })
        },
        RemoteRequest::RelatedArtists { .. } => {
            &&& (resp matches RemoteResponse::Related(r) && scripted(s0.related_artists, r))
            &&& s1 == (RemoteStub { related_artists: Option::None, ..s0 })
        },
        RemoteRequest::AlbumTracks { .. } => {
            &&& (resp matches RemoteResponse::AlbumTracksPage(r) && scripted(s0.album_tracks, r))
            &&& s1 == (RemoteStub { album_tracks: Option::None, ..s0 })
        },
        RemoteRequest::Recommendations { .. } => {
            &&& (resp matches RemoteResponse::RecommendedUris(r)
                && scripted(s0.recommendations, r))
            &&& s1 == (RemoteStub { recommendations: Option::None, ..s0 })
        },
        RemoteRequest::TracksInfo { .. } => {
            &&& (resp matches RemoteResponse::TracksList(r) && scripted(s0.tracks_info, r))
            &&& s1 == (RemoteStub { tracks_info: Option::None, ..s0 })
        },
        RemoteRequest::TrackInfo { .. } => {
            &&& (resp matches RemoteResponse::TrackObject(r) && scripted(s0.track, r))
            &&& s1 == (RemoteStub { track: Option::None, ..s0 })
        },
        RemoteRequest::SavedTracksAdd { .. } => {
            &&& (resp matches RemoteResponse::Ack(r) && scripted(s0.ack, r))
            &&& s1 == (RemoteStub { ack: Option::None, ..s0 })
        },
        RemoteRequest::SavedTracksDelete { .. } => {
            &&& (resp matches RemoteResponse::Ack(r) && scripted(s0.ack, r))
            &&& s1 == (RemoteStub { ack: Option::None, ..s0 })
        },
        RemoteRequest::FollowedArtists { .. } => {
            &&& (resp matches RemoteResponse::ArtistsPage(r) && scripted(s0.followed_artists, r))
            &&& s1 == (RemoteStub { followed_artists: Option::None, ..s0 })
        },
        RemoteRequest::SavedAlbums { .. } => {
            &&& (resp matches RemoteResponse::AlbumsPage(r) && scripted(s0.saved_albums, r))
            &&& s1 == (RemoteStub { saved_albums: Option::None, ..s0 })
        },
        RemoteRequest::SavedAlbumsAdd { .. } => {
            &&& (resp matches RemoteResponse::Ack(r) && scripted(s0.ack, r))
            &&& s1 == (RemoteStub { ack: Option::None, ..s0 })
        },
        RemoteRequest::SavedAlbumsDelete { .. } => {
            &&& (resp matches RemoteResponse::Ack(r) && scripted(s0.ack, r))
            &&& s1 == (RemoteStub { ack: Option::None, ..s0 })
        },
        RemoteRequest::FollowArtists { .. } => {
            &&& (resp matches RemoteResponse::Ack(r) && scripted(s0.ack, r))
            &&& s1 == (RemoteStub { ack: Option::None, ..s0 })
        },
        RemoteRequest::UnfollowArtists { .. } => {
            &&& (resp matches RemoteResponse::Ack(r) && scripted(s0.ack, r))
            &&& s1 == (RemoteStub { ack: Option::None, ..s0 })
        },
        RemoteRequest::FollowPlaylist { .. } => {
            &&& (resp matches RemoteResponse::Ack(r) && scripted(s0.ack, r))
            &&& s1 == (RemoteStub { ack: Option::None, ..s0 })
        },
        RemoteRequest::UnfollowPlaylist { .. } => {
            &&& (resp matches RemoteResponse::Ack(r) && scripted(s0.ack, r))
            &&& s1 == (RemoteStub { ack: Option::None, ..s0 })
        },
        RemoteRequest::AudioAnalysisFor { .. } => {
            &&& (resp matches RemoteResponse::Analysis(r) && scripted(s0.analysis, r))
            &&& s1 == (RemoteStub { analysis: Option::None, ..s0 })
        },
        RemoteRequest::CurrentUserPlaylists { .. } => {
            &&& (resp matches RemoteResponse::PlaylistsPage(r) && scripted(s0.playlists, r))
            &&& s1 == (RemoteStub { playlists: Option::None, ..s0 })
        },
        RemoteRequest::RecentlyPlayed { .. } => {
            &&& (resp matches RemoteResponse::RecentPage(r) && scripted(s0.recently_played, r))
            &&& s1 == (RemoteStub { recently_played: Option::None, ..s0 })
        },
        RemoteRequest::AlbumInfo { .. } => {
            &&& (resp matches RemoteResponse::FullAlbumInfo(r) && scripted(s0.full_album, r))
            &&& s1 == (RemoteStub { full_album: Option::None, ..s0 })
        },
        RemoteRequest::WriteDeviceConfig { .. } => {
            &&& (resp matches RemoteResponse::ConfigAck(r) && scripted(s0.config_write, r))
            &&& s1 == (RemoteStub { config_write: Option::None, ..s0 })
        },
    }
}

impl RemoteStub {
    /// A script with no answers: every request fails anonymously and
    /// nothing is marked saved.
    pub fn empty() -> (r: Self)
        ensures
            r.liked@ == Set::<Seq<char>>::empty(),
            r.liked.wf(),
    {
        RemoteStub {
            token: Option::None,
            liked: LikedSet::new(),
            contains_error: Option::None,
            user: Option::None,
            devices: Option::None,
            playback: Option::None,
            playlist_tracks: Option::None,
            saved_tracks: Option::None,
            album_tracks: Option::None,
            search_tracks: Option::None,
            search_artists: Option::None,
            search_albums: Option::None,
            search_playlists: Option::None,
            ack: Option::None,
            artist_profile: Option::None,
            artist_albums: Option::None,
            top_tracks: Option::None,
            related_artists: Option::None,
            recommendations: Option::None,
            tracks_info: Option::None,
            track: Option::None,
            followed_artists: Option::None,
            saved_albums: Option::None,
            playlists: Option::None,
            analysis: Option::None,
            recently_played: Option::None,
            full_album: Option::None,
            config_write: Option::None,
        }
    }

    /// Answers one request from the script, as [`answer_post`] describes:
    /// the matching field is consumed, its content (or the anonymous
    /// failure) comes back in the response shape the request elicits, and a
    /// membership check without a scripted failure is answered truthfully
    /// from `liked`, identifier by identifier.
    #[verifier::rlimit(100)]
    pub fn answer(&mut self, req: &RemoteRequest) -> (resp: RemoteResponse)
        ensures
            resp_tag(resp) == req_tag(*req),
            answer_post(*old(self), *final(self), *req, resp),
    {
        proof {
            reveal(crate::driver::answer_post);
        }
        match req {
            RemoteRequest::RefreshToken => RemoteResponse::Token(self.token.take()),
            RemoteRequest::CurrentUser => RemoteResponse::User(missing(self.user.take())),
            RemoteRequest::GetDevices => RemoteResponse::Devices(missing(self.devices.take())),
            RemoteRequest::CurrentPlayback => RemoteResponse::Playback(
                missing(self.playback.take()),
            ),
            RemoteRequest::SavedTracksContains { ids } => {
                match self.contains_error.take() {
                    Option::Some(e) => RemoteResponse::Contains(Result::Err(e)),
                    Option::None => {
                        let mut flags: Vec<bool> = Vec::new();
                        let mut i: usize = 0;
                        while i < ids.len()
                            invariant
                                i <= ids@.len(),
                                flags@.len() == i,
                                forall|j: int|
                                    0 <= j < i ==> flags@[j] == self.liked@.contains(ids@[j]@),
                                self.liked == old(self).liked,
                            decreases ids@.len() - i,
                        {
                            flags.push(self.liked.contains(&ids[i]));
                            i = i + 1;
                        }
                        RemoteResponse::Contains(Result::Ok(flags))
                    },
                }
            },
            RemoteRequest::PlaylistTracks { .. } => RemoteResponse::TrackPage(
                missing(self.playlist_tracks.take()),
            ),
            RemoteRequest::SearchTracks { .. } => RemoteResponse::SearchTracksPage(
                missing(self.search_tracks.take()),
            ),
            RemoteRequest::SearchArtists { .. } => RemoteResponse::SearchArtistsPage(
                missing(self.search_artists.take()),
            ),
            RemoteRequest::SearchAlbums { .. } => RemoteResponse::SearchAlbumsPage(
                missing(self.search_albums.take()),
            ),
            RemoteRequest::SearchPlaylists { .. } => RemoteResponse::SearchPlaylistsPage(
                missing(self.search_playlists.take()),
            ),
            RemoteRequest::SavedTracks { .. } => RemoteResponse::SavedTracksPage(
                missing(self.saved_tracks.take()),
            ),
            RemoteRequest::StartPlayback { .. } => RemoteResponse::Ack(missing(self.ack.take())),
            RemoteRequest::SeekTrack { .. } => RemoteResponse::Ack(missing(self.ack.take())),
            RemoteRequest::NextTrack { .. } => RemoteResponse::Ack(missing(self.ack.take())),
            RemoteRequest::PreviousTrack { .. } => RemoteResponse::Ack(missing(self.ack.take())),
            RemoteRequest::PausePlayback { .. } => RemoteResponse::Ack(missing(self.ack.take())),
            RemoteRequest::SetShuffle { .. } => RemoteResponse::Ack(missing(self.ack.take())),
            RemoteRequest::SetRepeat { .. } => RemoteResponse::Ack(missing(self.ack.take())),
            RemoteRequest::SetVolume { .. } => RemoteResponse::Ack(missing(self.ack.take())),
            RemoteRequest::ArtistProfile { .. } => RemoteResponse::ArtistProfileInfo(
                missing(self.artist_profile.take()),
            ),
            RemoteRequest::ArtistAlbums { .. } => RemoteResponse::ArtistAlbumsPage(
                missing(self.artist_albums.take()),
            ),
            RemoteRequest::ArtistTopTracks { .. } => RemoteResponse::TopTracks(
                missing(self.top_tracks.take()),
            ),
            RemoteRequest::RelatedArtists { .. } => RemoteResponse::Related(
                missing(self.related_artists.take()),
            ),
            RemoteRequest::AlbumTracks { .. } => RemoteResponse::AlbumTracksPage(
                missing(self.album_tracks.take()),
            ),
            RemoteRequest::Recommendations { .. } => RemoteResponse::RecommendedUris(
                missing(self.recommendations.take()),
            ),
            RemoteRequest::TracksInfo { .. } => RemoteResponse::TracksList(
                missing(self.tracks_info.take()),
            ),
            RemoteRequest::TrackInfo { .. } => RemoteResponse::TrackObject(
                missing(self.track.take()),
            ),
            RemoteRequest::SavedTracksAdd { .. } => RemoteResponse::Ack(missing(self.ack.take())),
            RemoteRequest::SavedTracksDelete { .. } => RemoteResponse::Ack(
                missing(self.ack.take()),
            ),
            RemoteRequest::FollowedArtists { .. } => RemoteResponse::ArtistsPage(
                missing(self.followed_artists.take()),
            ),
            RemoteRequest::SavedAlbums { .. } => RemoteResponse::AlbumsPage(
                missing(self.saved_albums.take()),
            ),
            RemoteRequest::SavedAlbumsAdd { .. } => RemoteResponse::Ack(missing(self.ack.take())),
            RemoteRequest::SavedAlbumsDelete { .. } => RemoteResponse::Ack(
                missing(self.ack.take()),
            ),
            RemoteRequest::FollowArtists { .. } => RemoteResponse::Ack(missing(self.ack.take())),
            RemoteRequest::UnfollowArtists { .. } => RemoteResponse::Ack(missing(self.ack.take())),
            RemoteRequest::FollowPlaylist { .. } => RemoteResponse::Ack(missing(self.ack.take())),
            RemoteRequest::UnfollowPlaylist { .. } => RemoteResponse::Ack(
                missing(self.ack.take()),
            ),
            RemoteRequest::AudioAnalysisFor { .. } => RemoteResponse::Analysis(
                missing(self.analysis.take()),
            ),
            RemoteRequest::CurrentUserPlaylists { .. } => RemoteResponse::PlaylistsPage(
                missing(self.playlists.take()),
            ),
            RemoteRequest::RecentlyPlayed { .. } => RemoteResponse::RecentPage(
                missing(self.recently_played.take()),
            ),
            RemoteRequest::AlbumInfo { .. } => RemoteResponse::FullAlbumInfo(
                missing(self.full_album.take()),
            ),
            RemoteRequest::WriteDeviceConfig { .. } => RemoteResponse::ConfigAck(
                missing(self.config_write.take()),
            ),
        }
    }
}

/// Dispatches one command to completion against a scripted remote: sets the
/// loading flag as the rendering layer would, issues the command, performs
/// every request the dispatcher asks for in order, and returns the requests
/// that were issued. Whatever the script answered, the command completes,
/// the dispatcher returns to rest, and the loading flag ends false.
pub fn run_dispatch(
    net: &mut Network,
    app: &mut AppState,
    stub: &mut RemoteStub,
    io_event: IoEvent,
    now_ms: u64,
) -> (log: Vec<RemoteRequest>)
    requires
        old(net).phase is Idle,
        old(app).wf(),
    ensures
        final(app).wf(),
        final(net).phase is Idle,
        !final(app).is_loading,
{
    app.is_loading = true;
    let mut queue: Vec<RemoteRequest> = net.handle_network_event(io_event, app);
    let mut log: Vec<RemoteRequest> = Vec::new();
    while queue.len() > 0
        invariant
            app.wf(),
            req_tags(queue@) == awaited(net.phase),
            (net.phase is Idle) <==> (awaited(net.phase).len() == 0),
            net.phase is Idle ==> !app.is_loading,
        decreases rank(net.phase),
    {
        let ghost q0 = queue@;
        proof {
            assert(req_tags(q0).len() == q0.len());
            assert(req_tags(q0)[0] == req_tag(q0[0]));
        }
        let req = queue.remove(0);
        let resp = stub.answer(&req);
        log.push(req);
        let mut more = net.handle_response(app, resp, now_ms);
        let ghost m0 = more@;
        queue.append(&mut more);
        proof {
            assert(queue@ == q0.subrange(1, q0.len() as int) + m0);
            crate::request::lemma_req_tags_concat(q0.subrange(1, q0.len() as int), m0);
            crate::request::lemma_req_tags_subrange(q0, 1, q0.len() as int);
            assert(req_tags(queue@) == awaited(net.phase));
        }
    }
    proof {
        assert(req_tags(queue@).len() == 0);
        assert(awaited(net.phase).len() == 0);
    }
    log
}

} // verus!
