//! Plain-value data model: everything the dispatcher reads from remote
//! responses or writes into the shared state, stripped down to the fields the
//! core logic and the rendering layer consume.

use vstd::prelude::*;

verus! {

/// A typed failure returned by the remote capability. The core does not
/// distinguish failures beyond "failed"; it keeps the message for display.
#[derive(Debug, PartialEq, Eq)]
pub struct RemoteError {
    pub message: String,
}

/// The failures the dispatcher records into the shared state.
#[derive(Debug, PartialEq, Eq)]
pub enum StateError {
    /// A remote call failed; the message is kept for display.
    Remote(String),
    /// A transport command was dispatched while no output device is selected.
    NoSelectedDevice,
    /// The credential refresh exchange did not yield a new token.
    CredentialRefresh,
    /// Persisting the selected output device failed.
    Config(String),
}

/// Repeat mode of the playback context.
#[derive(Clone, Copy, Debug, PartialEq, Eq, Structural)]
pub enum RepeatState {
    Off,
    Context,
    Track,
}

/// Routes the rendering layer can display; the navigation stack holds these.
#[derive(Clone, Copy, Debug, PartialEq, Eq, Structural)]
pub enum RouteId {
    Home,
    TrackTable,
    AlbumTracks,
    RecentlyPlayed,
    SelectedDevice,
    Analysis,
    Recommendations,
}

/// The panel that holds focus for a given route.
#[derive(Clone, Copy, Debug, PartialEq, Eq, Structural)]
pub enum ActiveBlock {
    Empty,
    SelectDevice,
    TrackTable,
    AlbumTracks,
    RecentlyPlayed,
    Analysis,
}

/// Focus state inside the artist view.
#[derive(Clone, Copy, Debug, PartialEq, Eq, Structural)]
pub enum ArtistBlock {
    Empty,
    TopTracks,
    Albums,
    RelatedArtists,
}

/// What the track table currently shows.
#[derive(Clone, Copy, Debug, PartialEq, Eq, Structural)]
pub enum TrackTableContext {
    SavedTracks,
    RecommendedTracks,
}

/// Which album representation the album view shows.
#[derive(Clone, Copy, Debug, PartialEq, Eq, Structural)]
pub enum AlbumTableContext {
    Simplified,
    Full,
}

/// One entry of the navigation stack.
#[derive(Clone, Copy, Debug, PartialEq, Eq, Structural)]
pub struct Route {
    pub id: RouteId,
    pub active_block: ActiveBlock,
}

/// A track, reduced to the fields the core reads: the catalog identifier
/// (absent for local files), the playback URI, and the display name.
#[derive(Debug, PartialEq, Eq)]
pub struct Track {
    pub id: Option<String>,
    pub uri: String,
    pub name: String,
}

/// An album as it appears in lists; the identifier is absent for some
/// relinked catalog entries.
#[derive(Debug, PartialEq, Eq)]
pub struct AlbumSummary {
    pub id: Option<String>,
    pub name: String,
}

/// An artist as it appears in lists.
#[derive(Debug, PartialEq, Eq)]
pub struct ArtistSummary {
    pub id: String,
    pub name: String,
}

/// A playlist as it appears in lists and search results.
#[derive(Debug, PartialEq, Eq)]
pub struct PlaylistSummary {
    pub id: String,
    pub name: String,
    pub owner_id: String,
}

/// The signed-in user.
#[derive(Debug, PartialEq, Eq)]
pub struct UserProfile {
    pub id: String,
    pub display_name: Option<String>,
}

/// An output device known to the account.
#[derive(Debug, PartialEq, Eq)]
pub struct Device {
    pub id: Option<String>,
    pub name: String,
    pub volume_percent: u32,
}

/// One page of a paginated result set.
#[derive(Debug, PartialEq, Eq)]
pub struct Page<T> {
    pub items: Vec<T>,
    pub offset: u32,
    pub total: u32,
}

/// A full album object, with its own track page.
#[derive(Debug, PartialEq, Eq)]
pub struct FullAlbum {
    pub id: String,
    pub name: String,
    pub tracks: Page<Track>,
}

/// An album selected from a list view, shown with its tracks.
#[derive(Debug, PartialEq, Eq)]
pub struct SelectedAlbum {
    pub album: AlbumSummary,
    pub tracks: Page<Track>,
    pub selected_index: usize,
}

/// An album opened from its full object.
#[derive(Debug, PartialEq, Eq)]
pub struct SelectedFullAlbum {
    pub album: FullAlbum,
    pub selected_index: usize,
}

/// The artist view: catalog, top tracks and related artists, fetched jointly.
#[derive(Debug, PartialEq, Eq)]
pub struct Artist {
    pub artist_name: String,
    pub albums: Page<AlbumSummary>,
    pub related_artists: Vec<ArtistSummary>,
    pub top_tracks: Vec<Track>,
    pub selected_album_index: usize,
    pub selected_related_artist_index: usize,
    pub selected_top_track_index: usize,
    pub artist_hovered_block: ArtistBlock,
    pub artist_selected_block: ArtistBlock,
}

/// An audio analysis, reduced to the section counts the rendering layer
/// plots; the per-section timings stay with the embedding.
#[derive(Debug, PartialEq, Eq)]
pub struct AudioAnalysis {
    pub bars: u32,
    pub beats: u32,
    pub sections: u32,
    pub segments: u32,
}

/// An access token as the authorization exchange returns it.
#[derive(Debug, PartialEq, Eq)]
pub struct TokenInfo {
    pub access_token: String,
    pub expires_in: u32,
}

/// The last known playback snapshot.
#[derive(Debug, PartialEq, Eq)]
pub struct PlaybackContext {
    pub track: Option<Track>,
    pub shuffle_state: bool,
    pub repeat_state: RepeatState,
    pub device: Device,
}

impl Clone for Track {
    /// Field-for-field copy; the contract records that nothing is lost.
    fn clone(&self) -> (r: Self)
        ensures
            r == *self,
    {
        let r = Track { id: clone_opt_string(&self.id), uri: self.uri.clone(), name: self.name.clone() };
        proof {
            assert(r == *self);
        }
        r
    }
}

impl Clone for ArtistSummary {
    /// Field-for-field copy; the contract records that nothing is lost.
    fn clone(&self) -> (r: Self)
        ensures
            r == *self,
    {
        let r = ArtistSummary { id: self.id.clone(), name: self.name.clone() };
        proof {
            assert(r == *self);
        }
        r
    }
}

impl Clone for PlaylistSummary {
    /// Field-for-field copy; the contract records that nothing is lost.
    fn clone(&self) -> (r: Self)
        ensures
            r == *self,
    {
        let r = PlaylistSummary {
            id: self.id.clone(),
            name: self.name.clone(),
            owner_id: self.owner_id.clone(),
        };
        proof {
            assert(r == *self);
        }
        r
    }
}

/// Copies a list of artists, keeping order and values.
pub fn clone_artist_summaries(v: &Vec<ArtistSummary>) -> (r: Vec<ArtistSummary>)
    ensures
        r@ == v@,
{
    let mut r: Vec<ArtistSummary> = Vec::new();
    let mut i: usize = 0;
    while i < v.len()
        invariant
            i <= v.len(),
            r@ == v@.subrange(0, i as int),
        decreases v.len() - i,
    {
        r.push(v[i].clone());
        proof {
            assert(r@ =~= v@.subrange(0, i + 1 as int));
        }
        i = i + 1;
    }
    proof {
        assert(r@ =~= v@);
    }
    r
}

/// Copies an optional string; `String::clone` keeps the value.
pub fn clone_opt_string(o: &Option<String>) -> (r: Option<String>)
    ensures
        r == *o,
{
    match o {
        Option::Some(s) => Option::Some(s.clone()),
        Option::None => Option::None,
    }
}

/// Copies a list of strings, keeping order and values.
pub fn clone_strings(v: &Vec<String>) -> (r: Vec<String>)
    ensures
        r@ == v@,
{
    let mut r: Vec<String> = Vec::new();
    let mut i: usize = 0;
    while i < v.len()
        invariant
            i <= v.len(),
            r@ == v@.subrange(0, i as int),
        decreases v.len() - i,
    {
        r.push(v[i].clone());
        proof {
            assert(r@ =~= v@.subrange(0, i + 1 as int));
        }
        i = i + 1;
    }
    proof {
        assert(r@ =~= v@);
    }
    r
}

/// Copies a list of tracks, keeping order and values.
pub fn clone_tracks(v: &Vec<Track>) -> (r: Vec<Track>)
    ensures
        r@ == v@,
{
    let mut r: Vec<Track> = Vec::new();
    let mut i: usize = 0;
    while i < v.len()
        invariant
            i <= v.len(),
            r@ == v@.subrange(0, i as int),
        decreases v.len() - i,
    {
        r.push(v[i].clone());
        proof {
            assert(r@ =~= v@.subrange(0, i + 1 as int));
        }
        i = i + 1;
    }
    proof {
        assert(r@ =~= v@);
    }
    r
}

} // verus!
