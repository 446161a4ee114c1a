//! The shared application state: the single aggregate the rendering layer
//! reads and the dispatcher writes. Every write the dispatcher performs goes
//! through a method here, with a contract that pins the new value.

use vstd::prelude::*;
use crate::model::{
    ActiveBlock, AlbumSummary, AlbumTableContext, Artist, ArtistSummary, AudioAnalysis, Device,
    Page, PlaybackContext, PlaylistSummary, Route, RouteId, SelectedAlbum, SelectedFullAlbum,
    RemoteError, StateError, Track, TrackTableContext, UserProfile,
};
use crate::pagination::ScrollableResultPages;

verus! {

/// The set of track identifiers currently known to be saved ("liked") by the
/// user. Held as a duplicate-free list; viewed as a set of identifier texts.
#[derive(Debug, PartialEq, Eq)]
pub struct LikedSet {
    pub ids: Vec<String>,
}

/// The texts of a sequence of strings.
pub open spec fn str_seq(ids: Seq<String>) -> Seq<Seq<char>> {
    ids.map_values(|s: String| s@)
}

impl View for LikedSet {
    type V = Set<Seq<char>>;

    open spec fn view(&self) -> Set<Seq<char>> {
        str_seq(self.ids@).to_set()
    }
}

impl LikedSet {
    /// No identifier occurs twice.
    pub open spec fn wf(self) -> bool {
        forall|i: int, j: int|
            0 <= i < j < self.ids@.len() ==> self.ids@[i]@ != self.ids@[j]@
    }

    pub fn new() -> (r: Self)
        ensures
            r@ == Set::<Seq<char>>::empty(),
            r.wf(),
    {
        let r = LikedSet { ids: Vec::new() };
        proof {
            assert(r@ =~= Set::<Seq<char>>::empty());
        }
        r
    }

    /// Whether `id` is known to be liked.
    pub fn contains(&self, id: &String) -> (r: bool)
        ensures
            r == self@.contains(id@),
    {
        let mut i: usize = 0;
        while i < self.ids.len()
            invariant
                i <= self.ids@.len(),
                forall|j: int| 0 <= j < i ==> self.ids@[j]@ != id@,
            decreases self.ids@.len() - i,
        {
            if self.ids[i].eq(id) {
                proof {
                    assert(str_seq(self.ids@)[i as int] == id@);
                    assert(str_seq(self.ids@).contains(id@));
                }
                return true;
            }
            i = i + 1;
        }
        proof {
            let m = str_seq(self.ids@);
            assert forall|j: int| 0 <= j < m.len() implies m[j] != id@ by {
                assert(m[j] == self.ids@[j]@);
            };
            assert(!m.contains(id@));
        }
        false
    }

    /// Marks `id` liked. The set gains `id` and keeps everything else.
    pub fn insert(&mut self, id: String)
        requires
            old(self).wf(),
        ensures
            final(self)@ == old(self)@.insert(id@),
            final(self).wf(),
    {
        if !self.contains(&id) {
            let ghost gid = id@;
            let ghost before = self.ids@;
            self.ids.push(id);
            proof {
                let m0 = str_seq(before);
                let m1 = str_seq(self.ids@);
                assert(!m0.contains(gid));
                assert forall|k: int| 0 <= k < m1.len() implies m1[k] == (if k < m0.len() {
                    m0[k]
                } else {
                    gid
                }) by {
                    assert(m1[k] == self.ids@[k]@);
                    if k < m0.len() {
                        assert(m0[k] == before[k]@);
                    }
                };
                assert forall|y: Seq<char>| m1.contains(y) implies m0.to_set().insert(
                    gid,
                ).contains(y) by {
                    let k = choose|k: int| 0 <= k < m1.len() && m1[k] == y;
                    if k < m0.len() {
                        assert(m0.contains(y));
                    }
                };
                assert forall|y: Seq<char>|
                    m0.to_set().insert(gid).contains(y) implies m1.contains(y) by {
                    if m0.contains(y) {
                        let k = choose|k: int| 0 <= k < m0.len() && m0[k] == y;
                        assert(m1[k] == y);
                    } else {
                        assert(m1[m1.len() - 1] == gid);
                    }
                };
                assert(self@ =~= old(self)@.insert(gid));
                assert forall|i: int, j: int|
                    0 <= i < j < self.ids@.len() implies self.ids@[i]@ != self.ids@[j]@ by {
                    if j == self.ids@.len() - 1 {
                        assert(m0[i] == before[i]@);
                        assert(!m0.contains(gid));
                    } else {
                        assert(before[i]@ != before[j]@);
                    }
                }
            }
        } else {
            proof {
                assert(self@ =~= old(self)@.insert(id@));
            }
        }
    }

    /// Unmarks `id`. The set loses `id` and keeps everything else.
    pub fn remove(&mut self, id: &String)
        requires
            old(self).wf(),
        ensures
            final(self)@ == old(self)@.remove(id@),
            final(self).wf(),
    {
        let ghost gid = id@;
        let mut i: usize = 0;
        while i < self.ids.len()
            invariant
                i <= self.ids@.len(),
                forall|j: int| 0 <= j < i ==> self.ids@[j]@ != gid,
                old(self).wf(),
                self.ids@ == old(self).ids@,
                gid == id@,
            decreases self.ids@.len() - i,
        {
            if self.ids[i].eq(id) {
                let ghost before = self.ids@;
                self.ids.remove(i);
                proof {
                    let m0 = str_seq(before);
                    let m1 = str_seq(self.ids@);
                    assert(before[i as int]@ == gid);
                    before.remove_ensures(i as int);
                    assert forall|k: int| 0 <= k < m1.len() implies m1[k] == (if k < i {
                        before[k]@
                    } else {
                        before[k + 1]@
                    }) by {
                        assert(m1[k] == self.ids@[k]@);
                    };
                    assert forall|k: int| 0 <= k < m0.len() implies m0[k] == before[k]@ by {};
                    // the removed text occurs nowhere else
                    assert forall|k: int| 0 <= k < m1.len() implies m1[k] != gid by {
                        if k < i {
                            assert(before[k]@ != gid);
                        } else {
                            assert(before[i as int]@ != before[k + 1]@);
                        }
                    };
                    assert forall|y: Seq<char>| m1.contains(y) implies m0.to_set().remove(
                        gid,
                    ).contains(y) by {
                        let k = choose|k: int| 0 <= k < m1.len() && m1[k] == y;
                        if k < i {
                            assert(m0[k] == y);
                        } else {
                            assert(m0[k + 1] == y);
                        }
                        assert(y != gid);
                    };
                    assert forall|y: Seq<char>|
                        m0.to_set().remove(gid).contains(y) implies m1.contains(y) by {
                        let k = choose|k: int| 0 <= k < m0.len() && m0[k] == y;
                        if k < i {
                            assert(m1[k] == y);
                        } else if k == i {
                            assert(m0[i as int] == gid);
                        } else {
                            assert(m1[k - 1] == y);
                        }
                    };
                    assert(self@ =~= old(self)@.remove(gid));
                    assert forall|a: int, b: int|
                        0 <= a < b < self.ids@.len() implies self.ids@[a]@ != self.ids@[b]@ by {
                        if b < i {
                            assert(before[a]@ != before[b]@);
                        } else if a < i {
                            assert(before[a]@ != before[b + 1]@);
                        } else {
                            assert(before[a + 1]@ != before[b + 1]@);
                        }
                    }
                }
                return ;
            }
            i = i + 1;
        }
        proof {
            let m = str_seq(self.ids@);
            assert forall|j: int| 0 <= j < m.len() implies m[j] != gid by {
                assert(m[j] == self.ids@[j]@);
            };
            assert(!m.contains(gid));
            assert(self@ =~= old(self)@.remove(gid));
        }
    }
}

/// The table of tracks currently shown.
#[derive(Debug, PartialEq, Eq)]
pub struct TrackTable {
    pub tracks: Vec<Track>,
    pub context: Option<TrackTableContext>,
}

/// The four facets of the last search.
#[derive(Debug, PartialEq, Eq)]
pub struct SearchResults {
    pub tracks: Option<Page<Track>>,
    pub artists: Option<Page<ArtistSummary>>,
    pub albums: Option<Page<AlbumSummary>>,
    pub playlists: Option<Page<PlaylistSummary>>,
}

/// The user's library: the four paginated collections the client accumulates.
#[derive(Debug, PartialEq, Eq)]
pub struct Library {
    pub saved_tracks: ScrollableResultPages<Page<Track>>,
    pub saved_albums: ScrollableResultPages<Page<AlbumSummary>>,
    pub saved_artists: ScrollableResultPages<Page<ArtistSummary>>,
    pub made_for_you_playlists: ScrollableResultPages<Page<PlaylistSummary>>,
}

/// Everything the rendering layer can display. Created once at process start
/// with empty substructures; written only by the dispatcher.
#[derive(Debug, PartialEq, Eq)]
pub struct AppState {
    pub is_loading: bool,
    pub api_error: Option<StateError>,
    pub liked_song_ids_set: LikedSet,
    pub navigation_stack: Vec<Route>,
    pub user: Option<UserProfile>,
    pub devices: Option<Vec<Device>>,
    pub selected_device_index: Option<usize>,
    pub current_playback_context: Option<PlaybackContext>,
    pub last_playback_poll_ms: u64,
    pub song_progress_ms: u64,
    pub track_table: TrackTable,
    pub playlist_tracks: Option<Page<Track>>,
    pub made_for_you_tracks: Option<Page<Track>>,
    pub search_results: SearchResults,
    pub library: Library,
    pub artists: Vec<ArtistSummary>,
    pub artist: Option<Artist>,
    pub selected_album_simplified: Option<SelectedAlbum>,
    pub selected_album_full: Option<SelectedFullAlbum>,
    pub album_table_context: AlbumTableContext,
    pub playlists: Option<Page<PlaylistSummary>>,
    pub selected_playlist_index: Option<usize>,
    pub recently_played: Option<Page<Track>>,
    pub recommended_tracks: Vec<Track>,
    pub audio_analysis: Option<AudioAnalysis>,
}

/// The route shown when the navigation stack holds `routes`: its top, or the
/// home route while the stack is empty.
pub open spec fn current_route_spec(routes: Seq<Route>) -> Route {
    if routes.len() > 0 {
        routes.last()
    } else {
        Route { id: RouteId::Home, active_block: ActiveBlock::Empty }
    }
}

/// The navigation stack after a push of `r`: unchanged when the shown route
/// already is `r`'s route, else with `r` appended.
pub open spec fn push_route_spec(routes: Seq<Route>, r: Route) -> Seq<Route> {
    if current_route_spec(routes).id == r.id {
        routes
    } else {
        routes.push(r)
    }
}

/// One step of the liked-membership merge: a positive answer marks the
/// identifier liked, a negative one unmarks it.
pub open spec fn merge_step(liked: Set<Seq<char>>, idt: Seq<char>, flag: bool) -> Set<Seq<char>> {
    if flag {
        liked.insert(idt)
    } else {
        liked.remove(idt)
    }
}

/// The liked set after the first `n` identifiers of `ids` have been merged
/// against `flags`; identifiers without an answer are skipped.
pub open spec fn saved_check_prefix(
    liked: Set<Seq<char>>,
    ids: Seq<Seq<char>>,
    flags: Seq<bool>,
    n: int,
) -> Set<Seq<char>>
    decreases n,
{
    if n <= 0 {
        liked
    } else {
        let prev = saved_check_prefix(liked, ids, flags, n - 1);
        if n - 1 < flags.len() {
            merge_step(prev, ids[n - 1], flags[n - 1])
        } else {
            prev
        }
    }
}

/// The liked set after a whole membership answer has been merged.
pub open spec fn saved_check_merge(
    liked: Set<Seq<char>>,
    ids: Seq<Seq<char>>,
    flags: Seq<bool>,
) -> Set<Seq<char>> {
    saved_check_prefix(liked, ids, flags, ids.len() as int)
}

/// The liked set after the identifiers of the first `n` of `items` (those
/// that have one) have been marked liked.
pub open spec fn liked_with_saved_prefix(
    liked: Set<Seq<char>>,
    items: Seq<Track>,
    n: int,
) -> Set<Seq<char>>
    decreases n,
{
    if n <= 0 {
        liked
    } else {
        let prev = liked_with_saved_prefix(liked, items, n - 1);
        match items[n - 1].id {
            Option::Some(id) => prev.insert(id@),
            Option::None => prev,
        }
    }
}

/// The liked set after a whole page of saved tracks has been marked liked.
pub open spec fn liked_with_saved(liked: Set<Seq<char>>, items: Seq<Track>) -> Set<Seq<char>> {
    liked_with_saved_prefix(liked, items, items.len() as int)
}

/// The identifiers of the tracks that have one, in track order.
pub open spec fn track_ids_vals(ts: Seq<Track>) -> Seq<String>
    decreases ts.len(),
{
    if ts.len() == 0 {
        Seq::empty()
    } else {
        track_ids_vals(ts.drop_last()) + match ts.last().id {
            Option::Some(id) => seq![id],
            Option::None => Seq::empty(),
        }
    }
}

/// The playback URIs of the tracks, in track order.
pub open spec fn track_uris_vals(ts: Seq<Track>) -> Seq<String> {
    ts.map_values(|t: Track| t.uri)
}

/// Collects the identifiers of the tracks that have one, in order; this is
/// what every liked-membership check is issued for.
pub fn track_id_list(tracks: &Vec<Track>) -> (ids: Vec<String>)
    ensures
        ids@ == track_ids_vals(tracks@),
{
    let mut ids: Vec<String> = Vec::new();
    let mut i: usize = 0;
    while i < tracks.len()
        invariant
            i <= tracks@.len(),
            ids@ == track_ids_vals(tracks@.take(i as int)),
        decreases tracks@.len() - i,
    {
        match &tracks[i].id {
            Option::Some(id) => {
                ids.push(id.clone());
            },
            Option::None => {},
        }
        proof {
            let pre = tracks@.take(i as int);
            let cur = tracks@.take(i + 1 as int);
            assert(cur.drop_last() =~= pre);
            assert(cur.last() == tracks@[i as int]);
            assert(ids@ =~= track_ids_vals(cur));
        }
        i = i + 1;
    }
    proof {
        assert(tracks@.take(tracks@.len() as int) =~= tracks@);
    }
    ids
}

/// Collects the playback URIs of the tracks, in order; this is what a
/// playback start is issued with.
pub fn track_uri_list(tracks: &Vec<Track>) -> (uris: Vec<String>)
    ensures
        uris@ == track_uris_vals(tracks@),
{
    let mut uris: Vec<String> = Vec::new();
    let mut i: usize = 0;
    while i < tracks.len()
        invariant
            i <= tracks@.len(),
            uris@ == track_uris_vals(tracks@.take(i as int)),
        decreases tracks@.len() - i,
    {
        uris.push(tracks[i].uri.clone());
        proof {
            let pre = tracks@.take(i as int);
            let cur = tracks@.take(i + 1 as int);
            assert forall|k: int| 0 <= k < cur.len() implies track_uris_vals(cur)[k]
                == uris@[k] by {
                assert(track_uris_vals(cur)[k] == cur[k].uri);
                if k < pre.len() {
                    assert(track_uris_vals(pre)[k] == pre[k].uri);
                    assert(cur[k] == pre[k]);
                } else {
                    assert(cur[k] == tracks@[i as int]);
                }
            };
            assert(uris@ =~= track_uris_vals(cur));
        }
        i = i + 1;
    }
    proof {
        assert(tracks@.take(tracks@.len() as int) =~= tracks@);
    }
    uris
}

impl AppState {
    /// The structural invariants of the aggregate.
    pub open spec fn wf(self) -> bool {
        &&& self.liked_song_ids_set.wf()
        &&& self.library.saved_tracks.wf()
        &&& self.library.saved_albums.wf()
        &&& self.library.saved_artists.wf()
        &&& self.library.made_for_you_playlists.wf()
    }

    /// The state at process start: nothing loaded, the home route shown.
    pub fn new() -> (r: Self)
        ensures
            r.wf(),
            !r.is_loading,
            r.api_error is None,
            r.liked_song_ids_set@ == Set::<Seq<char>>::empty(),
            r.navigation_stack@ == seq![
                Route { id: RouteId::Home, active_block: ActiveBlock::Empty },
            ],
            r.user is None,
            r.devices is None,
            r.selected_device_index is None,
            r.current_playback_context is None,
            r.last_playback_poll_ms == 0,
            r.song_progress_ms == 0,
            r.track_table.tracks@ == Seq::<Track>::empty(),
            r.track_table.context is None,
            r.playlist_tracks is None,
            r.made_for_you_tracks is None,
            r.search_results.tracks is None,
            r.search_results.artists is None,
            r.search_results.albums is None,
            r.search_results.playlists is None,
            r.library.saved_tracks.pages@ == Seq::<Page<Track>>::empty(),
            r.library.saved_albums.pages@ == Seq::<Page<AlbumSummary>>::empty(),
            r.library.saved_artists.pages@ == Seq::<Page<ArtistSummary>>::empty(),
            r.library.made_for_you_playlists.pages@ == Seq::<Page<PlaylistSummary>>::empty(),
            r.artists@ == Seq::<ArtistSummary>::empty(),
            r.artist is None,
            r.selected_album_simplified is None,
            r.selected_album_full is None,
            r.album_table_context == AlbumTableContext::Full,
            r.playlists is None,
            r.selected_playlist_index is None,
            r.recently_played is None,
            r.recommended_tracks@ == Seq::<Track>::empty(),
            r.audio_analysis is None,
    {
        let mut navigation_stack: Vec<Route> = Vec::new();
        navigation_stack.push(Route { id: RouteId::Home, active_block: ActiveBlock::Empty });
        AppState {
            is_loading: false,
            api_error: Option::None,
            liked_song_ids_set: LikedSet::new(),
            navigation_stack,
            user: Option::None,
            devices: Option::None,
            selected_device_index: Option::None,
            current_playback_context: Option::None,
            last_playback_poll_ms: 0,
            song_progress_ms: 0,
            track_table: TrackTable { tracks: Vec::new(), context: Option::None },
            playlist_tracks: Option::None,
            made_for_you_tracks: Option::None,
            search_results: SearchResults {
                tracks: Option::None,
                artists: Option::None,
                albums: Option::None,
                playlists: Option::None,
            },
            library: Library {
                saved_tracks: ScrollableResultPages::new(),
                saved_albums: ScrollableResultPages::new(),
                saved_artists: ScrollableResultPages::new(),
                made_for_you_playlists: ScrollableResultPages::new(),
            },
            artists: Vec::new(),
            artist: Option::None,
            selected_album_simplified: Option::None,
            selected_album_full: Option::None,
            album_table_context: AlbumTableContext::Full,
            playlists: Option::None,
            selected_playlist_index: Option::None,
            recently_played: Option::None,
            recommended_tracks: Vec::new(),
            audio_analysis: Option::None,
        }
    }

    /// Funnel for every failure a handler meets: the failure is recorded for
    /// display and nothing else changes.
    pub fn handle_error(&mut self, e: StateError)
        ensures
            *final(self) == (AppState { api_error: Option::Some(e), ..*old(self) }),
    {
        self.api_error = Option::Some(e);
    }

    /// The route currently shown.
    pub fn get_current_route(&self) -> (r: Route)
        ensures
            r == current_route_spec(self.navigation_stack@),
    {
        if self.navigation_stack.len() > 0 {
            self.navigation_stack[self.navigation_stack.len() - 1]
        } else {
            Route { id: RouteId::Home, active_block: ActiveBlock::Empty }
        }
    }

    /// Pushes a navigation entry unless the shown route already is the
    /// target route; then the stack is left unchanged.
    pub fn push_navigation_stack(&mut self, route_id: RouteId, active_block: ActiveBlock)
        ensures
            final(self).navigation_stack@ == push_route_spec(
                old(self).navigation_stack@,
                Route { id: route_id, active_block },
            ),
            *final(self) == (AppState {
                navigation_stack: final(self).navigation_stack,
                ..*old(self)
            }),
    {
        let top = self.get_current_route();
        if !(top.id == route_id) {
            self.navigation_stack.push(Route { id: route_id, active_block });
        }
    }

    /// Applies one remote liked-membership answer: for each identifier the
    /// answer covers, a `true` marks it liked and a `false` unmarks it;
    /// identifiers past the end of the answer are left as they were.
    pub fn apply_saved_check(&mut self, ids: &Vec<String>, flags: &Vec<bool>)
        requires
            old(self).wf(),
        ensures
            final(self).liked_song_ids_set@ == saved_check_merge(
                old(self).liked_song_ids_set@,
                str_seq(ids@),
                flags@,
            ),
            *final(self) == (AppState {
                liked_song_ids_set: final(self).liked_song_ids_set,
                ..*old(self)
            }),
            final(self).wf(),
    {
        let mut i: usize = 0;
        while i < ids.len()
            invariant
                i <= ids@.len(),
                self.liked_song_ids_set@ == saved_check_prefix(
                    old(self).liked_song_ids_set@,
                    str_seq(ids@),
                    flags@,
                    i as int,
                ),
                *self == (AppState { liked_song_ids_set: self.liked_song_ids_set, ..*old(self) }),
                self.wf(),
            decreases ids@.len() - i,
        {
            proof {
                assert(str_seq(ids@)[i as int] == ids@[i as int]@);
            }
            if i < flags.len() {
                if flags[i] {
                    self.liked_song_ids_set.insert(ids[i].clone());
                } else {
                    self.liked_song_ids_set.remove(&ids[i]);
                }
            }
            i = i + 1;
        }
    }

    /// Writes the outcome of a liked-membership check: on success the answer
    /// is merged into the liked set, on failure the failure is recorded and
    /// the liked set is untouched.
    pub fn current_user_saved_tracks_contains(
        &mut self,
        ids: &Vec<String>,
        result: Result<Vec<bool>, RemoteError>,
    )
        requires
            old(self).wf(),
        ensures
            match result {
                Result::Ok(flags) => {
                    &&& final(self).liked_song_ids_set@ == saved_check_merge(
                        old(self).liked_song_ids_set@,
                        str_seq(ids@),
                        flags@,
                    )
                    &&& *final(self) == (AppState {
                        liked_song_ids_set: final(self).liked_song_ids_set,
                        ..*old(self)
                    })
                },
                Result::Err(e) => *final(self) == (AppState {
                    api_error: Option::Some(StateError::Remote(e.message)),
                    ..*old(self)
                }),
            },
            final(self).wf(),
    {
        match result {
            Result::Ok(flags) => {
                self.apply_saved_check(ids, &flags);
            },
            Result::Err(e) => {
                self.handle_error(StateError::Remote(e.message));
            },
        }
    }

    /// Writes a page of the user's saved tracks into the track table; every
    /// track of the page is saved by definition, so each of their
    /// identifiers is marked liked.
    pub fn set_saved_tracks_to_table(&mut self, page: &Page<Track>)
        requires
            old(self).wf(),
        ensures
            final(self).track_table.tracks@ == page.items@,
            final(self).track_table.context == old(self).track_table.context,
            final(self).liked_song_ids_set@ == liked_with_saved(
                old(self).liked_song_ids_set@,
                page.items@,
            ),
            *final(self) == (AppState {
                track_table: final(self).track_table,
                liked_song_ids_set: final(self).liked_song_ids_set,
                ..*old(self)
            }),
            final(self).wf(),
    {
        self.track_table.tracks = crate::model::clone_tracks(&page.items);
        let mut i: usize = 0;
        while i < page.items.len()
            invariant
                i <= page.items@.len(),
                self.liked_song_ids_set@ == liked_with_saved_prefix(
                    old(self).liked_song_ids_set@,
                    page.items@,
                    i as int,
                ),
                self.track_table.tracks@ == page.items@,
                self.track_table.context == old(self).track_table.context,
                *self == (AppState {
                    track_table: self.track_table,
                    liked_song_ids_set: self.liked_song_ids_set,
                    ..*old(self)
                }),
                self.wf(),
            decreases page.items@.len() - i,
        {
            match &page.items[i].id {
                Option::Some(id) => {
                    self.liked_song_ids_set.insert(id.clone());
                },
                Option::None => {},
            }
            i = i + 1;
        }
    }

    /// Pops the shown route, keeping at least the base entry.
    pub fn pop_navigation_stack(&mut self)
        ensures
            final(self).navigation_stack@ == (if old(self).navigation_stack@.len() > 1 {
                old(self).navigation_stack@.drop_last()
            } else {
                old(self).navigation_stack@
            }),
            *final(self) == (AppState {
                navigation_stack: final(self).navigation_stack,
                ..*old(self)
            }),
    {
        if self.navigation_stack.len() > 1 {
            self.navigation_stack.pop();
        }
    }
}

} // verus!
