//! What came back from everything that was sent out, and what is drawn after
//! each step.

use vstd::prelude::*;
use vstd::view::View as _;

use crate::app::model::{
    AppModel,
    AppView,
    CardView,
    Effect,
    EffectView,
    LibraryAction,
    Stage,
    StageView,
};
use crate::app::pages::PageContent;
use crate::app::writes::Patch;
use crate::deck::DeckView;
use crate::library;
use crate::music::{Album, Artist, Playlist, SearchResults, Track};
use crate::text;

verus! {

/// The answer to something that was sent out.
#[derive(Debug, PartialEq, Eq)]
pub enum CommandMsg {
    /// The player's process is up.
    Spawned,
    /// The player's process is gone.
    Died,
    Library(Result<Vec<Track>, String>),
    LibraryAlbums(Result<Vec<Album>, String>),
    LibraryArtists(Result<Vec<Artist>, String>),
    LibraryPlaylists(Result<Vec<Playlist>, String>),
    /// Catalog results, tagged with the search they belong to and where they
    /// started.
    Catalog { generation: u64, offset: usize, result: Result<SearchResults, String> },
    /// A cover is on disk, and a tiny copy of it to go behind the player. The
    /// two are applied together.
    Artwork { path: Option<String>, backdrop: Option<String> },
    /// A page's contents, tagged with the page.
    Page { page: u64, result: Result<PageContent, String> },
    PageArtwork { page: u64, path: Option<String> },
    /// A write to the account was taken, which is not to say done.
    LibraryWritten { catalog_id: String, action: LibraryAction, result: Result<(), String> },
    /// A tile's cover is here and decoded, or could not be had.
    TileArt { key: String, decoded: bool },
}

/// What a failed answer says.
pub open spec fn complaint<T>(result: Result<T, String>) -> Option<Seq<char>> {
    match result {
        Ok(_) => None,
        Err(why) => Some(why@),
    }
}

/// What a good answer holds.
pub open spec fn answer_of<T>(result: Result<Vec<T>, String>) -> Option<Seq<T>> {
    match result {
        Ok(list) => Some(list@),
        Err(_) => None,
    }
}

/// The ids of a list, one of them gone.
pub open spec fn without_key(keys: Seq<Seq<char>>, key: Seq<char>) -> Seq<Seq<char>> {
    keys.filter(|k: Seq<char>| k != key)
}

impl AppView {
    /// The model with a complaint made, if there is one.
    pub open spec fn complaining(self, why: Option<Seq<char>>) -> AppView {
        match why {
            Some(why) => self.toasting(why),
            None => self,
        }
    }

    /// The model with the songs in, or with word of why they are not.
    #[verifier::opaque]
    pub open spec fn songs_answered(self, result: Result<Vec<Track>, String>) -> AppView {
        let after = self.with_shelf(
            self.shelf.songs_arrived(answer_of(result), self.playing()),
        );
        match result {
            Ok(_) => after,
            Err(why) => after.toasting("Couldn't load your library: "@ + why@),
        }
    }

    /// The model with a page of the catalog in. An answer to an older question
    /// is dropped, whatever it says.
    #[verifier::opaque]
    pub open spec fn catalog_answered(
        self,
        generation: u64,
        offset: int,
        result: Result<SearchResults, String>,
    ) -> AppView {
        if generation != self.shelf.search_gen {
            self
        } else {
            match result {
                Ok(found) => self.with_shelf(
                    self.shelf.answered(generation, offset, Some(found), self.playing()),
                ),
                Err(why) => self.with_shelf(
                    self.shelf.answered(generation, offset, None, self.playing()),
                ).toasting("Search failed: "@ + why@),
            }
        }
    }

    /// The model with a cover landed. A notification that waited for it goes
    /// out, unless the track has changed since.
    #[verifier::opaque]
    pub open spec fn cover_landed(
        self,
        path: Option<Seq<char>>,
        backdrop: Option<Seq<char>>,
    ) -> AppView {
        let drawn = self.with_card(CardView { art_path: path, ..self.card }).effecting(
            EffectView::Backdrop(backdrop),
        ).effecting(EffectView::Cover(path));
        let told = if self.card.notify_when_art_lands is Some && self.card.notify_when_art_lands
            == self.playing() {
            drawn.announced()
        } else {
            drawn
        };
        told.pushed()
    }

    /// The model once a write was taken. Favouriting adds to the library too.
    #[verifier::opaque]
    pub open spec fn written(
        self,
        catalog_id: Seq<char>,
        action: LibraryAction,
        why: Option<Seq<char>>,
    ) -> AppView {
        match why {
            Some(why) => self.toasting(why),
            None => {
                let told = self.toasting(action.done_text());
                match action {
                    LibraryAction::Favorite => told.patched(
                        catalog_id,
                        Patch::Favorite(true),
                    ).patched(catalog_id, Patch::InLibrary(true)),
                    LibraryAction::AddToLibrary => told.patched(
                        catalog_id,
                        Patch::InLibrary(true),
                    ),
                }
            },
        }
    }

    /// The model with a tile's cover landed, or given up.
    #[verifier::opaque]
    pub open spec fn tile_landed(self, key: Seq<char>, decoded: bool) -> AppView {
        let landed = AppView { tiles_pending: without_key(self.tiles_pending, key), ..self };
        if decoded {
            landed.effecting(EffectView::DrawTile { key })
        } else {
            landed
        }
    }

    /// The model once the player's process is up. It holds nothing, so the session
    /// goes back in once it can.
    pub open spec fn spawned(self) -> AppView {
        AppView {
            deck: DeckView { attached: true, ..self.deck },
            restored: false,
            stage: StageView::InstallingWidevine,
            ..self
        }
    }

    /// The model with what it holds of a queue on the way to being remembered.
    /// Where it holds none, what was remembered stays.
    #[verifier::opaque]
    pub open spec fn keeping(self) -> AppView {
        match self.deck.session() {
            Some(session) => self.effecting(EffectView::SaveSession(session)),
            None => self,
        }
    }

    /// The model once the player's process is gone. What it played is remembered,
    /// and another is on its way, later with each attempt.
    #[verifier::opaque]
    pub open spec fn bereft(self) -> AppView {
        let attempt = (self.restarts + 1) as u32;
        let kept = self.keeping();
        AppView {
            deck: DeckView { attached: false, ..kept.deck },
            restarts: attempt,
            stage: StageView::Restarting(attempt),
            ..kept
        }.toasting("Playback engine stopped — restarting"@).effecting(
            EffectView::Respawn { attempt },
        )
    }

    /// The model after an answer.
    #[verifier::opaque]
    pub open spec fn answering(self, msg: CommandMsg) -> AppView {
        match msg {
            CommandMsg::Spawned => self.spawned(),
            CommandMsg::Died => self.bereft(),
            CommandMsg::Library(result) => self.songs_answered(result),
            CommandMsg::LibraryAlbums(result) => self.with_shelf(
                self.shelf.albums_arrived(answer_of(result)),
            ).complaining(complaint(result)),
            CommandMsg::LibraryArtists(result) => self.with_shelf(
                self.shelf.artists_arrived(answer_of(result)),
            ).complaining(complaint(result)),
            CommandMsg::LibraryPlaylists(result) => self.with_shelf(
                self.shelf.playlists_arrived(answer_of(result)),
            ).complaining(complaint(result)),
            CommandMsg::Catalog { generation, offset, result } => self.catalog_answered(
                generation,
                offset as int,
                result,
            ),
            CommandMsg::Artwork { path, backdrop } => self.cover_landed(
                text::text_view(path),
                text::text_view(backdrop),
            ),
            CommandMsg::Page { page, result } => self.with_pages(
                self.pages.filled(
                    page,
                    match result {
                        Ok(content) => Ok(content),
                        Err(why) => Err(why@),
                    },
                ),
            ),
            CommandMsg::PageArtwork { page, path } => self.with_pages(
                self.pages.pictured(page, text::text_view(path)),
            ),
            CommandMsg::LibraryWritten { catalog_id, action, result } => self.written(
                catalog_id@,
                action,
                complaint(result),
            ),
            CommandMsg::TileArt { key, decoded } => self.tile_landed(key@, decoded),
        }
    }
}

impl AppModel {
    fn take_songs(&mut self, tracks: Option<Vec<Track>>)
        ensures
            final(self)@ == old(self)@.with_shelf(
                old(self)@.shelf.songs_arrived(
                    match tracks {
                        Some(tracks) => Some(tracks@),
                        None => None,
                    },
                    old(self)@.playing(),
                ),
            ),
    {
        proof {
            reveal(AppModel::seen);
        }
        let playing = self.playing_catalog_id();
        self.shelf.songs_loaded(tracks, playing);
    }

    fn take_albums(&mut self, albums: Option<Vec<Album>>)
        ensures
            final(self)@ == old(self)@.with_shelf(
                old(self)@.shelf.albums_arrived(
                    match albums {
                        Some(albums) => Some(albums@),
                        None => None,
                    },
                ),
            ),
    {
        proof {
            reveal(AppModel::seen);
        }
        self.shelf.albums_loaded(albums);
    }

    fn take_artists(&mut self, artists: Option<Vec<Artist>>)
        ensures
            final(self)@ == old(self)@.with_shelf(
                old(self)@.shelf.artists_arrived(
                    match artists {
                        Some(artists) => Some(artists@),
                        None => None,
                    },
                ),
            ),
    {
        proof {
            reveal(AppModel::seen);
        }
        self.shelf.artists_loaded(artists);
    }

    fn take_playlists(&mut self, playlists: Option<Vec<Playlist>>)
        ensures
            final(self)@ == old(self)@.with_shelf(
                old(self)@.shelf.playlists_arrived(
                    match playlists {
                        Some(playlists) => Some(playlists@),
                        None => None,
                    },
                ),
            ),
    {
        proof {
            reveal(AppModel::seen);
        }
        self.shelf.playlists_loaded(playlists);
    }

    fn songs_answered(&mut self, result: Result<Vec<Track>, String>)
        ensures
            final(self)@ == old(self)@.songs_answered(result),
    {
        proof {
            reveal(AppView::songs_answered);
        }
        match result {
            Ok(tracks) => self.take_songs(Some(tracks)),
            Err(why) => {
                self.take_songs(None);
                let mut words = "Couldn't load your library: ".to_string();
                words.append(why.as_str());
                self.toast(words.as_str());
            },
        }
    }

    fn albums_answered(&mut self, result: Result<Vec<Album>, String>)
        ensures
            final(self)@ == old(self)@.with_shelf(
                old(self)@.shelf.albums_arrived(answer_of(result)),
            ).complaining(complaint(result)),
    {
        match result {
            Ok(albums) => self.take_albums(Some(albums)),
            Err(why) => {
                self.take_albums(None);
                self.toast(why.as_str());
            },
        }
    }

    fn artists_answered(&mut self, result: Result<Vec<Artist>, String>)
        ensures
            final(self)@ == old(self)@.with_shelf(
                old(self)@.shelf.artists_arrived(answer_of(result)),
            ).complaining(complaint(result)),
    {
        match result {
            Ok(artists) => self.take_artists(Some(artists)),
            Err(why) => {
                self.take_artists(None);
                self.toast(why.as_str());
            },
        }
    }

    fn playlists_answered(&mut self, result: Result<Vec<Playlist>, String>)
        ensures
            final(self)@ == old(self)@.with_shelf(
                old(self)@.shelf.playlists_arrived(answer_of(result)),
            ).complaining(complaint(result)),
    {
        match result {
            Ok(playlists) => self.take_playlists(Some(playlists)),
            Err(why) => {
                self.take_playlists(None);
                self.toast(why.as_str());
            },
        }
    }

    fn take_catalog(&mut self, generation: u64, offset: usize, found: Option<SearchResults>)
        requires
            found is Some && offset != 0 && generation == old(self)@.shelf.search_gen ==> old(
                self,
            )@.shelf.catalog_paged + library::paged_by(
                old(self)@.shelf.catalog_filter,
                found->0,
            ) <= usize::MAX,
        ensures
            final(self)@ == old(self)@.with_shelf(
                old(self)@.shelf.answered(generation, offset as int, found, old(self)@.playing()),
            ),
    {
        proof {
            reveal(AppModel::seen);
        }
        let playing = self.playing_catalog_id();
        self.shelf.catalog_answered(generation, offset, found, playing);
    }

    fn is_newest(&self, generation: u64) -> (r: bool)
        ensures
            r == (generation == self@.shelf.search_gen),
    {
        proof {
            reveal(AppModel::seen);
        }
        generation == self.shelf.search_gen
    }

    fn catalog_answered(
        &mut self,
        generation: u64,
        offset: usize,
        result: Result<SearchResults, String>,
    )
        requires
            result is Ok && offset != 0 && generation == old(self)@.shelf.search_gen ==> old(
                self,
            )@.shelf.catalog_paged + library::paged_by(
                old(self)@.shelf.catalog_filter,
                result->Ok_0,
            ) <= usize::MAX,
        ensures
            final(self)@ == old(self)@.catalog_answered(generation, offset as int, result),
    {
        proof {
            reveal(AppView::catalog_answered);
        }
        if !self.is_newest(generation) {
            return ;
        }
        match result {
            Ok(found) => self.take_catalog(generation, offset, Some(found)),
            Err(why) => {
                self.take_catalog(generation, offset, None);
                let mut words = "Search failed: ".to_string();
                words.append(why.as_str());
                self.toast(words.as_str());
            },
        }
    }

    fn waits_for_cover(&self) -> (r: bool)
        ensures
            r == (self@.card.notify_when_art_lands is Some && self@.card.notify_when_art_lands
                == self@.playing()),
    {
        let playing = self.playing_catalog_id();
        proof {
            reveal(AppModel::seen);
        }
        self.card.notify_when_art_lands.is_some() && text::same_option(
            &self.card.notify_when_art_lands,
            &playing,
        )
    }

    fn cover_landed(&mut self, path: Option<String>, backdrop: Option<String>)
        ensures
            final(self)@ == old(self)@.cover_landed(
                text::text_view(path),
                text::text_view(backdrop),
            ),
    {
        proof {
            reveal(AppView::cover_landed);
        }
        let waits = self.waits_for_cover();
        self.set_art_path(path.clone());
        self.effect(Effect::Backdrop(backdrop));
        self.effect(Effect::Cover(path));
        if waits {
            self.send_track_notification();
        }
        self.push_snapshot();
    }

    fn fill_page(&mut self, page: u64, result: Result<PageContent, String>)
        ensures
            final(self)@ == old(self)@.with_pages(
                old(self)@.pages.filled(
                    page,
                    match result {
                        Ok(content) => Ok(content),
                        Err(why) => Err(why@),
                    },
                ),
            ),
    {
        proof {
            reveal(AppModel::seen);
        }
        self.pages.page_loaded(page, result);
    }

    fn picture_page(&mut self, page: u64, path: Option<String>)
        ensures
            final(self)@ == old(self)@.with_pages(
                old(self)@.pages.pictured(page, text::text_view(path)),
            ),
    {
        proof {
            reveal(AppModel::seen);
        }
        self.pages.page_artwork(page, path);
    }

    fn library_written(
        &mut self,
        catalog_id: String,
        action: LibraryAction,
        result: Result<(), String>,
    )
        ensures
            final(self)@ == old(self)@.written(catalog_id@, action, complaint(result)),
    {
        proof {
            reveal(AppView::written);
        }
        match result {
            Ok(_) => {
                self.toast(action.done());
                match action {
                    LibraryAction::Favorite => {
                        self.patch(catalog_id.as_str(), Patch::Favorite(true));
                        self.patch(catalog_id.as_str(), Patch::InLibrary(true));
                    },
                    LibraryAction::AddToLibrary => self.patch(
                        catalog_id.as_str(),
                        Patch::InLibrary(true),
                    ),
                }
            },
            Err(why) => self.toast(why.as_str()),
        }
    }

    fn land_tile(&mut self, key: &str)
        ensures
            final(self)@ == (AppView {
                tiles_pending: without_key(old(self)@.tiles_pending, key@),
                ..old(self)@
            }),
    {
        proof {
            reveal(AppModel::seen);
        }
        let ghost keep = |k: Seq<char>| k != key@;
        let ghost all = text::texts(self.tiles_pending@);
        let mut left: Vec<String> = Vec::new();
        let mut i: usize = 0;
        proof {
            reveal(Seq::filter);
            assert(text::texts(left@) =~= all.take(0).filter(keep));
        }
        while i < self.tiles_pending.len()
            invariant
                i <= self.tiles_pending@.len(),
                *self == *old(self),
                all == text::texts(self.tiles_pending@),
                keep == |k: Seq<char>| k != key@,
                text::texts(left@) == all.take(i as int).filter(keep),
            decreases self.tiles_pending@.len() - i,
        {
            proof {
                library::filter_grows(all, keep, i as int);
            }
            if !text::same(self.tiles_pending[i].as_str(), key) {
                let ghost so_far = text::texts(left@);
                left.push(self.tiles_pending[i].clone());
                proof {
                    assert(text::texts(left@) =~= so_far.push(all[i as int]));
                }
            }
            i += 1;
        }
        proof {
            assert(all.take(i as int) =~= all);
        }
        self.tiles_pending = left;
    }

    fn tile_landed(&mut self, key: String, decoded: bool)
        ensures
            final(self)@ == old(self)@.tile_landed(key@, decoded),
    {
        proof {
            reveal(AppView::tile_landed);
        }
        self.land_tile(key.as_str());
        if decoded {
            self.effect(Effect::DrawTile { key });
        }
    }

    fn spawned(&mut self)
        ensures
            final(self)@ == old(self)@.spawned(),
    {
        proof {
            reveal(AppModel::seen);
        }
        self.deck.attached = true;
        self.restored = false;
        self.stage = Stage::InstallingWidevine;
    }

    fn keep_session(&mut self)
        ensures
            final(self)@ == old(self)@.keeping(),
    {
        proof {
            reveal(AppModel::seen);
            reveal(AppView::keeping);
        }
        if let Some(session) = self.deck.save_session() {
            self.effect(Effect::SaveSession(session));
        }
    }

    fn count_restart(&mut self) -> (r: u32)
        requires
            old(self)@.restarts < u32::MAX,
        ensures
            r == old(self)@.restarts + 1,
            final(self)@ == (AppView {
                deck: DeckView { attached: false, ..old(self)@.deck },
                restarts: r,
                stage: StageView::Restarting(r),
                ..old(self)@
            }),
    {
        proof {
            reveal(AppModel::seen);
        }
        self.deck.attached = false;
        self.restarts = self.restarts + 1;
        self.stage = Stage::Restarting(self.restarts);
        self.restarts
    }

    fn died(&mut self)
        requires
            old(self)@.restarts < u32::MAX,
        ensures
            final(self)@ == old(self)@.bereft(),
    {
        proof {
            reveal(AppView::bereft);
        }
        proof {
            reveal(AppView::keeping);
        }
        self.keep_session();
        let attempt: u32 = self.count_restart();
        self.toast("Playback engine stopped — restarting");
        self.effect(Effect::Respawn { attempt });
    }

    /// Take in an answer.
    pub fn handle_cmd(&mut self, msg: CommandMsg)
        requires
            msg is Died ==> old(self)@.restarts < u32::MAX,
            msg matches CommandMsg::Catalog { generation, offset, result: Ok(found) } ==> offset
                != 0 && generation == old(self)@.shelf.search_gen ==> old(
                self,
            )@.shelf.catalog_paged + library::paged_by(old(self)@.shelf.catalog_filter, found)
                <= usize::MAX,
        ensures
            final(self)@ == old(self)@.answering(msg),
    {
        proof {
            reveal(AppView::answering);
        }
        match msg {
            CommandMsg::Spawned => self.spawned(),
            CommandMsg::Died => self.died(),
            CommandMsg::Library(result) => self.songs_answered(result),
            CommandMsg::LibraryAlbums(result) => self.albums_answered(result),
            CommandMsg::LibraryArtists(result) => self.artists_answered(result),
            CommandMsg::LibraryPlaylists(result) => self.playlists_answered(result),
            CommandMsg::Catalog { generation, offset, result } => self.catalog_answered(
                generation,
                offset,
                result,
            ),
            CommandMsg::Artwork { path, backdrop } => self.cover_landed(path, backdrop),
            CommandMsg::Page { page, result } => self.fill_page(page, result),
            CommandMsg::PageArtwork { page, path } => self.picture_page(page, path),
            CommandMsg::LibraryWritten { catalog_id, action, result } => self.library_written(
                catalog_id,
                action,
                result,
            ),
            CommandMsg::TileArt { key, decoded } => self.tile_landed(key, decoded),
        }
    }
}

} // verus!
