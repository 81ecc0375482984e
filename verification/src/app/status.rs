//! What the content pane shows when it is not showing music, and the words on
//! it.
//!
//! Every one of these is asked **per section**: an empty Albums grid says
//! nothing about whether Songs has tracks in it.

use vstd::prelude::*;
use vstd::view::View as _;

use crate::app::model::{AppModel, AppView, Stage, StageView};
use crate::app::shelf;
use crate::app::shelf::{Shelf, ShelfView};
use crate::markup;
use crate::text;
use crate::view::View;

verus! {

/// Whether waiting is the whole answer.
pub open spec fn resolves_itself(stage: StageView) -> bool {
    stage == StageView::Starting || stage == StageView::InstallingWidevine || stage
        == StageView::Connecting
}

/// Spinner or status page, while the player is still coming up.
///
/// Motion promises that waiting will do. Signed out, broken and reconnecting each
/// need the user to read or do something, and a spinner over those would promise
/// what is not coming.
pub fn startup_page(stage: &Stage) -> (r: &'static str)
    ensures
        r@ == if resolves_itself(stage@) {
            "loading"@
        } else {
            "status"@
        },
{
    match stage {
        Stage::Starting | Stage::InstallingWidevine | Stage::Connecting => "loading",
        Stage::SignedOut | Stage::Broken(_) | Stage::Restarting(_) | Stage::Ready => "status",
    }
}

/// A page for a section: waiting, empty, or there.
pub open spec fn section_page(waiting: bool, empty: bool, there: Seq<char>) -> Seq<char> {
    if waiting {
        "loading"@
    } else if empty {
        "no-results"@
    } else {
        there
    }
}

impl ShelfView {
    /// Whether the shown section has anything to show, or soon will.
    pub open spec fn has_content(self) -> bool {
        match self.view {
            View::Albums => self.albums.len() > 0 || self.loading.albums,
            View::Artists => self.artists.len() > 0 || self.loading.artists,
            View::Playlists => self.playlists.len() > 0 || self.loading.playlists,
            _ => self.tracks.len() > 0,
        }
    }

    /// The page of the shown section. Only a first load takes over the screen: a
    /// reload keeps up what is there.
    pub open spec fn page(self) -> Seq<char> {
        match self.view {
            View::Songs => section_page(
                self.loading.songs && self.tracks.len() == 0,
                self.rows.len() == 0,
                "library"@,
            ),
            View::Albums => section_page(
                self.loading.albums && self.albums.len() == 0,
                self.album_tiles.len() == 0,
                "albums"@,
            ),
            View::Artists => section_page(
                self.loading.artists && self.artists.len() == 0,
                self.artist_tiles.len() == 0,
                "artists"@,
            ),
            View::Playlists => section_page(
                self.loading.playlists && self.playlists.len() == 0,
                self.playlist_tiles.len() == 0,
                "playlists"@,
            ),
            View::Search => if self.searching && self.catalog.len() == 0 {
                "loading"@
            } else if shelf::blank(self.catalog_query) {
                "search-prompt"@
            } else {
                section_page(false, self.rows.len() == 0, "library"@)
            },
        }
    }

    /// What a section says it is waiting for.
    pub open spec fn waiting_words(self) -> Seq<char> {
        match self.view {
            View::Search => "Searching Apple Music"@,
            View::Albums => "Loading your albums"@,
            View::Artists => "Loading your artists"@,
            View::Playlists => "Loading your playlists"@,
            View::Songs => "Loading your library"@,
        }
    }
}

impl AppView {
    /// Whether there is anything for the content pane to show.
    pub open spec fn shows_library(self) -> bool {
        self.stage == StageView::Ready && self.shelf.has_content()
    }

    /// The page the content pane is on.
    pub open spec fn page(self) -> Seq<char> {
        if self.shows_library() {
            self.shelf.page()
        } else if resolves_itself(self.stage) {
            "loading"@
        } else {
            "status"@
        }
    }

    /// The words on a status page.
    pub open spec fn headline(self) -> Seq<char> {
        match self.stage {
            StageView::Starting => "Starting the playback engine"@,
            StageView::InstallingWidevine => "Preparing playback"@,
            StageView::Connecting => "Connecting to Apple Music"@,
            StageView::SignedOut => "Welcome to Tonearm"@,
            StageView::Restarting(n) => "Reconnecting (attempt "@ + text::decimal(n as nat)
                + ")"@,
            StageView::Broken(_) => "Playback unavailable"@,
            StageView::Ready => match self.deck.player.now_playing {
                Some(item) => item.title@,
                None => "Ready"@,
            },
        }
    }

    /// What the spinner says it is waiting for. While the player is coming up no
    /// section is loading anything, so none is named.
    pub open spec fn waiting(self) -> Seq<char> {
        if self.stage == StageView::Ready {
            self.shelf.waiting_words()
        } else {
            self.headline()
        }
    }

    /// The smaller words on a status page. The page takes markup, so what comes
    /// from a track is escaped.
    pub open spec fn detail(self) -> Seq<char> {
        match self.stage {
            StageView::InstallingWidevine => {
                "Downloading the components needed for protected playback. This only happens once."@
            },
            StageView::SignedOut => {
                "Tonearm plays your Apple Music library natively on GNOME. It needs an active Apple Music subscription."@
            },
            StageView::Broken(why) => why,
            StageView::Ready => match self.deck.player.now_playing {
                Some(item) => markup::escaped(item.artist@ + " — "@ + item.album@),
                None => "Nothing playing"@,
            },
            _ => Seq::empty(),
        }
    }

    /// The storefront, in capitals.
    pub open spec fn subtitle(self) -> Seq<char> {
        match self.stage {
            StageView::Ready => match self.tokens {
                Some(tokens) => text::uppercase(tokens.storefront@),
                None => Seq::empty(),
            },
            _ => Seq::empty(),
        }
    }

    /// The icon of a status page.
    pub open spec fn icon(self) -> Seq<char> {
        match self.stage {
            StageView::Ready => "audio-x-generic-symbolic"@,
            StageView::SignedOut => "dev.miguelrincon.Slipmat"@,
            StageView::Broken(_) => "dialog-warning-symbolic"@,
            _ => "content-loading-symbolic"@,
        }
    }
}

fn one_page(waiting: bool, empty: bool, there: &'static str) -> (r: &'static str)
    ensures
        r@ == section_page(waiting, empty, there@),
{
    if waiting {
        "loading"
    } else if empty {
        "no-results"
    } else {
        there
    }
}

impl Shelf {
    fn has_content(&self) -> (r: bool)
        ensures
            r == self@.has_content(),
    {
        match self.view {
            View::Albums => self.albums.len() > 0 || self.loading.albums,
            View::Artists => self.artists.len() > 0 || self.loading.artists,
            View::Playlists => self.playlists.len() > 0 || self.loading.playlists,
            _ => self.tracks.len() > 0,
        }
    }

    fn page(&self) -> (r: &'static str)
        ensures
            r@ == self@.page(),
    {
        match self.view {
            View::Songs => one_page(
                self.loading.songs && self.tracks.len() == 0,
                self.rows.len() == 0,
                "library",
            ),
            View::Albums => one_page(
                self.loading.albums && self.albums.len() == 0,
                self.album_tiles.len() == 0,
                "albums",
            ),
            View::Artists => one_page(
                self.loading.artists && self.artists.len() == 0,
                self.artist_tiles.len() == 0,
                "artists",
            ),
            View::Playlists => one_page(
                self.loading.playlists && self.playlists.len() == 0,
                self.playlist_tiles.len() == 0,
                "playlists",
            ),
            View::Search => if self.searching && self.catalog.len() == 0 {
                "loading"
            } else if self.catalog_query.as_str().trim().is_empty() {
                "search-prompt"
            } else {
                one_page(false, self.rows.len() == 0, "library")
            },
        }
    }

    fn waiting_for(&self) -> (r: &'static str)
        ensures
            r@ == self@.waiting_words(),
    {
        match self.view {
            View::Search => "Searching Apple Music",
            View::Albums => "Loading your albums",
            View::Artists => "Loading your artists",
            View::Playlists => "Loading your playlists",
            View::Songs => "Loading your library",
        }
    }
}

impl AppModel {
    /// Whether there is anything for the content pane to show.
    pub fn showing_library(&self) -> (r: bool)
        ensures
            r == self@.shows_library(),
    {
        proof {
            reveal(AppModel::seen);
        }
        self.stage.is_ready() && self.shelf.has_content()
    }

    /// What the spinner page says it is waiting for.
    pub fn waiting_for(&self) -> (r: String)
        ensures
            r@ == self@.waiting(),
    {
        proof {
            reveal(AppModel::seen);
        }
        if self.stage.is_ready() {
            self.shelf.waiting_for().to_string()
        } else {
            self.headline()
        }
    }

    /// The page the content pane is on.
    ///
    /// A player that is down or a session that is signed out outranks every
    /// section.
    pub fn page(&self) -> (r: &'static str)
        ensures
            r@ == self@.page(),
    {
        proof {
            reveal(AppModel::seen);
        }
        if !self.showing_library() {
            return startup_page(&self.stage);
        }
        self.shelf.page()
    }

    /// The icon of a status page. Signed out it is the application's own: it
    /// should say which program is asking.
    pub fn icon(&self) -> (r: &'static str)
        ensures
            r@ == self@.icon(),
    {
        proof {
            reveal(AppModel::seen);
        }
        match self.stage {
            Stage::Ready => "audio-x-generic-symbolic",
            Stage::SignedOut => "dev.miguelrincon.Slipmat",
            Stage::Broken(_) => "dialog-warning-symbolic",
            _ => "content-loading-symbolic",
        }
    }

    /// The words on a status page.
    pub fn headline(&self) -> (r: String)
        ensures
            r@ == self@.headline(),
    {
        proof {
            reveal(AppModel::seen);
        }
        match &self.stage {
            Stage::Starting => "Starting the playback engine".to_string(),
            Stage::InstallingWidevine => "Preparing playback".to_string(),
            Stage::Connecting => "Connecting to Apple Music".to_string(),
            Stage::SignedOut => "Welcome to Tonearm".to_string(),
            Stage::Restarting(n) => {
                let mut words = "Reconnecting (attempt ".to_string();
                text::push_decimal(&mut words, *n as u64);
                words.append(")");
                words
            },
            Stage::Broken(_) => "Playback unavailable".to_string(),
            Stage::Ready => match &self.deck.player.now_playing {
                Some(item) => item.title.clone(),
                None => "Ready".to_string(),
            },
        }
    }

    /// The smaller words on a status page, which takes them as markup: a track
    /// of "Mercury - Acts 1 & 2" has to be escaped.
    pub fn detail(&self) -> (r: String)
        ensures
            r@ == self@.detail(),
    {
        proof {
            reveal(AppModel::seen);
        }
        match &self.stage {
            Stage::InstallingWidevine => {
                "Downloading the components needed for protected playback. This only happens once.".to_string()
            },
            Stage::SignedOut => {
                "Tonearm plays your Apple Music library natively on GNOME. It needs an active Apple Music subscription.".to_string()
            },
            Stage::Broken(why) => why.clone(),
            Stage::Ready => match &self.deck.player.now_playing {
                Some(item) => {
                    let mut words = item.artist.clone();
                    words.append(" — ");
                    words.append(item.album.as_str());
                    markup::escape(words.as_str())
                },
                None => "Nothing playing".to_string(),
            },
            _ => String::new(),
        }
    }

    /// The storefront, in capitals.
    pub fn subtitle(&self) -> (r: String)
        ensures
            r@ == self@.subtitle(),
    {
        proof {
            reveal(AppModel::seen);
        }
        match &self.stage {
            Stage::Ready => match &self.tokens {
                Some(tokens) => tokens.storefront.as_str().to_uppercase(),
                None => String::new(),
            },
            _ => String::new(),
        }
    }
}

} // verus!
