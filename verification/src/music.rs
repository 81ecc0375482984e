//! What a music service hands back: tracks, albums, artists and playlists, and
//! the rows a list shows them as.

use vstd::prelude::*;

use crate::text;

verus! {

/// The library's own name for a track, which is not its catalog id.
#[derive(Debug, PartialEq, Eq)]
pub struct TrackId(pub String);

/// A cover, as a URL with the size left out.
#[derive(Debug, PartialEq, Eq)]
pub struct Artwork {
    pub template: String,
}

#[derive(Debug, PartialEq, Eq)]
pub struct Track {
    pub id: TrackId,
    /// What the player is asked for by. Absent on a track that cannot be
    /// streamed.
    pub catalog_id: Option<String>,
    pub title: String,
    pub artist: String,
    pub album: String,
    pub favorite: bool,
    pub in_library: bool,
    pub library_id: Option<String>,
    pub date_added: String,
    pub year: String,
    pub duration_ms: u64,
    pub track_number: u32,
    pub artwork: Option<Artwork>,
}

#[derive(Debug, PartialEq, Eq)]
pub struct Album {
    pub id: String,
    pub name: String,
    pub artist: String,
    pub artwork: Option<Artwork>,
    pub year: String,
    pub library: bool,
    pub track_count: u32,
    pub date_added: String,
}

#[derive(Debug, PartialEq, Eq)]
pub struct Artist {
    pub id: String,
    pub name: String,
    pub artwork: Option<Artwork>,
    pub genres: String,
    pub library: bool,
}

#[derive(Debug, PartialEq, Eq)]
pub struct Playlist {
    pub id: String,
    pub name: String,
    pub curator: String,
    pub description: String,
    pub artwork: Option<Artwork>,
    pub library: bool,
    pub date_added: String,
    pub last_modified: String,
}

/// One row of a list: a song to play, or a door to a page.
#[derive(Debug, PartialEq, Eq)]
pub enum Entry {
    Song(Track),
    Album(Album),
    Artist(Artist),
    Playlist(Playlist),
}

/// The four kinds of thing one catalog search brings back.
#[derive(Debug, PartialEq, Eq)]
pub struct SearchResults {
    pub songs: Vec<Track>,
    pub albums: Vec<Album>,
    pub artists: Vec<Artist>,
    pub playlists: Vec<Playlist>,
}

impl Clone for TrackId {
    fn clone(&self) -> (r: Self)
        ensures
            r == *self,
    {
        TrackId(self.0.clone())
    }
}

impl Clone for Artwork {
    fn clone(&self) -> (r: Self)
        ensures
            r == *self,
    {
        Artwork { template: self.template.clone() }
    }
}

impl Clone for Track {
    fn clone(&self) -> (r: Self)
        ensures
            r == *self,
    {
        Track {
            id: self.id.clone(),
            catalog_id: self.catalog_id.clone(),
            title: self.title.clone(),
            artist: self.artist.clone(),
            album: self.album.clone(),
            favorite: self.favorite,
            in_library: self.in_library,
            library_id: self.library_id.clone(),
            date_added: self.date_added.clone(),
            year: self.year.clone(),
            duration_ms: self.duration_ms,
            track_number: self.track_number,
            artwork: self.artwork.clone(),
        }
    }
}

impl Clone for Album {
    fn clone(&self) -> (r: Self)
        ensures
            r == *self,
    {
        Album {
            id: self.id.clone(),
            name: self.name.clone(),
            artist: self.artist.clone(),
            artwork: self.artwork.clone(),
            year: self.year.clone(),
            library: self.library,
            track_count: self.track_count,
            date_added: self.date_added.clone(),
        }
    }
}

impl Clone for Artist {
    fn clone(&self) -> (r: Self)
        ensures
            r == *self,
    {
        Artist {
            id: self.id.clone(),
            name: self.name.clone(),
            artwork: self.artwork.clone(),
            genres: self.genres.clone(),
            library: self.library,
        }
    }
}

impl Clone for Playlist {
    fn clone(&self) -> (r: Self)
        ensures
            r == *self,
    {
        Playlist {
            id: self.id.clone(),
            name: self.name.clone(),
            curator: self.curator.clone(),
            description: self.description.clone(),
            artwork: self.artwork.clone(),
            library: self.library,
            date_added: self.date_added.clone(),
            last_modified: self.last_modified.clone(),
        }
    }
}

impl Clone for Entry {
    fn clone(&self) -> (r: Self)
        ensures
            r == *self,
    {
        match self {
            Entry::Song(t) => Entry::Song(t.clone()),
            Entry::Album(a) => Entry::Album(a.clone()),
            Entry::Artist(a) => Entry::Artist(a.clone()),
            Entry::Playlist(p) => Entry::Playlist(p.clone()),
        }
    }
}

impl Artwork {
    pub fn new(template: String) -> (r: Self)
        ensures
            r.template@ == template@,
    {
        Artwork { template }
    }

    /// What tells one cover from another.
    pub open spec fn key(self) -> Seq<char> {
        self.template@
    }

    /// What tells one cover from another.
    pub fn cache_key(&self) -> (r: &str)
        ensures
            r@ == self.key(),
    {
        self.template.as_str()
    }

    /// Whether this is the same cover as `other`.
    pub fn is(&self, other: &Artwork) -> (r: bool)
        ensures
            r == (self.key() == other.key()),
    {
        text::same(self.cache_key(), other.cache_key())
    }
}

impl Entry {
    /// The id the player would be asked for. Only a song has one.
    pub open spec fn catalog(self) -> Option<Seq<char>> {
        match self {
            Entry::Song(t) => text::text_view(t.catalog_id),
            _ => None,
        }
    }

    /// The id the player would be asked for. Only a song has one.
    pub fn catalog_id(&self) -> (r: Option<&String>)
        ensures
            match r {
                Some(id) => self.catalog() == Some(id@),
                None => self.catalog() is None,
            },
    {
        match self {
            Entry::Song(t) => t.catalog_id.as_ref(),
            _ => None,
        }
    }

    /// What the row is called.
    pub open spec fn name(self) -> Seq<char> {
        match self {
            Entry::Song(t) => t.title@,
            Entry::Album(a) => a.name@,
            Entry::Artist(a) => a.name@,
            Entry::Playlist(p) => p.name@,
        }
    }

    /// What the row is called.
    pub fn title(&self) -> (r: &str)
        ensures
            r@ == self.name(),
    {
        match self {
            Entry::Song(t) => t.title.as_str(),
            Entry::Album(a) => a.name.as_str(),
            Entry::Artist(a) => a.name.as_str(),
            Entry::Playlist(p) => p.name.as_str(),
        }
    }

    /// Who it is by, or what is said of it in a word.
    pub open spec fn byline(self) -> Seq<char> {
        match self {
            Entry::Song(t) => t.artist@,
            Entry::Album(a) => a.artist@,
            Entry::Artist(a) => a.genres@,
            Entry::Playlist(p) => p.curator@,
        }
    }

    /// Who it is by, or what is said of it in a word.
    pub fn subtitle(&self) -> (r: &str)
        ensures
            r@ == self.byline(),
    {
        match self {
            Entry::Song(t) => t.artist.as_str(),
            Entry::Album(a) => a.artist.as_str(),
            Entry::Artist(a) => a.genres.as_str(),
            Entry::Playlist(p) => p.curator.as_str(),
        }
    }
}

/// A copy of a list of rows.
pub fn copy_entries(list: &[Entry]) -> (r: Vec<Entry>)
    ensures
        r@ == list@,
{
    let mut out: Vec<Entry> = Vec::new();
    let mut i: usize = 0;
    while i < list.len()
        invariant
            i <= list@.len(),
            out@ == list@.take(i as int),
        decreases list@.len() - i,
    {
        out.push(list[i].clone());
        i += 1;
    }
    proof {
        assert(list@.take(i as int) =~= list@);
    }
    out
}

} // verus!
