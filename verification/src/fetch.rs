//! The catalog: a user's playlists and albums, each kind an ordered mapping
//! from a name to a collection of tracks.

use crate::model::AlbumWrapperModel;
use crate::text::{contains, dash_join, dashed, str_contains, strings_view};
use crate::track::{Album, Playlist};
use vstd::prelude::*;

verus! {

/// The names of a catalog's entries, in catalog order.
pub open spec fn names<T>(entries: Seq<(Seq<char>, T)>) -> Seq<Seq<char>> {
    Seq::new(entries.len(), |i: int| entries[i].0)
}

/// The first position in `names` whose name satisfies `wanted`.
pub open spec fn first_where(names: Seq<Seq<char>>, wanted: spec_fn(Seq<char>) -> bool) -> Option<
    int,
>
    decreases names.len(),
{
    if names.len() == 0 {
        None
    } else if wanted(names[0]) {
        Some(0)
    } else {
        match first_where(names.drop_first(), wanted) {
            Some(i) => Some(i + 1),
            None => None,
        }
    }
}

/// `first_where` finds a position that satisfies `wanted` and has none before
/// it that does; it finds none only where no name satisfies `wanted`.
pub proof fn lemma_first_where(names: Seq<Seq<char>>, wanted: spec_fn(Seq<char>) -> bool)
    ensures
        match first_where(names, wanted) {
            Some(i) => 0 <= i < names.len() && wanted(names[i]) && forall|j: int|
                0 <= j < i ==> !wanted(names[j]),
            None => forall|j: int| 0 <= j < names.len() ==> !wanted(names[j]),
        },
    decreases names.len(),
{
    if names.len() > 0 && !wanted(names[0]) {
        let rest = names.drop_first();
        lemma_first_where(rest, wanted);
        match first_where(rest, wanted) {
            Some(i) => {
                assert forall|j: int| 0 <= j < i + 1 implies !wanted(names[j]) by {
                    if j > 0 {
                        assert(names[j] == rest[j - 1]);
                    }
                }
            },
            None => {
                assert forall|j: int| 0 <= j < names.len() implies !wanted(names[j]) by {
                    if j > 0 {
                        assert(names[j] == rest[j - 1]);
                    }
                }
            },
        }
    }
}

/// The test for a name equal to `key`.
pub open spec fn named(key: Seq<char>) -> spec_fn(Seq<char>) -> bool {
    |name: Seq<char>| name == key
}

/// The test for a name that has `part` as a substring.
pub open spec fn containing(part: Seq<char>) -> spec_fn(Seq<char>) -> bool {
    |name: Seq<char>| contains(name, part)
}

/// The position of the entry named `key`.
pub open spec fn position_of(names: Seq<Seq<char>>, key: Seq<char>) -> Option<int> {
    first_where(names, named(key))
}

/// `position_of` finds the first entry of that name, and none only where no
/// entry has it.
pub proof fn lemma_position_of(names: Seq<Seq<char>>, key: Seq<char>)
    ensures
        match position_of(names, key) {
            Some(i) => 0 <= i < names.len() && names[i] == key && forall|j: int|
                0 <= j < i ==> names[j] != key,
            None => forall|j: int| 0 <= j < names.len() ==> names[j] != key,
        },
{
    let is_key = named(key);
    lemma_first_where(names, is_key);
    match first_where(names, is_key) {
        Some(i) => {
            assert(is_key(names[i]));
            assert forall|j: int| 0 <= j < i implies names[j] != key by {
                assert(!is_key(names[j]));
            }
        },
        None => {
            assert forall|j: int| 0 <= j < names.len() implies names[j] != key by {
                assert(!is_key(names[j]));
            }
        },
    }
}

/// The position of the first entry whose name has `part` as a substring.
pub open spec fn first_containing(names: Seq<Seq<char>>, part: Seq<char>) -> Option<int> {
    first_where(names, containing(part))
}

/// `first_containing` finds the first entry whose name has `part` in it, and
/// none only where no name has.
pub proof fn lemma_first_containing(names: Seq<Seq<char>>, part: Seq<char>)
    ensures
        match first_containing(names, part) {
            Some(i) => 0 <= i < names.len() && contains(names[i], part) && forall|j: int|
                0 <= j < i ==> !contains(names[j], part),
            None => forall|j: int| 0 <= j < names.len() ==> !contains(names[j], part),
        },
{
    let has_part = containing(part);
    lemma_first_where(names, has_part);
    match first_where(names, has_part) {
        Some(i) => {
            assert(has_part(names[i]));
            assert forall|j: int| 0 <= j < i implies !contains(names[j], part) by {
                assert(!has_part(names[j]));
            }
        },
        None => {
            assert forall|j: int| 0 <= j < names.len() implies !contains(names[j], part) by {
                assert(!has_part(names[j]));
            }
        },
    }
}

/// The catalog after `item` is stored under `key`: an entry of that name
/// keeps its place and gets the new item, a new name goes to the end.
pub open spec fn inserted<T>(entries: Seq<(Seq<char>, T)>, key: Seq<char>, item: T) -> Seq<
    (Seq<char>, T),
> {
    match position_of(names(entries), key) {
        Some(i) => entries.update(i, (key, item)),
        None => entries.push((key, item)),
    }
}

/// An ordered mapping from names to collections. No name occurs twice, and
/// the entries stay in the order in which their names first came.
pub struct Catalog<T> {
    entries: Vec<(String, T)>,
}

impl<T> View for Catalog<T> {
    type V = Seq<(Seq<char>, T)>;

    closed spec fn view(&self) -> Seq<(Seq<char>, T)> {
        Seq::new(self.entries@.len(), |i: int| (self.entries@[i].0@, self.entries@[i].1))
    }
}

impl<T> Catalog<T> {
    #[verifier::type_invariant]
    spec fn names_are_distinct(&self) -> bool {
        forall|i: int, j: int|
            0 <= i < j < self.entries@.len() ==> self.entries@[i].0@ != self.entries@[j].0@
    }

    /// An empty catalog.
    pub fn new() -> (c: Self)
        ensures
            c@ == Seq::<(Seq<char>, T)>::empty(),
    {
        Catalog { entries: Vec::new() }
    }

    /// The number of entries.
    pub fn len(&self) -> (n: usize)
        ensures
            n == self@.len(),
    {
        self.entries.len()
    }

    /// The position of the entry named `key`.
    pub fn position(&self, key: &str) -> (r: Option<usize>)
        ensures
            match r {
                Some(i) => i < self@.len() && position_of(names(self@), key@) == Some(i as int),
                None => position_of(names(self@), key@) is None,
            },
    {
        let wanted = key.to_owned();
        let mut i: usize = 0;
        while i < self.entries.len()
            invariant
                i <= self.entries.len(),
                wanted@ == key@,
                forall|j: int| 0 <= j < i ==> names(self@)[j] != key@,
            decreases self.entries.len() - i,
        {
            if self.entries[i].0 == wanted {
                proof {
                    lemma_position_of(names(self@), key@);
                    assert(names(self@)[i as int] == key@);
                }
                return Some(i);
            }
            i += 1;
        }
        proof {
            lemma_position_of(names(self@), key@);
        }
        None
    }

    /// Stores `item` under `key`. An entry of that name keeps its place and
    /// gets the new item; a new name goes to the end.
    pub fn insert(&mut self, key: String, item: T)
        ensures
            final(self)@ == inserted(old(self)@, key@, item),
    {
        proof {
            use_type_invariant(&*self);
            lemma_position_of(names(self@), key@);
        }
        let place = self.position(key.as_str());
        let ghost before = self.entries@;
        let ghost listed = names(self@);
        // The entries are taken out while they change, so that the catalog
        // holds distinct names at every step.
        let mut entries: Vec<(String, T)> = Vec::new();
        std::mem::swap(&mut self.entries, &mut entries);
        match place {
            Some(i) => {
                entries.set(i, (key, item));
            },
            None => {
                entries.push((key, item));
            },
        }
        proof {
            assert forall|i: int, j: int| 0 <= i < j < entries@.len() implies entries@[i].0@
                != entries@[j].0@ by {
                if i < before.len() {
                    assert(listed[i] == before[i].0@);
                }
                if j < before.len() {
                    assert(listed[j] == before[j].0@);
                }
            }
        }
        std::mem::swap(&mut self.entries, &mut entries);
        assert(self@ =~= inserted(old(self)@, key@, item));
    }

    /// The position of the first entry whose name has `part` as a substring.
    pub fn find_containing(&self, part: &str) -> (r: Option<usize>)
        ensures
            match r {
                Some(i) => i < self@.len() && first_containing(names(self@), part@) == Some(
                    i as int,
                ),
                None => first_containing(names(self@), part@) is None,
            },
    {
        let mut i: usize = 0;
        while i < self.entries.len()
            invariant
                i <= self.entries.len(),
                forall|j: int| 0 <= j < i ==> !contains(names(self@)[j], part@),
            decreases self.entries.len() - i,
        {
            if str_contains(self.entries[i].0.as_str(), part) {
                proof {
                    lemma_first_containing(names(self@), part@);
                    assert(contains(names(self@)[i as int], part@));
                }
                return Some(i);
            }
            i += 1;
        }
        proof {
            lemma_first_containing(names(self@), part@);
        }
        None
    }

    /// The item of the entry at position `i`, if the catalog has that many.
    pub fn item(&self, i: usize) -> (r: Option<&T>)
        ensures
            match r {
                Some(item) => i < self@.len() && *item == self@[i as int].1,
                None => i >= self@.len(),
            },
    {
        if i < self.entries.len() {
            Some(&self.entries[i].1)
        } else {
            None
        }
    }

    /// The name of the entry at position `i`, if the catalog has that many.
    pub fn name(&self, i: usize) -> (r: Option<&str>)
        ensures
            match r {
                Some(name) => i < self@.len() && name@ == self@[i as int].0,
                None => i >= self@.len(),
            },
    {
        if i < self.entries.len() {
            Some(self.entries[i].0.as_str())
        } else {
            None
        }
    }

    /// The item stored under `key`.
    pub fn get(&self, key: &str) -> (r: Option<&T>)
        ensures
            match position_of(names(self@), key@) {
                Some(i) => r == Some(&self@[i].1),
                None => r is None,
            },
    {
        match self.position(key) {
            Some(i) => Some(&self.entries[i].1),
            None => None,
        }
    }

    /// The names of all entries, in catalog order. No name occurs twice.
    pub fn keys(&self) -> (r: Vec<String>)
        ensures
            strings_view(r@) == names(self@),
            names(self@).no_duplicates(),
    {
        proof {
            use_type_invariant(self);
        }
        let mut r: Vec<String> = Vec::new();
        let mut i: usize = 0;
        while i < self.entries.len()
            invariant
                i <= self.entries.len(),
                r@.len() == i,
                forall|j: int| 0 <= j < i ==> r@[j]@ == names(self@)[j],
            decreases self.entries.len() - i,
        {
            r.push(self.entries[i].0.clone());
            i += 1;
        }
        assert(strings_view(r@) =~= names(self@));
        r
    }
}

/// The name under which an album is listed: its title, `" - "`, and the name
/// of the first artist that the web service gives for it.
pub open spec fn album_key(wrapper: AlbumWrapperModel, album: Album) -> Seq<char> {
    dashed(album.name@, wrapper.album.artists@[0].name@)
}

/// The playlist catalog that results from storing each of `found`, in order,
/// under its own name.
pub open spec fn playlist_entries(found: Seq<Playlist>) -> Seq<(Seq<char>, Playlist)>
    decreases found.len(),
{
    if found.len() == 0 {
        Seq::empty()
    } else {
        inserted(playlist_entries(found.drop_last()), found.last().name@, found.last())
    }
}

/// The album catalog that results from storing each album of `found`, in
/// order, under its `album_key`.
pub open spec fn album_entries(found: Seq<(AlbumWrapperModel, Album)>) -> Seq<(Seq<char>, Album)>
    decreases found.len(),
{
    if found.len() == 0 {
        Seq::empty()
    } else {
        inserted(
            album_entries(found.drop_last()),
            album_key(found.last().0, found.last().1),
            found.last().1,
        )
    }
}

/// The user's playlists and albums.
pub struct Fetcher {
    playlists: Catalog<Playlist>,
    albums: Catalog<Album>,
}

/// What a `Fetcher` holds: the entries of its two catalogs.
pub struct FetcherView {
    pub playlists: Seq<(Seq<char>, Playlist)>,
    pub albums: Seq<(Seq<char>, Album)>,
}

impl View for Fetcher {
    type V = FetcherView;

    closed spec fn view(&self) -> FetcherView {
        FetcherView { playlists: self.playlists@, albums: self.albums@ }
    }
}

impl Fetcher {
    /// Builds the catalog from what was fetched: the playlists, and the
    /// albums, each with the web service's description of it. Of two entries
    /// with one name the later one stays, in the place of the earlier.
    pub fn new(playlists: Vec<Playlist>, albums: Vec<(AlbumWrapperModel, Album)>) -> (f: Fetcher)
        requires
            forall|i: int| 0 <= i < albums@.len() ==> albums@[i].0.album.artists@.len() > 0,
        ensures
            f@.playlists == playlist_entries(playlists@),
            f@.albums == album_entries(albums@),
    {
        let ghost all_playlists = playlists@;
        let ghost all_albums = albums@;
        let mut playlist_catalog: Catalog<Playlist> = Catalog::new();
        for playlist in it: playlists
            invariant
                it.seq() == all_playlists,
                playlist_catalog@ == playlist_entries(all_playlists.take(it.index() as int)),
        {
            proof {
                let done = all_playlists.take(it.index() + 1);
                assert(done.drop_last() == all_playlists.take(it.index() as int));
                assert(done.last() == playlist);
            }
            let key = playlist.name.clone();
            playlist_catalog.insert(key, playlist);
        }
        assert(all_playlists.take(all_playlists.len() as int) == all_playlists);
        let mut album_catalog: Catalog<Album> = Catalog::new();
        for entry in it: albums
            invariant
                it.seq() == all_albums,
                forall|i: int|
                    0 <= i < all_albums.len() ==> all_albums[i].0.album.artists@.len() > 0,
                album_catalog@ == album_entries(all_albums.take(it.index() as int)),
        {
            proof {
                let done = all_albums.take(it.index() + 1);
                assert(done.drop_last() == all_albums.take(it.index() as int));
                assert(done.last() == entry);
            }
            let (wrapper, album) = entry;
            let key = dash_join(album.name.as_str(), wrapper.album.artists[0].name.as_str());
            album_catalog.insert(key, album);
        }
        assert(all_albums.take(all_albums.len() as int) == all_albums);
        Fetcher { playlists: playlist_catalog, albums: album_catalog }
    }

    /// The playlists, by name.
    pub fn playlists(&self) -> (r: &Catalog<Playlist>)
        ensures
            r@ == self@.playlists,
    {
        &self.playlists
    }

    /// The albums, by title and artist.
    pub fn albums(&self) -> (r: &Catalog<Album>)
        ensures
            r@ == self@.albums,
    {
        &self.albums
    }
}

} // verus!
