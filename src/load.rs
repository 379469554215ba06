//! Building a dataset from a structured document, with the schema checked
//! eagerly: a document either yields a whole dataset or is rejected.
use vstd::prelude::*;

use crate::dataset::{playlist_views, song_views, user_views, Dataset, DatasetView};
use crate::json::{get, member, Json};
use crate::model::{Playlist, PlaylistView, Song, SongView, User, UserView};

verus! {

/// Why no dataset could be had.
#[derive(PartialEq, Eq, Structural, Debug, Clone, Copy)]
pub enum LoadError {
    /// The backing store could not be read.
    Unreadable,
    /// The content does not match the expected schema.
    Malformed,
}

/// What reading the backing store gave.
pub enum Fetched {
    /// The store could not be accessed.
    Unreadable,
    /// The store was read, but its content is not a structured document.
    NotADocument,
    /// The document that the store holds.
    Document(Json),
}

/// An integer that fits in `i32`.
pub open spec fn int_of(j: Json) -> Option<i32> {
    match j {
        Json::Int(n) => if i32::MIN <= n <= i32::MAX {
            Some(n as i32)
        } else {
            None
        },
        _ => None,
    }
}

/// Decodes every item with `f`; fails where any item fails.
pub open spec fn decode_each<A>(items: Seq<Json>, f: spec_fn(Json) -> Option<A>) -> Option<Seq<A>>
    decreases items.len(),
{
    if items.len() == 0 {
        Some(Seq::empty())
    } else {
        match (decode_each(items.drop_last(), f), f(items.last())) {
            (Some(front), Some(x)) => Some(front.push(x)),
            _ => None,
        }
    }
}

pub open spec fn as_int() -> spec_fn(Json) -> Option<i32> {
    |j: Json| int_of(j)
}

/// A list of integers that fit in `i32`.
pub open spec fn ids_of(j: Json) -> Option<Seq<i32>> {
    match j {
        Json::Array(items) => decode_each(items@, as_int()),
        _ => None,
    }
}

pub open spec fn int_at(j: Json, key: Seq<char>) -> Option<i32> {
    match member(j, key) {
        Some(v) => int_of(v),
        None => None,
    }
}

pub open spec fn text_at(j: Json, key: Seq<char>) -> Option<Seq<char>> {
    match member(j, key) {
        Some(Json::Str(s)) => Some(s@),
        _ => None,
    }
}

pub open spec fn ids_at(j: Json, key: Seq<char>) -> Option<Seq<i32>> {
    match member(j, key) {
        Some(v) => ids_of(v),
        None => None,
    }
}

/// A user record: `id`, `name`, `age`, `playlists`. Other keys are ignored.
pub open spec fn user_of(j: Json) -> Option<UserView> {
    match (int_at(j, "id"@), text_at(j, "name"@), int_at(j, "age"@), ids_at(j, "playlists"@)) {
        (Some(id), Some(name), Some(age), Some(playlists)) => Some(
            UserView { id, name, age, playlists },
        ),
        _ => None,
    }
}

/// A playlist record: `id`, `name`, `songs`. Other keys are ignored.
pub open spec fn playlist_of(j: Json) -> Option<PlaylistView> {
    match (int_at(j, "id"@), text_at(j, "name"@), ids_at(j, "songs"@)) {
        (Some(id), Some(name), Some(songs)) => Some(PlaylistView { id, name, songs }),
        _ => None,
    }
}

/// A song record: `id`, `name`, `artist`. Other keys are ignored.
pub open spec fn song_of(j: Json) -> Option<SongView> {
    match (int_at(j, "id"@), text_at(j, "name"@), text_at(j, "artist"@)) {
        (Some(id), Some(name), Some(artist)) => Some(SongView { id, name, artist }),
        _ => None,
    }
}

pub open spec fn as_user() -> spec_fn(Json) -> Option<UserView> {
    |j: Json| user_of(j)
}

pub open spec fn as_playlist() -> spec_fn(Json) -> Option<PlaylistView> {
    |j: Json| playlist_of(j)
}

pub open spec fn as_song() -> spec_fn(Json) -> Option<SongView> {
    |j: Json| song_of(j)
}

/// The list under `key`, each item decoded with `f`.
pub open spec fn list_at<A>(j: Json, key: Seq<char>, f: spec_fn(Json) -> Option<A>) -> Option<
    Seq<A>,
> {
    match member(j, key) {
        Some(Json::Array(items)) => decode_each(items@, f),
        _ => None,
    }
}

/// The dataset that a document describes: an object with the lists `users`,
/// `playlists` and `songs`, every record well formed. None for any other
/// document.
pub open spec fn dataset_of(j: Json) -> Option<DatasetView> {
    match (
        list_at(j, "users"@, as_user()),
        list_at(j, "playlists"@, as_playlist()),
        list_at(j, "songs"@, as_song()),
    ) {
        (Some(users), Some(playlists), Some(songs)) => Some(
            DatasetView { users, playlists, songs },
        ),
        _ => None,
    }
}

/// What loading gives for what was fetched.
pub open spec fn load_result(f: Fetched) -> Result<DatasetView, LoadError> {
    match f {
        Fetched::Unreadable => Err(LoadError::Unreadable),
        Fetched::NotADocument => Err(LoadError::Malformed),
        Fetched::Document(j) => match dataset_of(j) {
            Some(d) => Ok(d),
            None => Err(LoadError::Malformed),
        },
    }
}

/// Where a prefix fails to decode, so does the whole list.
pub proof fn lemma_decode_prefix_fails<A>(items: Seq<Json>, f: spec_fn(Json) -> Option<A>, i: int)
    requires
        0 <= i <= items.len(),
        decode_each(items.subrange(0, i), f) is None,
    ensures
        decode_each(items, f) is None,
    decreases items.len(),
{
    if i == items.len() {
        assert(items.subrange(0, i) =~= items);
    } else {
        assert(items.drop_last().subrange(0, i) =~= items.subrange(0, i));
        lemma_decode_prefix_fails(items.drop_last(), f, i);
    }
}

/// Decoding one more item extends the decoded prefix.
pub proof fn lemma_decode_step<A>(items: Seq<Json>, f: spec_fn(Json) -> Option<A>, i: int)
    requires
        0 <= i < items.len(),
    ensures
        decode_each(items.subrange(0, i + 1), f) == match (
            decode_each(items.subrange(0, i), f),
            f(items[i]),
        ) {
            (Some(front), Some(x)) => Some(front.push(x)),
            _ => None,
        },
{
    assert(items.subrange(0, i + 1).drop_last() =~= items.subrange(0, i));
}


/// An integer that fits in `i32`.
pub fn decode_int(j: &Json) -> (r: Option<i32>)
    ensures
        r == int_of(*j),
{
    match j {
        Json::Int(n) => {
            if i32::MIN as i64 <= *n && *n <= i32::MAX as i64 {
                Some(*n as i32)
            } else {
                None
            }
        },
        _ => None,
    }
}

/// A list of integers that fit in `i32`.
pub fn decode_ids(j: &Json) -> (r: Option<Vec<i32>>)
    ensures
        match r {
            Some(v) => ids_of(*j) == Some(v@),
            None => ids_of(*j) is None,
        },
{
    match j {
        Json::Array(items) => {
            let mut out: Vec<i32> = Vec::new();
            let mut i: usize = 0;
            assert(items@.subrange(0, 0) =~= Seq::<Json>::empty());
            while i < items.len()
                invariant
                    i <= items@.len(),
                    ids_of(*j) == decode_each(items@, as_int()),
                    decode_each(items@.subrange(0, i as int), as_int()) == Some(out@),
                decreases items@.len() - i,
            {
                proof {
                    lemma_decode_step(items@, as_int(), i as int);
                }
                match decode_int(&items[i]) {
                    Some(x) => out.push(x),
                    None => {
                        proof {
                            lemma_decode_prefix_fails(items@, as_int(), i + 1);
                        }
                        return None;
                    },
                }
                i = i + 1;
            }
            assert(items@.subrange(0, items@.len() as int) =~= items@);
            Some(out)
        },
        _ => None,
    }
}

fn read_int(j: &Json, key: &str) -> (r: Option<i32>)
    ensures
        r == int_at(*j, key@),
{
    match get(j, key) {
        Some(v) => decode_int(v),
        None => None,
    }
}

fn read_text(j: &Json, key: &str) -> (r: Option<String>)
    ensures
        match r {
            Some(s) => text_at(*j, key@) == Some(s@),
            None => text_at(*j, key@) is None,
        },
{
    match get(j, key) {
        Some(Json::Str(s)) => Some(s.clone()),
        _ => None,
    }
}

fn read_ids(j: &Json, key: &str) -> (r: Option<Vec<i32>>)
    ensures
        match r {
            Some(v) => ids_at(*j, key@) == Some(v@),
            None => ids_at(*j, key@) is None,
        },
{
    match get(j, key) {
        Some(v) => decode_ids(v),
        None => None,
    }
}

/// A user record.
pub fn decode_user(j: &Json) -> (r: Option<User>)
    ensures
        match r {
            Some(u) => user_of(*j) == Some(u@),
            None => user_of(*j) is None,
        },
{
    match (read_int(j, "id"), read_text(j, "name"), read_int(j, "age"), read_ids(j, "playlists")) {
        (Some(id), Some(name), Some(age), Some(playlists)) => Some(
            User { id, name, age, playlists },
        ),
        _ => None,
    }
}

/// A playlist record.
pub fn decode_playlist(j: &Json) -> (r: Option<Playlist>)
    ensures
        match r {
            Some(p) => playlist_of(*j) == Some(p@),
            None => playlist_of(*j) is None,
        },
{
    match (read_int(j, "id"), read_text(j, "name"), read_ids(j, "songs")) {
        (Some(id), Some(name), Some(songs)) => Some(Playlist { id, name, songs }),
        _ => None,
    }
}

/// A song record.
pub fn decode_song(j: &Json) -> (r: Option<Song>)
    ensures
        match r {
            Some(s) => song_of(*j) == Some(s@),
            None => song_of(*j) is None,
        },
{
    match (read_int(j, "id"), read_text(j, "name"), read_text(j, "artist")) {
        (Some(id), Some(name), Some(artist)) => Some(Song { id, name, artist }),
        _ => None,
    }
}

/// The list of users under `key`.
fn read_users(j: &Json, key: &str) -> (r: Option<Vec<User>>)
    ensures
        match r {
            Some(v) => list_at(*j, key@, as_user()) == Some(user_views(v@)),
            None => list_at(*j, key@, as_user()) is None,
        },
{
    let items = match get(j, key) {
        Some(Json::Array(items)) => items,
        _ => return None,
    };
    let mut out: Vec<User> = Vec::new();
    let mut i: usize = 0;
    assert(items@.subrange(0, 0) =~= Seq::<Json>::empty());
    assert(user_views(out@) =~= Seq::<UserView>::empty());
    while i < items.len()
        invariant
            i <= items@.len(),
            list_at(*j, key@, as_user()) == decode_each(items@, as_user()),
            decode_each(items@.subrange(0, i as int), as_user()) == Some(user_views(out@)),
        decreases items@.len() - i,
    {
        proof {
            lemma_decode_step(items@, as_user(), i as int);
        }
        let ghost before = out@;
        match decode_user(&items[i]) {
            Some(u) => {
                out.push(u);
                assert(user_views(out@) =~= user_views(before).push(u@));
            },
            None => {
                proof {
                    lemma_decode_prefix_fails(items@, as_user(), i + 1);
                }
                return None;
            },
        }
        i = i + 1;
    }
    assert(items@.subrange(0, items@.len() as int) =~= items@);
    Some(out)
}

/// The list of playlists under `key`.
fn read_playlists(j: &Json, key: &str) -> (r: Option<Vec<Playlist>>)
    ensures
        match r {
            Some(v) => list_at(*j, key@, as_playlist()) == Some(playlist_views(v@)),
            None => list_at(*j, key@, as_playlist()) is None,
        },
{
    let items = match get(j, key) {
        Some(Json::Array(items)) => items,
        _ => return None,
    };
    let mut out: Vec<Playlist> = Vec::new();
    let mut i: usize = 0;
    assert(items@.subrange(0, 0) =~= Seq::<Json>::empty());
    assert(playlist_views(out@) =~= Seq::<PlaylistView>::empty());
    while i < items.len()
        invariant
            i <= items@.len(),
            list_at(*j, key@, as_playlist()) == decode_each(items@, as_playlist()),
            decode_each(items@.subrange(0, i as int), as_playlist()) == Some(
                playlist_views(out@),
            ),
        decreases items@.len() - i,
    {
        proof {
            lemma_decode_step(items@, as_playlist(), i as int);
        }
        let ghost before = out@;
        match decode_playlist(&items[i]) {
            Some(p) => {
                out.push(p);
                assert(playlist_views(out@) =~= playlist_views(before).push(p@));
            },
            None => {
                proof {
                    lemma_decode_prefix_fails(items@, as_playlist(), i + 1);
                }
                return None;
            },
        }
        i = i + 1;
    }
    assert(items@.subrange(0, items@.len() as int) =~= items@);
    Some(out)
}

/// The list of songs under `key`.
fn read_songs(j: &Json, key: &str) -> (r: Option<Vec<Song>>)
    ensures
        match r {
            Some(v) => list_at(*j, key@, as_song()) == Some(song_views(v@)),
            None => list_at(*j, key@, as_song()) is None,
        },
{
    let items = match get(j, key) {
        Some(Json::Array(items)) => items,
        _ => return None,
    };
    let mut out: Vec<Song> = Vec::new();
    let mut i: usize = 0;
    assert(items@.subrange(0, 0) =~= Seq::<Json>::empty());
    assert(song_views(out@) =~= Seq::<SongView>::empty());
    while i < items.len()
        invariant
            i <= items@.len(),
            list_at(*j, key@, as_song()) == decode_each(items@, as_song()),
            decode_each(items@.subrange(0, i as int), as_song()) == Some(song_views(out@)),
        decreases items@.len() - i,
    {
        proof {
            lemma_decode_step(items@, as_song(), i as int);
        }
        let ghost before = out@;
        match decode_song(&items[i]) {
            Some(s) => {
                out.push(s);
                assert(song_views(out@) =~= song_views(before).push(s@));
            },
            None => {
                proof {
                    lemma_decode_prefix_fails(items@, as_song(), i + 1);
                }
                return None;
            },
        }
        i = i + 1;
    }
    assert(items@.subrange(0, items@.len() as int) =~= items@);
    Some(out)
}

impl Dataset {
    /// The dataset that document `j` describes, or `Malformed` where `j`
    /// does not match the schema. Nothing partial is returned.
    pub fn from_json(j: &Json) -> (r: Result<Dataset, LoadError>)
        ensures
            match r {
                Ok(d) => dataset_of(*j) == Some(d@),
                Err(e) => e == LoadError::Malformed && dataset_of(*j) is None,
            },
    {
        match (read_users(j, "users"), read_playlists(j, "playlists"), read_songs(j, "songs")) {
            (Some(users), Some(playlists), Some(songs)) => Ok(Dataset { users, playlists, songs }),
            _ => Err(LoadError::Malformed),
        }
    }
}

/// Loads a dataset from what the backing store gave.
pub fn load(fetched: Fetched) -> (r: Result<Dataset, LoadError>)
    ensures
        match r {
            Ok(d) => load_result(fetched) == Ok::<DatasetView, LoadError>(d@),
            Err(e) => load_result(fetched) == Err::<DatasetView, LoadError>(e),
        },
{
    match fetched {
        Fetched::Unreadable => Err(LoadError::Unreadable),
        Fetched::NotADocument => Err(LoadError::Malformed),
        Fetched::Document(j) => Dataset::from_json(&j),
    }
}

} // verus!
