//! Entities of the catalogue and their mathematical views.
use vstd::prelude::*;

verus! {

/// A listener, with the ids of the playlists it owns.
#[derive(Debug)]
pub struct User {
    pub id: i32,
    pub name: String,
    pub age: i32,
    pub playlists: Vec<i32>,
}

/// A named playlist, with the ids of the songs it contains.
#[derive(Debug)]
pub struct Playlist {
    pub id: i32,
    pub name: String,
    pub songs: Vec<i32>,
}

/// A song, with its title and artist.
#[derive(Debug)]
pub struct Song {
    pub id: i32,
    pub name: String,
    pub artist: String,
}

pub struct UserView {
    pub id: i32,
    pub name: Seq<char>,
    pub age: i32,
    pub playlists: Seq<i32>,
}

pub struct PlaylistView {
    pub id: i32,
    pub name: Seq<char>,
    pub songs: Seq<i32>,
}

pub struct SongView {
    pub id: i32,
    pub name: Seq<char>,
    pub artist: Seq<char>,
}

impl View for User {
    type V = UserView;

    open spec fn view(&self) -> UserView {
        UserView { id: self.id, name: self.name@, age: self.age, playlists: self.playlists@ }
    }
}

impl View for Playlist {
    type V = PlaylistView;

    open spec fn view(&self) -> PlaylistView {
        PlaylistView { id: self.id, name: self.name@, songs: self.songs@ }
    }
}

impl View for Song {
    type V = SongView;

    open spec fn view(&self) -> SongView {
        SongView { id: self.id, name: self.name@, artist: self.artist@ }
    }
}

/// A copy of a list of ids.
pub fn copy_ids(ids: &Vec<i32>) -> (r: Vec<i32>)
    ensures
        r@ == ids@,
{
    let mut r: Vec<i32> = Vec::new();
    let mut i: usize = 0;
    while i < ids.len()
        invariant
            i <= ids@.len(),
            r@ == ids@.subrange(0, i as int),
        decreases ids@.len() - i,
    {
        r.push(ids[i]);
        i = i + 1;
    }
    r
}

impl User {
    /// An independent copy of this user.
    pub fn duplicate(&self) -> (r: User)
        ensures
            r@ == self@,
    {
        User {
            id: self.id,
            name: self.name.clone(),
            age: self.age,
            playlists: copy_ids(&self.playlists),
        }
    }
}

impl Playlist {
    /// An independent copy of this playlist.
    pub fn duplicate(&self) -> (r: Playlist)
        ensures
            r@ == self@,
    {
        Playlist { id: self.id, name: self.name.clone(), songs: copy_ids(&self.songs) }
    }
}

impl Song {
    /// An independent copy of this song.
    pub fn duplicate(&self) -> (r: Song)
        ensures
            r@ == self@,
    {
        Song { id: self.id, name: self.name.clone(), artist: self.artist.clone() }
    }
}

} // verus!
