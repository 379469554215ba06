//! An immutable snapshot of the catalogue, with lookups by id.
use vstd::prelude::*;

use crate::model::{Playlist, PlaylistView, Song, SongView, User, UserView};

verus! {

/// `k` is the first position of `x` in `ids`.
pub open spec fn first_match(ids: Seq<i32>, x: i32, k: int) -> bool {
    &&& 0 <= k < ids.len()
    &&& ids[k] == x
    &&& forall|j: int| 0 <= j < k ==> ids[j] != x
}

/// The first position of `x` in `ids`, if it occurs there.
pub open spec fn position(ids: Seq<i32>, x: i32) -> Option<int> {
    if exists|k: int| first_match(ids, x, k) {
        Some(choose|k: int| first_match(ids, x, k))
    } else {
        None
    }
}

pub open spec fn user_views(v: Seq<User>) -> Seq<UserView> {
    v.map_values(|u: User| u@)
}

pub open spec fn playlist_views(v: Seq<Playlist>) -> Seq<PlaylistView> {
    v.map_values(|p: Playlist| p@)
}

pub open spec fn song_views(v: Seq<Song>) -> Seq<SongView> {
    v.map_values(|s: Song| s@)
}

pub open spec fn user_ids(s: Seq<UserView>) -> Seq<i32> {
    s.map_values(|u: UserView| u.id)
}

pub open spec fn playlist_ids(s: Seq<PlaylistView>) -> Seq<i32> {
    s.map_values(|p: PlaylistView| p.id)
}

pub open spec fn song_ids(s: Seq<SongView>) -> Seq<i32> {
    s.map_values(|s: SongView| s.id)
}

/// The three collections, each in the order of the source.
pub struct DatasetView {
    pub users: Seq<UserView>,
    pub playlists: Seq<PlaylistView>,
    pub songs: Seq<SongView>,
}

impl DatasetView {
    /// The user with id `id`; where ids repeat, the first one.
    pub open spec fn user_with_id(self, id: i32) -> Option<UserView> {
        match position(user_ids(self.users), id) {
            Some(k) => Some(self.users[k]),
            None => None,
        }
    }

    /// The playlist with id `id`; where ids repeat, the first one.
    pub open spec fn playlist_with_id(self, id: i32) -> Option<PlaylistView> {
        match position(playlist_ids(self.playlists), id) {
            Some(k) => Some(self.playlists[k]),
            None => None,
        }
    }

    /// The song with id `id`; where ids repeat, the first one.
    pub open spec fn song_with_id(self, id: i32) -> Option<SongView> {
        match position(song_ids(self.songs), id) {
            Some(k) => Some(self.songs[k]),
            None => None,
        }
    }
}

/// A loaded snapshot of users, playlists and songs. Relationship ids may
/// point at entities that are not there; such ids simply match nothing.
pub struct Dataset {
    pub users: Vec<User>,
    pub playlists: Vec<Playlist>,
    pub songs: Vec<Song>,
}

impl View for Dataset {
    type V = DatasetView;

    open spec fn view(&self) -> DatasetView {
        DatasetView {
            users: user_views(self.users@),
            playlists: playlist_views(self.playlists@),
            songs: song_views(self.songs@),
        }
    }
}

/// The first position is the only one.
pub proof fn lemma_first_match_unique(ids: Seq<i32>, x: i32, k: int)
    requires
        first_match(ids, x, k),
    ensures
        position(ids, x) == Some(k),
{
    let c = choose|c: int| first_match(ids, x, c);
    assert(first_match(ids, x, c));
    if c < k {
        assert(ids[c] != x);
    } else if k < c {
        assert(ids[k] != x);
    }
}

impl Dataset {
    pub fn new(users: Vec<User>, playlists: Vec<Playlist>, songs: Vec<Song>) -> (r: Dataset)
        ensures
            r.users@ == users@,
            r.playlists@ == playlists@,
            r.songs@ == songs@,
    {
        Dataset { users, playlists, songs }
    }

    /// All users, in the order of the source.
    pub fn users(&self) -> (r: &Vec<User>)
        ensures
            r@ == self.users@,
    {
        &self.users
    }

    /// All playlists, in the order of the source.
    pub fn playlists(&self) -> (r: &Vec<Playlist>)
        ensures
            r@ == self.playlists@,
    {
        &self.playlists
    }

    /// All songs, in the order of the source.
    pub fn songs(&self) -> (r: &Vec<Song>)
        ensures
            r@ == self.songs@,
    {
        &self.songs
    }

    /// The user with id `id`, absent where no user has it.
    pub fn find_user(&self, id: i32) -> (r: Option<&User>)
        ensures
            match r {
                Some(u) => self@.user_with_id(id) == Some(u@),
                None => self@.user_with_id(id) is None,
            },
    {
        let ghost ids = user_ids(self@.users);
        let mut i: usize = 0;
        while i < self.users.len()
            invariant
                i <= self.users@.len(),
                ids == user_ids(self@.users),
                forall|j: int| 0 <= j < i ==> ids[j] != id,
            decreases self.users@.len() - i,
        {
            if self.users[i].id == id {
                proof {
                    assert(ids[i as int] == id);
                    lemma_first_match_unique(ids, id, i as int);
                }
                return Some(&self.users[i]);
            }
            i = i + 1;
        }
        None
    }

    /// The playlist with id `id`, absent where no playlist has it.
    pub fn find_playlist(&self, id: i32) -> (r: Option<&Playlist>)
        ensures
            match r {
                Some(p) => self@.playlist_with_id(id) == Some(p@),
                None => self@.playlist_with_id(id) is None,
            },
    {
        let ghost ids = playlist_ids(self@.playlists);
        let mut i: usize = 0;
        while i < self.playlists.len()
            invariant
                i <= self.playlists@.len(),
                ids == playlist_ids(self@.playlists),
                forall|j: int| 0 <= j < i ==> ids[j] != id,
            decreases self.playlists@.len() - i,
        {
            if self.playlists[i].id == id {
                proof {
                    assert(ids[i as int] == id);
                    lemma_first_match_unique(ids, id, i as int);
                }
                return Some(&self.playlists[i]);
            }
            i = i + 1;
        }
        None
    }

    /// The song with id `id`, absent where no song has it.
    pub fn find_song(&self, id: i32) -> (r: Option<&Song>)
        ensures
            match r {
                Some(s) => self@.song_with_id(id) == Some(s@),
                None => self@.song_with_id(id) is None,
            },
    {
        let ghost ids = song_ids(self@.songs);
        let mut i: usize = 0;
        while i < self.songs.len()
            invariant
                i <= self.songs@.len(),
                ids == song_ids(self@.songs),
                forall|j: int| 0 <= j < i ==> ids[j] != id,
            decreases self.songs@.len() - i,
        {
            if self.songs[i].id == id {
                proof {
                    assert(ids[i as int] == id);
                    lemma_first_match_unique(ids, id, i as int);
                }
                return Some(&self.songs[i]);
            }
            i = i + 1;
        }
        None
    }
}

} // verus!
