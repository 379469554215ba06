//! The six queries of the music service, answered against a loaded dataset.
use vstd::prelude::*;

use crate::dataset::{playlist_views, song_views, user_views, Dataset, DatasetView};
use crate::model::{Playlist, PlaylistView, Song, SongView, User};

verus! {

/// Holds a playlist whose id is among `ids`.
pub open spec fn playlist_id_in(ids: Seq<i32>) -> spec_fn(PlaylistView) -> bool {
    |p: PlaylistView| ids.contains(p.id)
}

/// Holds a song whose id is among `ids`.
pub open spec fn song_id_in(ids: Seq<i32>) -> spec_fn(SongView) -> bool {
    |s: SongView| ids.contains(s.id)
}

/// Holds a playlist that lists the song `song_id`.
pub open spec fn lists_song(song_id: i32) -> spec_fn(PlaylistView) -> bool {
    |p: PlaylistView| p.songs.contains(song_id)
}

/// The playlists of user `user_id`, in dataset order; none for an unknown user.
pub open spec fn playlists_of_user(d: DatasetView, user_id: i32) -> Seq<PlaylistView> {
    match d.user_with_id(user_id) {
        Some(u) => d.playlists.filter(playlist_id_in(u.playlists)),
        None => Seq::empty(),
    }
}

/// The songs of playlist `playlist_id`, in dataset order; none for an unknown playlist.
pub open spec fn songs_of_playlist(d: DatasetView, playlist_id: i32) -> Seq<SongView> {
    match d.playlist_with_id(playlist_id) {
        Some(p) => d.songs.filter(song_id_in(p.songs)),
        None => Seq::empty(),
    }
}

/// The playlists that list song `song_id`, in dataset order.
pub open spec fn playlists_containing_song(d: DatasetView, song_id: i32) -> Seq<PlaylistView> {
    d.playlists.filter(lists_song(song_id))
}

/// Whether `x` occurs in `ids`.
pub fn contains_id(ids: &Vec<i32>, x: i32) -> (r: bool)
    ensures
        r == ids@.contains(x),
{
    let mut i: usize = 0;
    while i < ids.len()
        invariant
            i <= ids@.len(),
            forall|j: int| 0 <= j < i ==> ids@[j] != x,
        decreases ids@.len() - i,
    {
        if ids[i] == x {
            assert(ids@[i as int] == x);
            return true;
        }
        i = i + 1;
    }
    false
}

/// The playlists of `ps` whose id is among `ids`, in the order of `ps`.
pub fn playlists_with_ids(ps: &Vec<Playlist>, ids: &Vec<i32>) -> (r: Vec<Playlist>)
    ensures
        playlist_views(r@) == playlist_views(ps@).filter(playlist_id_in(ids@)),
{
    let ghost all = playlist_views(ps@);
    let mut r: Vec<Playlist> = Vec::new();
    let mut i: usize = 0;
    while i < ps.len()
        invariant
            i <= ps@.len(),
            all == playlist_views(ps@),
            playlist_views(r@) == all.subrange(0, i as int).filter(playlist_id_in(ids@)),
        decreases ps@.len() - i,
    {
        let ghost before = r@;
        if contains_id(ids, ps[i].id) {
            r.push(ps[i].duplicate());
            assert(playlist_views(r@) =~= playlist_views(before).push(all[i as int]));
        }
        assert(all.subrange(0, i + 1).drop_last() =~= all.subrange(0, i as int));
        reveal(Seq::filter);
        i = i + 1;
    }
    assert(all.subrange(0, ps@.len() as int) =~= all);
    r
}

/// The playlists of `ps` that list song `song_id`, in the order of `ps`.
pub fn playlists_listing(ps: &Vec<Playlist>, song_id: i32) -> (r: Vec<Playlist>)
    ensures
        playlist_views(r@) == playlist_views(ps@).filter(lists_song(song_id)),
{
    let ghost all = playlist_views(ps@);
    let mut r: Vec<Playlist> = Vec::new();
    let mut i: usize = 0;
    while i < ps.len()
        invariant
            i <= ps@.len(),
            all == playlist_views(ps@),
            playlist_views(r@) == all.subrange(0, i as int).filter(lists_song(song_id)),
        decreases ps@.len() - i,
    {
        let ghost before = r@;
        if contains_id(&ps[i].songs, song_id) {
            r.push(ps[i].duplicate());
            assert(playlist_views(r@) =~= playlist_views(before).push(all[i as int]));
        }
        assert(all.subrange(0, i + 1).drop_last() =~= all.subrange(0, i as int));
        reveal(Seq::filter);
        i = i + 1;
    }
    assert(all.subrange(0, ps@.len() as int) =~= all);
    r
}

/// The songs of `ss` whose id is among `ids`, in the order of `ss`.
pub fn songs_with_ids(ss: &Vec<Song>, ids: &Vec<i32>) -> (r: Vec<Song>)
    ensures
        song_views(r@) == song_views(ss@).filter(song_id_in(ids@)),
{
    let ghost all = song_views(ss@);
    let mut r: Vec<Song> = Vec::new();
    let mut i: usize = 0;
    while i < ss.len()
        invariant
            i <= ss@.len(),
            all == song_views(ss@),
            song_views(r@) == all.subrange(0, i as int).filter(song_id_in(ids@)),
        decreases ss@.len() - i,
    {
        let ghost before = r@;
        if contains_id(ids, ss[i].id) {
            r.push(ss[i].duplicate());
            assert(song_views(r@) =~= song_views(before).push(all[i as int]));
        }
        assert(all.subrange(0, i + 1).drop_last() =~= all.subrange(0, i as int));
        reveal(Seq::filter);
        i = i + 1;
    }
    assert(all.subrange(0, ss@.len() as int) =~= all);
    r
}

/// The music service. It holds no state: every query is answered from the
/// dataset handed to it.
#[derive(Debug, Default)]
pub struct MyMusicService {}

impl MyMusicService {

    /// Every user, in dataset order.
    pub fn get_users(&self, data: &Dataset) -> (r: Vec<User>)
        ensures
            user_views(r@) == data@.users,
    {
        let mut r: Vec<User> = Vec::new();
        let mut i: usize = 0;
        while i < data.users.len()
            invariant
                i <= data.users@.len(),
                user_views(r@) == data@.users.subrange(0, i as int),
            decreases data.users@.len() - i,
        {
            let ghost before = r@;
            r.push(data.users[i].duplicate());
            assert(user_views(r@) =~= user_views(before).push(data@.users[i as int]));
            assert(user_views(r@) =~= data@.users.subrange(0, i + 1));
            i = i + 1;
        }
        assert(data@.users.subrange(0, data.users@.len() as int) =~= data@.users);
        r
    }

    /// Every playlist, in dataset order.
    pub fn get_playlists(&self, data: &Dataset) -> (r: Vec<Playlist>)
        ensures
            playlist_views(r@) == data@.playlists,
    {
        let mut r: Vec<Playlist> = Vec::new();
        let mut i: usize = 0;
        while i < data.playlists.len()
            invariant
                i <= data.playlists@.len(),
                playlist_views(r@) == data@.playlists.subrange(0, i as int),
            decreases data.playlists@.len() - i,
        {
            let ghost before = r@;
            r.push(data.playlists[i].duplicate());
            assert(playlist_views(r@) =~= playlist_views(before).push(data@.playlists[i as int]));
            assert(playlist_views(r@) =~= data@.playlists.subrange(0, i + 1));
            i = i + 1;
        }
        assert(data@.playlists.subrange(0, data.playlists@.len() as int) =~= data@.playlists);
        r
    }

    /// Every song, in dataset order.
    pub fn get_songs(&self, data: &Dataset) -> (r: Vec<Song>)
        ensures
            song_views(r@) == data@.songs,
    {
        let mut r: Vec<Song> = Vec::new();
        let mut i: usize = 0;
        while i < data.songs.len()
            invariant
                i <= data.songs@.len(),
                song_views(r@) == data@.songs.subrange(0, i as int),
            decreases data.songs@.len() - i,
        {
            let ghost before = r@;
            r.push(data.songs[i].duplicate());
            assert(song_views(r@) =~= song_views(before).push(data@.songs[i as int]));
            assert(song_views(r@) =~= data@.songs.subrange(0, i + 1));
            i = i + 1;
        }
        assert(data@.songs.subrange(0, data.songs@.len() as int) =~= data@.songs);
        r
    }

    /// The playlists owned by user `user_id`, in dataset order; none where
    /// no user has that id.
    pub fn get_user_playlists(&self, data: &Dataset, user_id: i32) -> (r: Vec<Playlist>)
        ensures
            playlist_views(r@) == playlists_of_user(data@, user_id),
    {
        match data.find_user(user_id) {
            Some(user) => playlists_with_ids(&data.playlists, &user.playlists),
            None => {
                let r: Vec<Playlist> = Vec::new();
                assert(playlist_views(r@) =~= Seq::empty());
                r
            },
        }
    }

    /// The songs of playlist `playlist_id`, in dataset order; none where no
    /// playlist has that id.
    pub fn get_playlist_songs(&self, data: &Dataset, playlist_id: i32) -> (r: Vec<Song>)
        ensures
            song_views(r@) == songs_of_playlist(data@, playlist_id),
    {
        match data.find_playlist(playlist_id) {
            Some(playlist) => songs_with_ids(&data.songs, &playlist.songs),
            None => {
                let r: Vec<Song> = Vec::new();
                assert(song_views(r@) =~= Seq::empty());
                r
            },
        }
    }

    /// The playlists that list song `song_id`, in dataset order. The song
    /// itself need not exist.
    pub fn get_playlists_containing_song(&self, data: &Dataset, song_id: i32) -> (r: Vec<
        Playlist,
    >)
        ensures
            playlist_views(r@) == playlists_containing_song(data@, song_id),
    {
        playlists_listing(&data.playlists, song_id)
    }
}

} // verus!
