//! Properties of the queries and of loading, stated over the models and
//! proved.
use vstd::prelude::*;

use crate::dataset::{first_match, lemma_first_match_unique, playlist_ids, user_ids, DatasetView};
use crate::json::{member, Json};
use crate::load::{
    as_playlist, as_song, as_user, decode_each, lemma_decode_prefix_fails, lemma_decode_step,
    load_result, playlist_of, song_of, user_of, Fetched, LoadError,
};
use crate::model::{PlaylistView, SongView};
use crate::service::{
    lists_song, playlist_id_in, playlists_containing_song, playlists_of_user, song_id_in,
    songs_of_playlist,
};

verus! {

broadcast use {vstd::seq_lib::group_seq_properties, vstd::seq_lib::group_filter_ensures};

/// A user id that no user has owns no playlists.
pub proof fn law_unknown_user_has_no_playlists(d: DatasetView, user_id: i32)
    requires
        !user_ids(d.users).contains(user_id),
    ensures
        playlists_of_user(d, user_id) == Seq::<PlaylistView>::empty(),
{
    if exists|k: int| first_match(user_ids(d.users), user_id, k) {
        let k = choose|k: int| first_match(user_ids(d.users), user_id, k);
        assert(user_ids(d.users)[k] == user_id);
    }
}

/// For a user id that some user has, the playlists of that user are exactly
/// the playlists of the dataset whose id the user lists.
pub proof fn law_user_playlists_exact(d: DatasetView, user_id: i32)
    requires
        user_ids(d.users).contains(user_id),
    ensures
        d.user_with_id(user_id) is Some,
        d.user_with_id(user_id)->Some_0.id == user_id,
        forall|p: PlaylistView|
            playlists_of_user(d, user_id).contains(p) <==> (d.playlists.contains(p)
                && d.user_with_id(user_id)->Some_0.playlists.contains(p.id)),
{
    let ids = user_ids(d.users);
    let i = choose|i: int| 0 <= i < ids.len() && ids[i] == user_id;
    let k = first_position(ids, user_id, i);
    lemma_first_match_unique(ids, user_id, k);
    let u = d.users[k];
    assert forall|p: PlaylistView|
        playlists_of_user(d, user_id).contains(p) <==> (d.playlists.contains(p)
            && u.playlists.contains(p.id)) by {
        if d.playlists.contains(p) && u.playlists.contains(p.id) {
            let n = d.playlists.index_of(p);
            d.playlists.lemma_filter_contains(playlist_id_in(u.playlists), n);
        }
        if playlists_of_user(d, user_id).contains(p) {
            d.playlists.lemma_filter_contains_rev(playlist_id_in(u.playlists), p);
            let n = playlists_of_user(d, user_id).index_of(p);
            d.playlists.lemma_filter_pred(playlist_id_in(u.playlists), n);
        }
    }
}

/// Some position of `x` at or before `i` is its first one.
proof fn first_position(ids: Seq<i32>, x: i32, i: int) -> (k: int)
    requires
        0 <= i < ids.len(),
        ids[i] == x,
    ensures
        first_match(ids, x, k),
    decreases i,
{
    if exists|j: int| 0 <= j < i && ids[j] == x {
        let j = choose|j: int| 0 <= j < i && ids[j] == x;
        first_position(ids, x, j)
    } else {
        i
    }
}


/// A playlist id that no playlist has lists no songs.
pub proof fn law_unknown_playlist_has_no_songs(d: DatasetView, playlist_id: i32)
    requires
        !playlist_ids(d.playlists).contains(playlist_id),
    ensures
        songs_of_playlist(d, playlist_id) == Seq::<SongView>::empty(),
{
    if exists|k: int| first_match(playlist_ids(d.playlists), playlist_id, k) {
        let k = choose|k: int| first_match(playlist_ids(d.playlists), playlist_id, k);
        assert(playlist_ids(d.playlists)[k] == playlist_id);
    }
}

/// For a playlist id that some playlist has, the songs of that playlist are
/// exactly the songs of the dataset whose id the playlist lists.
pub proof fn law_playlist_songs_exact(d: DatasetView, playlist_id: i32)
    requires
        playlist_ids(d.playlists).contains(playlist_id),
    ensures
        d.playlist_with_id(playlist_id) is Some,
        d.playlist_with_id(playlist_id)->Some_0.id == playlist_id,
        forall|s: SongView|
            songs_of_playlist(d, playlist_id).contains(s) <==> (d.songs.contains(s)
                && d.playlist_with_id(playlist_id)->Some_0.songs.contains(s.id)),
{
    let ids = playlist_ids(d.playlists);
    let i = choose|i: int| 0 <= i < ids.len() && ids[i] == playlist_id;
    let k = first_position(ids, playlist_id, i);
    lemma_first_match_unique(ids, playlist_id, k);
    let p = d.playlists[k];
    assert forall|s: SongView|
        songs_of_playlist(d, playlist_id).contains(s) <==> (d.songs.contains(s)
            && p.songs.contains(s.id)) by {
        if d.songs.contains(s) && p.songs.contains(s.id) {
            let n = d.songs.index_of(s);
            d.songs.lemma_filter_contains(song_id_in(p.songs), n);
        }
        if songs_of_playlist(d, playlist_id).contains(s) {
            d.songs.lemma_filter_contains_rev(song_id_in(p.songs), s);
            let n = songs_of_playlist(d, playlist_id).index_of(s);
            d.songs.lemma_filter_pred(song_id_in(p.songs), n);
        }
    }
}

/// The playlists containing a song are exactly the playlists of the dataset
/// that list its id; the song itself need not exist.
pub proof fn law_playlists_containing_song_exact(d: DatasetView, song_id: i32)
    ensures
        forall|p: PlaylistView|
            playlists_containing_song(d, song_id).contains(p) <==> (d.playlists.contains(p)
                && p.songs.contains(song_id)),
{
    assert forall|p: PlaylistView|
        playlists_containing_song(d, song_id).contains(p) <==> (d.playlists.contains(p)
            && p.songs.contains(song_id)) by {
        if d.playlists.contains(p) && p.songs.contains(song_id) {
            let n = d.playlists.index_of(p);
            d.playlists.lemma_filter_contains(lists_song(song_id), n);
        }
        if playlists_containing_song(d, song_id).contains(p) {
            d.playlists.lemma_filter_contains_rev(lists_song(song_id), p);
            let n = playlists_containing_song(d, song_id).index_of(p);
            d.playlists.lemma_filter_pred(lists_song(song_id), n);
        }
    }
}

/// A song that no playlist lists is in no playlist.
pub proof fn law_unlisted_song_in_no_playlist(d: DatasetView, song_id: i32)
    requires
        forall|i: int| 0 <= i < d.playlists.len() ==> !d.playlists[i].songs.contains(song_id),
    ensures
        playlists_containing_song(d, song_id) == Seq::<PlaylistView>::empty(),
{
    let r = playlists_containing_song(d, song_id);
    if r.len() > 0 {
        d.playlists.lemma_filter_pred(lists_song(song_id), 0);
        assert(r.contains(r[0]));
        d.playlists.lemma_filter_contains_rev(lists_song(song_id), r[0]);
        let n = choose|n: int| 0 <= n < d.playlists.len() && d.playlists[n] == r[0];
        assert(!d.playlists[n].songs.contains(song_id));
    }
    assert(r =~= Seq::<PlaylistView>::empty());
}

/// The queries depend on the dataset's contents alone: equal datasets give
/// equal answers, so asking twice gives the same answer twice.
pub proof fn law_queries_deterministic(d1: DatasetView, d2: DatasetView, id: i32)
    requires
        d1 == d2,
    ensures
        playlists_of_user(d1, id) == playlists_of_user(d2, id),
        songs_of_playlist(d1, id) == songs_of_playlist(d2, id),
        playlists_containing_song(d1, id) == playlists_containing_song(d2, id),
{
}

/// The playlists of a user follow the dataset's playlist order: they do not
/// depend on the order, or the repetitions, of the ids the user lists.
pub proof fn law_user_playlists_ignore_reference_order(d1: DatasetView, d2: DatasetView, user_id: i32)
    requires
        d1.playlists == d2.playlists,
        d1.user_with_id(user_id) is Some,
        d2.user_with_id(user_id) is Some,
        d1.user_with_id(user_id)->Some_0.playlists.to_set()
            == d2.user_with_id(user_id)->Some_0.playlists.to_set(),
    ensures
        playlists_of_user(d1, user_id) == playlists_of_user(d2, user_id),
{
    let a = d1.user_with_id(user_id)->Some_0.playlists;
    let b = d2.user_with_id(user_id)->Some_0.playlists;
    assert forall|p: PlaylistView| #[trigger] playlist_id_in(a)(p) == playlist_id_in(b)(p) by {
        assert(a.to_set().contains(p.id) == b.to_set().contains(p.id));
    }
    assert(playlist_id_in(a) =~= playlist_id_in(b));
}

/// The songs of a playlist follow the dataset's song order: they do not
/// depend on the order, or the repetitions, of the ids the playlist lists.
pub proof fn law_playlist_songs_ignore_reference_order(d1: DatasetView, d2: DatasetView, playlist_id: i32)
    requires
        d1.songs == d2.songs,
        d1.playlist_with_id(playlist_id) is Some,
        d2.playlist_with_id(playlist_id) is Some,
        d1.playlist_with_id(playlist_id)->Some_0.songs.to_set()
            == d2.playlist_with_id(playlist_id)->Some_0.songs.to_set(),
    ensures
        songs_of_playlist(d1, playlist_id) == songs_of_playlist(d2, playlist_id),
{
    let a = d1.playlist_with_id(playlist_id)->Some_0.songs;
    let b = d2.playlist_with_id(playlist_id)->Some_0.songs;
    assert forall|s: SongView| #[trigger] song_id_in(a)(s) == song_id_in(b)(s) by {
        assert(a.to_set().contains(s.id) == b.to_set().contains(s.id));
    }
    assert(song_id_in(a) =~= song_id_in(b));
}

/// A document that lacks one of the three collections loads as `Malformed`.
pub proof fn law_missing_collection_is_malformed(j: Json)
    requires
        member(j, "users"@) is None || member(j, "playlists"@) is None || member(
            j,
            "songs"@,
        ) is None,
    ensures
        load_result(Fetched::Document(j)) == Err::<DatasetView, LoadError>(LoadError::Malformed),
{
}

/// A document with one ill-formed song record loads as `Malformed`.
pub proof fn law_bad_song_is_malformed(j: Json, items: Vec<Json>, k: int)
    requires
        member(j, "songs"@) == Some(Json::Array(items)),
        0 <= k < items@.len(),
        song_of(items@[k]) is None,
    ensures
        load_result(Fetched::Document(j)) == Err::<DatasetView, LoadError>(LoadError::Malformed),
{
    lemma_decode_step(items@, as_song(), k);
    lemma_decode_prefix_fails(items@, as_song(), k + 1);
}

/// A document with one ill-formed playlist record loads as `Malformed`.
pub proof fn law_bad_playlist_is_malformed(j: Json, items: Vec<Json>, k: int)
    requires
        member(j, "playlists"@) == Some(Json::Array(items)),
        0 <= k < items@.len(),
        playlist_of(items@[k]) is None,
    ensures
        load_result(Fetched::Document(j)) == Err::<DatasetView, LoadError>(LoadError::Malformed),
{
    lemma_decode_step(items@, as_playlist(), k);
    lemma_decode_prefix_fails(items@, as_playlist(), k + 1);
}

/// A document with one ill-formed user record loads as `Malformed`.
pub proof fn law_bad_user_is_malformed(j: Json, items: Vec<Json>, k: int)
    requires
        member(j, "users"@) == Some(Json::Array(items)),
        0 <= k < items@.len(),
        user_of(items@[k]) is None,
    ensures
        load_result(Fetched::Document(j)) == Err::<DatasetView, LoadError>(LoadError::Malformed),
{
    lemma_decode_step(items@, as_user(), k);
    lemma_decode_prefix_fails(items@, as_user(), k + 1);
}

} // verus!
