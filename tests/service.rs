use music_catalog::{Dataset, MyMusicService, Playlist, Song, User};

fn user(id: i32, name: &str, age: i32, playlists: Vec<i32>) -> User {
    User { id, name: name.to_string(), age, playlists }
}

fn playlist(id: i32, name: &str, songs: Vec<i32>) -> Playlist {
    Playlist { id, name: name.to_string(), songs }
}

fn song(id: i32, name: &str, artist: &str) -> Song {
    Song { id, name: name.to_string(), artist: artist.to_string() }
}

/// Three users, three playlists, eight songs.
fn seed() -> Dataset {
    Dataset::new(
        vec![
            user(1, "Ana", 25, vec![1, 2]),
            user(2, "Bruno", 31, vec![3]),
            user(3, "Carla", 19, vec![]),
        ],
        vec![
            playlist(1, "Rock", vec![1, 2, 3]),
            playlist(2, "Pop", vec![4, 5]),
            playlist(3, "Jazz", vec![6, 7, 8, 2]),
        ],
        vec![
            song(1, "Song One", "Artist A"),
            song(2, "Song Two", "Artist B"),
            song(3, "Song Three", "Artist C"),
            song(4, "Song Four", "Artist D"),
            song(5, "Song Five", "Artist E"),
            song(6, "Song Six", "Artist F"),
            song(7, "Song Seven", "Artist G"),
            song(8, "Song Eight", "Artist H"),
        ],
    )
}

fn playlist_ids(ps: &[Playlist]) -> Vec<i32> {
    ps.iter().map(|p| p.id).collect()
}

fn song_ids(ss: &[Song]) -> Vec<i32> {
    ss.iter().map(|s| s.id).collect()
}

#[test]
fn test_get_users() {
    let service = MyMusicService::default();
    let users = service.get_users(&seed());
    assert_eq!(users.len(), 3);
    assert_eq!(users[0].id, 1);
    assert_eq!(users[0].name, "Ana");
    assert_eq!(users[0].age, 25);
    assert_eq!(users[0].playlists, vec![1, 2]);
    assert_eq!(users[2].id, 3);
}

#[test]
fn test_get_playlists() {
    let service = MyMusicService::default();
    let playlists = service.get_playlists(&seed());
    assert_eq!(playlists.len(), 3);
    assert_eq!(playlist_ids(&playlists), vec![1, 2, 3]);
    assert_eq!(playlists[2].name, "Jazz");
    assert_eq!(playlists[2].songs, vec![6, 7, 8, 2]);
}

#[test]
fn test_get_songs() {
    let service = MyMusicService::default();
    let songs = service.get_songs(&seed());
    assert_eq!(songs.len(), 8);
    assert_eq!(songs[7].name, "Song Eight");
    assert_eq!(songs[7].artist, "Artist H");
}

#[test]
fn test_get_user_playlists() {
    let service = MyMusicService::default();
    let playlists = service.get_user_playlists(&seed(), 1);
    assert_eq!(playlists.len(), 2);
    assert_eq!(playlist_ids(&playlists), vec![1, 2]);
    assert_eq!(playlists[0].name, "Rock");
}

#[test]
fn test_get_playlist_songs() {
    let service = MyMusicService::default();
    let songs = service.get_playlist_songs(&seed(), 1);
    assert_eq!(songs.len(), 3);
    assert_eq!(song_ids(&songs), vec![1, 2, 3]);
}

#[test]
fn test_get_playlists_containing_song() {
    let service = MyMusicService::default();
    let playlists = service.get_playlists_containing_song(&seed(), 1);
    assert_eq!(playlists.len(), 1);
    assert_eq!(playlists[0].id, 1);
}

#[test]
fn unknown_user_has_no_playlists() {
    let service = MyMusicService::default();
    assert!(service.get_user_playlists(&seed(), 999).is_empty());
}

#[test]
fn unknown_playlist_has_no_songs() {
    let service = MyMusicService::default();
    assert!(service.get_playlist_songs(&seed(), 42).is_empty());
}

#[test]
fn unknown_song_is_in_no_playlist() {
    let service = MyMusicService::default();
    assert!(service.get_playlists_containing_song(&seed(), 77).is_empty());
}

#[test]
fn song_in_two_playlists() {
    let service = MyMusicService::default();
    let playlists = service.get_playlists_containing_song(&seed(), 2);
    assert_eq!(playlist_ids(&playlists), vec![1, 3]);
}

#[test]
fn user_with_no_playlists() {
    let service = MyMusicService::default();
    assert!(service.get_user_playlists(&seed(), 3).is_empty());
}

#[test]
fn output_follows_dataset_order_not_reference_order() {
    let service = MyMusicService::default();
    let data = Dataset::new(
        vec![user(1, "Ana", 25, vec![3, 1, 2])],
        vec![playlist(2, "B", vec![]), playlist(1, "A", vec![9, 5]), playlist(3, "C", vec![])],
        vec![song(5, "Five", "X"), song(9, "Nine", "Y")],
    );
    assert_eq!(playlist_ids(&service.get_user_playlists(&data, 1)), vec![2, 1, 3]);
    assert_eq!(song_ids(&service.get_playlist_songs(&data, 1)), vec![5, 9]);
}

#[test]
fn repeated_reference_ids_count_once() {
    let service = MyMusicService::default();
    let data = Dataset::new(
        vec![user(1, "Ana", 25, vec![2, 2, 2])],
        vec![playlist(2, "B", vec![4, 4])],
        vec![song(4, "Four", "X")],
    );
    assert_eq!(playlist_ids(&service.get_user_playlists(&data, 1)), vec![2]);
    assert_eq!(song_ids(&service.get_playlist_songs(&data, 2)), vec![4]);
    assert_eq!(playlist_ids(&service.get_playlists_containing_song(&data, 4)), vec![2]);
}

#[test]
fn dangling_references_match_nothing() {
    let service = MyMusicService::default();
    let data = Dataset::new(
        vec![user(1, "Ana", 25, vec![50, 1])],
        vec![playlist(1, "A", vec![60, 7])],
        vec![song(7, "Seven", "X")],
    );
    assert_eq!(playlist_ids(&service.get_user_playlists(&data, 1)), vec![1]);
    assert_eq!(song_ids(&service.get_playlist_songs(&data, 1)), vec![7]);
    assert_eq!(playlist_ids(&service.get_playlists_containing_song(&data, 60)), vec![1]);
}

#[test]
fn asking_twice_gives_the_same_answer() {
    let service = MyMusicService::default();
    let data = seed();
    let first = service.get_user_playlists(&data, 1);
    let second = service.get_user_playlists(&data, 1);
    assert_eq!(playlist_ids(&first), playlist_ids(&second));
    let a = service.get_playlist_songs(&data, 3);
    let b = service.get_playlist_songs(&data, 3);
    assert_eq!(song_ids(&a), vec![2, 6, 7, 8]);
    assert_eq!(song_ids(&a), song_ids(&b));
    let c = service.get_playlists_containing_song(&data, 2);
    let d = service.get_playlists_containing_song(&data, 2);
    assert_eq!(playlist_ids(&c), playlist_ids(&d));
}

#[test]
fn lookups_by_id() {
    let data = seed();
    assert_eq!(data.find_user(2).map(|u| u.name.clone()), Some("Bruno".to_string()));
    assert!(data.find_user(4).is_none());
    assert_eq!(data.find_playlist(3).map(|p| p.name.clone()), Some("Jazz".to_string()));
    assert!(data.find_playlist(0).is_none());
    assert_eq!(data.find_song(5).map(|s| s.artist.clone()), Some("Artist E".to_string()));
    assert!(data.find_song(-1).is_none());
    assert_eq!(data.users().len(), 3);
    assert_eq!(data.playlists().len(), 3);
    assert_eq!(data.songs().len(), 8);
}

#[test]
fn repeated_user_id_resolves_to_first() {
    let service = MyMusicService::default();
    let data = Dataset::new(
        vec![user(1, "First", 20, vec![1]), user(1, "Second", 30, vec![2])],
        vec![playlist(1, "A", vec![]), playlist(2, "B", vec![])],
        vec![],
    );
    assert_eq!(data.find_user(1).map(|u| u.name.clone()), Some("First".to_string()));
    assert_eq!(playlist_ids(&service.get_user_playlists(&data, 1)), vec![1]);
}
