use music_catalog::load::decode_int;
use music_catalog::{load, Dataset, Fetched, Json, LoadError, MyMusicService};

fn text(s: &str) -> Json {
    Json::Str(s.to_string())
}

fn object(fields: Vec<(&str, Json)>) -> Json {
    Json::Object(fields.into_iter().map(|(k, v)| (k.to_string(), v)).collect())
}

fn ids(xs: &[i64]) -> Json {
    Json::Array(xs.iter().map(|x| Json::Int(*x)).collect())
}

fn user_doc(id: i64, name: &str, age: i64, playlists: &[i64]) -> Json {
    object(vec![
        ("id", Json::Int(id)),
        ("name", text(name)),
        ("age", Json::Int(age)),
        ("playlists", ids(playlists)),
    ])
}

fn playlist_doc(id: i64, name: &str, songs: &[i64]) -> Json {
    object(vec![("id", Json::Int(id)), ("name", text(name)), ("songs", ids(songs))])
}

fn song_doc(id: i64, name: &str, artist: &str) -> Json {
    object(vec![("id", Json::Int(id)), ("name", text(name)), ("artist", text(artist))])
}

fn seed_doc() -> Json {
    object(vec![
        (
            "users",
            Json::Array(vec![
                user_doc(1, "Ana", 25, &[1, 2]),
                user_doc(2, "Bruno", 31, &[3]),
                user_doc(3, "Carla", 19, &[]),
            ]),
        ),
        (
            "playlists",
            Json::Array(vec![
                playlist_doc(1, "Rock", &[1, 2, 3]),
                playlist_doc(2, "Pop", &[4, 5]),
                playlist_doc(3, "Jazz", &[6, 7, 8, 2]),
            ]),
        ),
        ("songs", Json::Array((1..=8).map(|i| song_doc(i, "Title", "Artist")).collect())),
    ])
}

fn malformed(doc: Json) -> bool {
    matches!(Dataset::from_json(&doc), Err(LoadError::Malformed))
}

#[test]
fn seed_document_loads_and_answers() {
    let data = load(Fetched::Document(seed_doc())).unwrap();
    let service = MyMusicService::default();
    assert_eq!(service.get_users(&data).len(), 3);
    assert_eq!(service.get_playlists(&data).len(), 3);
    assert_eq!(service.get_songs(&data).len(), 8);
    let mine: Vec<i32> = service.get_user_playlists(&data, 1).iter().map(|p| p.id).collect();
    assert_eq!(mine, vec![1, 2]);
    let songs: Vec<i32> = service.get_playlist_songs(&data, 1).iter().map(|s| s.id).collect();
    assert_eq!(songs, vec![1, 2, 3]);
    let with_one: Vec<i32> =
        service.get_playlists_containing_song(&data, 1).iter().map(|p| p.id).collect();
    assert_eq!(with_one, vec![1]);
    assert!(service.get_user_playlists(&data, 999).is_empty());
}

#[test]
fn loaded_fields_are_kept() {
    let data = Dataset::from_json(&seed_doc()).unwrap();
    assert_eq!(data.users[1].name, "Bruno");
    assert_eq!(data.users[1].age, 31);
    assert_eq!(data.users[1].playlists, vec![3]);
    assert_eq!(data.playlists[2].songs, vec![6, 7, 8, 2]);
    assert_eq!(data.songs[0].artist, "Artist");
}

#[test]
fn unreadable_store() {
    assert!(matches!(load(Fetched::Unreadable), Err(LoadError::Unreadable)));
}

#[test]
fn content_that_is_not_a_document() {
    assert!(matches!(load(Fetched::NotADocument), Err(LoadError::Malformed)));
}

#[test]
fn missing_songs_collection_is_malformed() {
    let doc = object(vec![
        ("users", Json::Array(vec![user_doc(1, "Ana", 25, &[1])])),
        ("playlists", Json::Array(vec![playlist_doc(1, "Rock", &[1])])),
    ]);
    assert!(matches!(load(Fetched::Document(doc)), Err(LoadError::Malformed)));
}

#[test]
fn collection_that_is_not_a_list_is_malformed() {
    let doc = object(vec![
        ("users", Json::Array(vec![])),
        ("playlists", Json::Array(vec![])),
        ("songs", object(vec![])),
    ]);
    assert!(malformed(doc));
}

#[test]
fn document_that_is_not_an_object_is_malformed() {
    assert!(malformed(Json::Array(vec![])));
    assert!(malformed(Json::Null));
}

#[test]
fn record_with_wrong_field_type_is_malformed() {
    let bad_user = object(vec![
        ("id", text("1")),
        ("name", text("Ana")),
        ("age", Json::Int(25)),
        ("playlists", ids(&[])),
    ]);
    let doc = object(vec![
        ("users", Json::Array(vec![user_doc(2, "Bruno", 31, &[]), bad_user])),
        ("playlists", Json::Array(vec![])),
        ("songs", Json::Array(vec![])),
    ]);
    assert!(malformed(doc));
}

#[test]
fn record_missing_a_field_is_malformed() {
    let bad_song = object(vec![("id", Json::Int(1)), ("name", text("Title"))]);
    let doc = object(vec![
        ("users", Json::Array(vec![])),
        ("playlists", Json::Array(vec![])),
        ("songs", Json::Array(vec![bad_song])),
    ]);
    assert!(malformed(doc));
}

#[test]
fn reference_list_with_non_integer_is_malformed() {
    let bad_playlist = object(vec![
        ("id", Json::Int(1)),
        ("name", text("Rock")),
        ("songs", Json::Array(vec![Json::Int(1), Json::OtherNumber])),
    ]);
    let doc = object(vec![
        ("users", Json::Array(vec![])),
        ("playlists", Json::Array(vec![bad_playlist])),
        ("songs", Json::Array(vec![])),
    ]);
    assert!(malformed(doc));
}

#[test]
fn id_out_of_range_is_malformed() {
    let doc = object(vec![
        ("users", Json::Array(vec![user_doc(1i64 << 40, "Ana", 25, &[])])),
        ("playlists", Json::Array(vec![])),
        ("songs", Json::Array(vec![])),
    ]);
    assert!(malformed(doc));
}

#[test]
fn empty_collections_load() {
    let doc = object(vec![
        ("songs", Json::Array(vec![])),
        ("users", Json::Array(vec![])),
        ("playlists", Json::Array(vec![])),
    ]);
    let data = Dataset::from_json(&doc).unwrap();
    assert!(data.users.is_empty() && data.playlists.is_empty() && data.songs.is_empty());
}

#[test]
fn unknown_keys_are_ignored() {
    let song = object(vec![
        ("genre", text("rock")),
        ("id", Json::Int(4)),
        ("name", text("Four")),
        ("artist", text("D")),
    ]);
    let doc = object(vec![
        ("users", Json::Array(vec![])),
        ("playlists", Json::Array(vec![])),
        ("songs", Json::Array(vec![song])),
        ("version", Json::Int(2)),
    ]);
    let data = Dataset::from_json(&doc).unwrap();
    assert_eq!(data.songs[0].id, 4);
    assert_eq!(data.songs[0].name, "Four");
}

#[test]
fn integer_decoding_bounds() {
    assert_eq!(decode_int(&Json::Int(7)), Some(7));
    assert_eq!(decode_int(&Json::Int(-2147483648)), Some(i32::MIN));
    assert_eq!(decode_int(&Json::Int(2147483647)), Some(i32::MAX));
    assert_eq!(decode_int(&Json::Int(2147483648)), None);
    assert_eq!(decode_int(&Json::Bool(true)), None);
    assert_eq!(decode_int(&text("7")), None);
}
