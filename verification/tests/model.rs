use trackcard::model::{Album, Artist, Track};

fn artist(name: &str) -> Artist {
    Artist { id: String::from("id"), name: String::from(name), genres: None }
}

fn track(artists: Vec<Artist>) -> Track {
    Track {
        id: String::from("t"),
        name: String::from("Song"),
        album: Album { album_type: String::from("album"), images: vec![], name: String::from("X") },
        artists,
    }
}

#[test]
fn artists_join_two() {
    let t = track(vec![artist("Alice"), artist("Bob")]);
    assert_eq!(t.artists(), "Alice, Bob");
}

#[test]
fn artists_join_one() {
    let t = track(vec![artist("Solo")]);
    assert_eq!(t.artists(), "Solo");
}

#[test]
fn artists_join_none() {
    let t = track(vec![]);
    assert_eq!(t.artists(), "");
}

#[test]
fn genres_tagged_and_joined() {
    let a = Artist {
        id: String::from("id"),
        name: String::from("N"),
        genres: Some(vec![String::from("pop"), String::from("city rock")]),
    };
    assert_eq!(a.genres(), Some(String::from("#pop #city rock")));
}

#[test]
fn genres_absent() {
    let a = artist("N");
    assert_eq!(a.genres(), None);
}

#[test]
fn genres_empty_list() {
    let a = Artist { id: String::from("id"), name: String::from("N"), genres: Some(vec![]) };
    assert_eq!(a.genres(), Some(String::new()));
}
