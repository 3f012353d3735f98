use ray_tracer::music::{Artist, Error, NewArtist, UpdatedArtist};

#[test]
fn new_artist_is_not_stored_yet() {
    let artist = Artist::new("Rick Roll".into(), "Never Gonna Give You Up".into());
    assert_eq!(artist.id, 0);
    assert_eq!(artist.name, "Rick Roll");
    assert_eq!(artist.description, "Never Gonna Give You Up");
}

#[test]
fn request_becomes_an_artist() {
    let request = NewArtist { name: "Gorillaz".into(), description: "19/2000".into() };
    let artist = request.into_artist();
    assert_eq!(artist.id, 0);
    assert_eq!(artist.name, "Gorillaz");
    assert_eq!(artist.description, "19/2000");
}

#[test]
fn update_replaces_only_what_it_names() {
    let stored = Artist { id: 7, name: "Rick Roll".into(), description: "Never".into() };
    let change = UpdatedArtist { id: 7, name: Some("Rick Astley".into()), description: None };
    let artist = change.apply(stored);
    assert_eq!(artist.id, 7);
    assert_eq!(artist.name, "Rick Astley");
    assert_eq!(artist.description, "Never");
}

#[test]
fn update_of_both_fields() {
    let stored = Artist { id: 3, name: "a".into(), description: "b".into() };
    let change =
        UpdatedArtist { id: 3, name: Some("c".into()), description: Some("d".into()) };
    let artist = change.apply(stored);
    assert_eq!((artist.id, artist.name.as_str(), artist.description.as_str()), (3, "c", "d"));
}

#[test]
fn empty_update_changes_nothing() {
    let stored = Artist { id: 3, name: "a".into(), description: "b".into() };
    let change = UpdatedArtist { id: 3, name: None, description: None };
    let artist = change.apply(stored);
    assert_eq!((artist.id, artist.name.as_str(), artist.description.as_str()), (3, "a", "b"));
}

#[test]
fn error_carries_its_details() {
    let error = Error { details: "no such artist".into() };
    assert_eq!(error.details, "no such artist");
    assert_eq!(format!("{:?}", error), "Error { details: \"no such artist\" }");
}
