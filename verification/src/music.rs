//! The records of the artists' catalogue, and the rule by which a stored
//! artist takes up a change.

use vstd::prelude::*;

verus! {

/// An artist as the catalogue stores it. The store assigns `id`; an artist
/// that was not stored yet has the id 0.
#[derive(Debug)]
pub struct Artist {
    pub id: i32,
    pub name: String,
    pub description: String,
}

/// What a client sends to have an artist stored.
#[derive(Debug)]
pub struct NewArtist {
    pub name: String,
    pub description: String,
}

/// What a client sends to change the artist `id`: each field either holds
/// the new text or is absent, and an absent field changes nothing.
#[derive(Debug)]
pub struct UpdatedArtist {
    pub id: i32,
    pub name: Option<String>,
    pub description: Option<String>,
}

/// Why the catalogue could not answer.
#[derive(Debug)]
pub struct Error {
    pub details: String,
}

impl Artist {
    /// An artist that is not stored yet.
    pub fn new(name: String, description: String) -> (r: Self)
        ensures
            r.id == 0,
            r.name == name,
            r.description == description,
    {
        Artist { id: 0, name, description }
    }
}

impl NewArtist {
    /// The artist to store for this request.
    pub fn into_artist(self) -> (r: Artist)
        ensures
            r.id == 0,
            r.name == self.name,
            r.description == self.description,
    {
        Artist::new(self.name, self.description)
    }
}

impl UpdatedArtist {
    /// The stored `artist` after this change: the fields that the change
    /// names are replaced, the others and the id are kept.
    pub fn apply(self, artist: Artist) -> (r: Artist)
        ensures
            r.id == artist.id,
            r.name == match self.name {
                Some(name) => name,
                None => artist.name,
            },
            r.description == match self.description {
                Some(description) => description,
                None => artist.description,
            },
    {
        let mut artist = artist;
        if let Some(name) = self.name {
            artist.name = name;
        }
        if let Some(description) = self.description {
            artist.description = description;
        }
        artist
    }
}

} // verus!
