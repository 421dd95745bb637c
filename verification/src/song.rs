//! The song records that make up the catalog.

use vstd::prelude::*;

verus! {

/// One song of the catalog: a display title plus locators for the audio
/// track and the banner image. Identity for selection purposes is the
/// record's position in the resolved catalog, never its content, so
/// duplicate titles are allowed.
#[derive(Clone, Debug)]
pub struct SongInfo {
    pub title: String,
    pub ogg: String,
    pub banner: String,
}

impl SongInfo {
    /// Build a record from its three fields.
    pub fn new(title: String, ogg: String, banner: String) -> (s: SongInfo)
        ensures
            s.title == title,
            s.ogg == ogg,
            s.banner == banner,
    {
        SongInfo { title, ogg, banner }
    }
}

/// The shape of a resolved catalog source: the ordered list of songs.
/// Catalog order is significant — it fixes each song's index identity.
#[derive(Clone, Debug)]
pub struct Assets {
    pub songs: Vec<SongInfo>,
}

} // verus!
