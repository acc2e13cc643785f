//! Wire types of the catalog, with their models.

use vstd::prelude::*;

verus! {

/// One track of the catalog.
#[derive(Clone, Debug, PartialEq, Eq)]
pub struct Track {
    pub id: String,
    /// The track's title.
    pub name: String,
    /// The name of the artist.
    pub artist_name: String,
    /// The address from which the track streams.
    pub audio: String,
}

/// The model of a [`Track`].
pub struct TrackView {
    pub id: Seq<char>,
    pub name: Seq<char>,
    pub artist_name: Seq<char>,
    pub audio: Seq<char>,
}

impl View for Track {
    type V = TrackView;

    open spec fn view(&self) -> TrackView {
        TrackView {
            id: self.id@,
            name: self.name@,
            artist_name: self.artist_name@,
            audio: self.audio@,
        }
    }
}

/// The models of a run of tracks, in order.
pub open spec fn tracks_view(tracks: Seq<Track>) -> Seq<TrackView> {
    Seq::new(tracks.len(), |i: int| tracks[i]@)
}

/// A catalog reply that parsed.
#[derive(Debug)]
pub struct JamendoResponse {
    pub results: Vec<Track>,
}

impl View for JamendoResponse {
    type V = Seq<TrackView>;

    open spec fn view(&self) -> Seq<TrackView> {
        tracks_view(self.results@)
    }
}

} // verus!
