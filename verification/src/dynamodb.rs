//! The earlier, plainer track-addition pipeline for DynamoDB CSV exports.
//!
//! It filters out tracks the playlist already holds and submits the rest in
//! one addition call, without deduplicating repeats inside the export and
//! without a distinguished "nothing to add" outcome — the addition call is
//! issued even for an empty remainder, and the remote adapter decides what
//! that means. [`crate::csv_to_playlist`] is the richer successor.

use vstd::prelude::*;

use crate::playlist::PlaylistAPI;
use crate::tracks::{
    filter_listing, id_views, lemma_new_tracks_characterization, spec_new_tracks,
};

verus! {

/// A track record from a DynamoDB export to CSV: a human-readable name and
/// the identifier of the track in the remote catalog.
#[derive(Debug)]
pub struct Song {
    /// A human readable name of the song
    pub music: String,
    /// The remote catalog identifier of the track
    pub song_id: String,
}

/// The identifiers of the songs, in input order.
pub open spec fn spec_song_ids(songs: Seq<Song>) -> Seq<Seq<char>> {
    songs.map_values(|s: Song| s.song_id@)
}

/// Used to get the ID out of the Song struct.
fn get_track_id_from_song(song: &Song) -> (r: String)
    ensures
        r@ == song.song_id@,
{
    song.song_id.clone()
}

/// Project the songs to their track identifiers, in order.
fn collect_track_ids(songs: &Vec<Song>) -> (r: Vec<String>)
    ensures
        id_views(r@) == spec_song_ids(songs@),
{
    let mut r: Vec<String> = Vec::new();
    let mut i: usize = 0;
    while i < songs.len()
        invariant
            i <= songs@.len(),
            id_views(r@) == spec_song_ids(songs@).take(i as int),
        decreases songs@.len() - i,
    {
        let ghost pre = id_views(r@);
        r.push(get_track_id_from_song(&songs[i]));
        proof {
            let sv = spec_song_ids(songs@);
            assert(sv.take(i as int + 1) =~= sv.take(i as int).push(sv[i as int]));
            assert(id_views(r@) =~= pre.push(sv[i as int]));
        }
        i += 1;
    }
    proof {
        assert(spec_song_ids(songs@).take(songs@.len() as int) =~= spec_song_ids(songs@));
    }
    r
}

/// Filter tracks that are already in the playlist.
///
/// Asks the remote service for the playlist's current contents and hands
/// the answer to [`filter_listing`], whose contract fixes the whole step:
/// a failed listing passes through unchanged, and a successful one keeps
/// exactly the desired identifiers the playlist does not hold. This
/// function's own contract states what holds of every answer.
pub fn filter_duplicates<E, A: PlaylistAPI<E>>(
    playlist_api: &A,
    playlist_id: &str,
    track_ids: Vec<String>,
) -> (r: Result<Vec<String>, E>)
    ensures
        r matches Ok(kept) ==> exists|existing: Seq<Seq<char>>|
            id_views(kept@) == spec_new_tracks(id_views(track_ids@), existing),
        r matches Ok(kept) ==> id_views(kept@).to_set() <= id_views(track_ids@).to_set(),
{
    let listing = playlist_api.get_track_ids_in_playlist(playlist_id);
    let ghost l = listing;
    let r = filter_listing(&track_ids, listing);
    proof {
        if r is Ok {
            let ev = id_views(l->Ok_0@);
            assert(id_views(r->Ok_0@) == spec_new_tracks(id_views(track_ids@), ev));
            lemma_new_tracks_characterization(id_views(track_ids@), ev);
            assert forall|x: Seq<char>| id_views(r->Ok_0@).to_set().contains(x) implies id_views(
                track_ids@,
            ).to_set().contains(x) by {
                assert(id_views(r->Ok_0@).contains(x));
            }
        }
    }
    r
}

/// Add songs to a playlist using the input API.
///
/// Projects the songs to their identifiers, keeps those the playlist does
/// not already hold, and submits them in one addition call. The remote calls
/// decide the outcome; what survives the filter for a known listing is
/// pinned down by [`filter_new_tracks`].
pub fn add_songs_to_playlist<E, A: PlaylistAPI<E>>(
    playlist_api: &A,
    playlist_id: &str,
    songs: Vec<Song>,
) -> (r: Result<(), E>)
{
    let track_ids = collect_track_ids(&songs);
    let filtered = match filter_duplicates(playlist_api, playlist_id, track_ids) {
        Ok(f) => f,
        Err(e) => {
            return Err(e);
        },
    };
    match playlist_api.add_tracks_to_playlist(playlist_id, filtered.as_slice()) {
        Ok(_) => Ok(()),
        Err(e) => Err(e),
    }
}

} // verus!
