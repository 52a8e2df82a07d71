//! Adding the tracks of a parsed track list to a resolved playlist.
//!
//! The pipeline projects the parsed records to their track identifiers, asks
//! the remote service what the playlist already holds, drops everything it
//! has and every repetition, and hands the remainder to the service in a
//! single addition call — or reports the distinguished `NoNewTracks` outcome
//! when nothing is left. As in playlist resolution, every decision taken on
//! a remote answer is made by a step function that receives that answer as
//! an argument and whose contract fixes the whole transition:
//! [`plan_addition`] for the listing answer, [`finish_addition`] for the
//! addition answer.

use vstd::prelude::*;

use crate::playlist::PlaylistAPI;
use crate::tracks::{
    dedup_track_ids, filter_listing, id_views, lemma_new_tracks_characterization,
    lemma_selected_empty, lemma_selected_is_set_difference, spec_listing_views, spec_new_tracks,
    spec_selected,
};

verus! {

/// A track record from an external tabular export: a human-readable name and
/// the identifier of the track in the remote catalog. The name is
/// informational only; the logic reads nothing but the identifier.
#[derive(Debug, Clone)]
pub struct Song {
    /// A human readable name of the song
    pub music: String,
    /// The remote catalog identifier of the track
    pub song_id: String,
}

/// The identifiers of the songs, in input order.
pub open spec fn spec_song_ids(songs: Seq<Song>) -> Seq<Seq<char>> {
    songs.map_values(|s: Song| s.song_id@)
}

/// Used to get the ID out of the Song struct.
fn get_track_id_from_song(song: &Song) -> (r: String)
    ensures
        r@ == song.song_id@,
{
    song.song_id.clone()
}

/// Project the songs to their track identifiers, in order.
fn collect_track_ids(songs: &Vec<Song>) -> (r: Vec<String>)
    ensures
        id_views(r@) == spec_song_ids(songs@),
{
    let mut r: Vec<String> = Vec::new();
    let mut i: usize = 0;
    while i < songs.len()
        invariant
            i <= songs@.len(),
            id_views(r@) == spec_song_ids(songs@).take(i as int),
        decreases songs@.len() - i,
    {
        let ghost pre = id_views(r@);
        r.push(get_track_id_from_song(&songs[i]));
        proof {
            let sv = spec_song_ids(songs@);
            assert(sv.take(i as int + 1) =~= sv.take(i as int).push(sv[i as int]));
            assert(id_views(r@) =~= pre.push(sv[i as int]));
        }
        i += 1;
    }
    proof {
        assert(spec_song_ids(songs@).take(songs@.len() as int) =~= spec_song_ids(songs@));
    }
    r
}

/// An error when there are no new tracks to add to the playlist.
///
/// Not a failure of the remote service: it is the expected outcome of a run
/// whose every desired track the playlist already holds, and callers can
/// tell it from a transport error by its tag.
#[derive(Debug, Copy, Clone, PartialEq)]
pub struct NoNewTracks {}

impl NoNewTracks {
    /// A human-readable message, in place of a `Display` implementation.
    pub fn message(&self) -> (r: String)
        ensures
            r@ == "No tracks to add to playlist"@,
    {
        String::from_str("No tracks to add to playlist")
    }
}

/// The ways a run of [`add_songs_to_playlist`] can end short of success.
#[derive(Debug, Copy, Clone, PartialEq)]
pub enum PlaylistAddError<E> {
    /// Generic playlist error from the remote service
    APIError(E),
    /// Every desired track was already present; nothing was submitted
    NoNewTracks(NoNewTracks),
}

/// What the listing answer obliges a run to do next.
///
/// The sync engine's analogue of [`crate::playlist::ResolveState`]:
/// [`plan_addition`] computes it from the listing answer, and the run acts
/// it out — one addition call for `Submit`, none otherwise.
#[derive(Debug, PartialEq)]
pub enum SyncPlan<E> {
    /// Submit exactly these identifiers in one addition call.
    Submit(Vec<String>),
    /// Every desired identifier is already present: the run ends in the
    /// distinguished `NoNewTracks` outcome and no addition call is owed.
    NothingToAdd,
    /// The listing failed: the run ends with this error and no addition
    /// call is owed.
    Failed(E),
}

/// The run outcome that an addition answer maps to: success stays success,
/// and an addition failure surfaces unchanged in kind.
pub open spec fn spec_add_outcome<E>(add: Result<(), E>) -> Result<(), PlaylistAddError<E>> {
    match add {
        Ok(u) => Ok(u),
        Err(e) => Err(PlaylistAddError::APIError(e)),
    }
}

/// What a run submits for addition, as a function of the desired
/// identifiers and the listing answer: nothing on a failed listing or an
/// empty selection, else exactly the selection.
pub open spec fn spec_submitted<E>(
    desired: Seq<Seq<char>>,
    listing: Result<Seq<Seq<char>>, E>,
) -> Option<Seq<Seq<char>>> {
    match listing {
        Err(_) => None,
        Ok(existing) => {
            let selected = spec_selected(desired, existing);
            if selected.len() == 0 {
                None
            } else {
                Some(selected)
            }
        },
    }
}

/// The outcome of one run, as a function of the desired identifiers and the
/// answers of the two remote calls it can issue — the listing call, and,
/// only when something is left to add, the addition call.
pub open spec fn spec_sync_outcome<E>(
    desired: Seq<Seq<char>>,
    listing: Result<Seq<Seq<char>>, E>,
    add: Result<(), E>,
) -> Result<(), PlaylistAddError<E>> {
    match listing {
        Err(e) => Err(PlaylistAddError::APIError(e)),
        Ok(existing) => {
            if spec_selected(desired, existing).len() == 0 {
                Err(PlaylistAddError::NoNewTracks(NoNewTracks {}))
            } else {
                spec_add_outcome(add)
            }
        },
    }
}

/// Decide one run from the listing answer: pass a failed listing through,
/// end the run when nothing is left to add, else hand out exactly the
/// selection to submit. The last two clauses apply the run model to the
/// plan: they fix what is submitted, and the run's outcome for every
/// possible addition answer.
pub fn plan_addition<E>(track_ids: &Vec<String>, listing: Result<Vec<String>, E>) -> (p: SyncPlan<
    E,
>)
    ensures
        p is Failed <==> listing is Err,
        listing matches Err(e) ==> (p matches SyncPlan::Failed(pe) && pe == e),
        listing matches Ok(existing) ==> ({
            let selected = spec_selected(id_views(track_ids@), id_views(existing@));
            &&& (p is NothingToAdd <==> selected.len() == 0)
            &&& (p matches SyncPlan::Submit(sel) ==> id_views(sel@) == selected)
        }),
        (match p {
            SyncPlan::Submit(sel) => Some(id_views(sel@)),
            _ => None::<Seq<Seq<char>>>,
        }) == spec_submitted(id_views(track_ids@), spec_listing_views(listing)),
        forall|add: Result<(), E>|
            #[trigger] spec_sync_outcome(id_views(track_ids@), spec_listing_views(listing), add)
                == (match p {
                SyncPlan::Submit(_) => spec_add_outcome(add),
                SyncPlan::NothingToAdd => Err(PlaylistAddError::NoNewTracks(NoNewTracks {})),
                SyncPlan::Failed(e) => Err(PlaylistAddError::APIError(e)),
            }),
{
    let ghost l = listing;
    match filter_listing(track_ids, listing) {
        Err(e) => SyncPlan::Failed(e),
        Ok(kept) => {
            let selected = dedup_track_ids(&kept);
            proof {
                assert(l is Ok);
                assert(id_views(selected@) == spec_selected(
                    id_views(track_ids@),
                    id_views(l->Ok_0@),
                ));
            }
            if selected.is_empty() {
                SyncPlan::NothingToAdd
            } else {
                SyncPlan::Submit(selected)
            }
        },
    }
}

/// Conclude a run from the addition answer: success stays success, and an
/// addition failure surfaces unchanged in kind.
pub fn finish_addition<E>(add: Result<(), E>) -> (r: Result<(), PlaylistAddError<E>>)
    ensures
        r == spec_add_outcome(add),
{
    match add {
        Ok(_) => Ok(()),
        Err(e) => Err(PlaylistAddError::APIError(e)),
    }
}

/// Filter tracks that are already in the playlist.
///
/// Asks the remote service for the playlist's current contents and hands
/// the answer to [`filter_listing`], whose contract fixes the whole step:
/// a failed listing passes through unchanged, and a successful one keeps
/// exactly the desired identifiers the playlist does not hold. This
/// function's own contract states what holds of every answer.
pub fn filter_duplicates<E, A: PlaylistAPI<E>>(
    playlist_api: &A,
    playlist_id: &str,
    track_ids: Vec<String>,
) -> (r: Result<Vec<String>, E>)
    ensures
        r matches Ok(kept) ==> exists|existing: Seq<Seq<char>>|
            id_views(kept@) == spec_new_tracks(id_views(track_ids@), existing),
        r matches Ok(kept) ==> id_views(kept@).to_set() <= id_views(track_ids@).to_set(),
{
    let listing = playlist_api.get_track_ids_in_playlist(playlist_id);
    let ghost l = listing;
    let r = filter_listing(&track_ids, listing);
    proof {
        if r is Ok {
            let ev = id_views(l->Ok_0@);
            assert(id_views(r->Ok_0@) == spec_new_tracks(id_views(track_ids@), ev));
            lemma_new_tracks_characterization(id_views(track_ids@), ev);
            assert forall|x: Seq<char>| id_views(r->Ok_0@).to_set().contains(x) implies id_views(
                track_ids@,
            ).to_set().contains(x) by {
                assert(id_views(r->Ok_0@).contains(x));
            }
        }
    }
    r
}

/// Add songs to a playlist using the input API.
///
/// Projects the songs to their identifiers, asks the remote service what
/// the playlist already holds, and acts out the plan that [`plan_addition`]
/// computes from the answer: submit the selection in one addition call, end
/// in the distinguished `NoNewTracks` outcome, or pass the listing failure
/// through. The remote calls decide the outcome, so this contract states
/// only what holds of every answer; the decisions themselves are pinned by
/// [`plan_addition`] and [`finish_addition`], whose contracts realise
/// [`spec_sync_outcome`] and [`spec_submitted`] on the answers observed.
pub fn add_songs_to_playlist<E, A: PlaylistAPI<E>>(
    playlist_api: &A,
    playlist_id: &str,
    songs: Vec<Song>,
) -> (r: Result<(), PlaylistAddError<E>>)
    ensures
        songs@.len() == 0 ==> !(r is Ok),
{
    let track_ids = collect_track_ids(&songs);
    let listing = playlist_api.get_track_ids_in_playlist(playlist_id);
    let ghost l = listing;
    match plan_addition(&track_ids, listing) {
        SyncPlan::Failed(e) => Err(PlaylistAddError::APIError(e)),
        SyncPlan::NothingToAdd => Err(PlaylistAddError::NoNewTracks(NoNewTracks {})),
        SyncPlan::Submit(selected) => {
            proof {
                if songs@.len() == 0 {
                    // An empty desired list selects nothing, so no plan of
                    // it submits; this arm is out of reach.
                    assert(l is Ok);
                    let ev = id_views(l->Ok_0@);
                    assert(spec_new_tracks(id_views(track_ids@), ev).len() == 0);
                    assert(spec_selected(id_views(track_ids@), ev).len() == 0);
                }
            }
            finish_addition(
                playlist_api.add_tracks_to_playlist(playlist_id, selected.as_slice()),
            )
        },
    }
}

/// Whatever a run submits for addition is exactly the set difference
/// `desired minus existing`, with no identifier twice — however the desired
/// identifiers are ordered and however often each repeats.
pub proof fn lemma_sync_submits_set_difference<E>(desired: Seq<Seq<char>>, existing: Seq<Seq<char>>)
    ensures
        spec_submitted(desired, Result::<Seq<Seq<char>>, E>::Ok(existing)) matches Some(s)
            ==> s.to_set() == desired.to_set().difference(existing.to_set())
            && s.no_duplicates(),
{
    lemma_selected_is_set_difference(desired, existing);
}

/// When every desired identifier is already present, the run ends in the
/// distinguished `NoNewTracks` outcome and submits nothing, whatever the
/// addition capability would have answered.
pub proof fn lemma_sync_nothing_to_add<E>(
    desired: Seq<Seq<char>>,
    existing: Seq<Seq<char>>,
    add: Result<(), E>,
)
    requires
        desired.to_set().difference(existing.to_set()) =~= Set::<Seq<char>>::empty(),
    ensures
        spec_sync_outcome(desired, Result::<Seq<Seq<char>>, E>::Ok(existing), add) == Result::<
            (),
            PlaylistAddError<E>,
        >::Err(PlaylistAddError::NoNewTracks((NoNewTracks {}))),
        spec_submitted(desired, Result::<Seq<Seq<char>>, E>::Ok(existing)) is None,
{
    lemma_selected_empty(desired, existing);
}

/// A failed listing call fails the run with that very error, and nothing is
/// submitted.
pub proof fn lemma_sync_listing_error<E>(desired: Seq<Seq<char>>, e: E, add: Result<(), E>)
    ensures
        spec_sync_outcome(desired, Result::<Seq<Seq<char>>, E>::Err(e), add) == Result::<
            (),
            PlaylistAddError<E>,
        >::Err(PlaylistAddError::APIError(e)),
        spec_submitted(desired, Result::<Seq<Seq<char>>, E>::Err(e)) is None,
{
}

/// When something is left to add and the addition succeeds, the run ends in
/// the success outcome and submits exactly the selection.
pub proof fn lemma_sync_added<E>(desired: Seq<Seq<char>>, existing: Seq<Seq<char>>)
    requires
        !(desired.to_set().difference(existing.to_set()) =~= Set::<Seq<char>>::empty()),
    ensures
        spec_sync_outcome(
            desired,
            Result::<Seq<Seq<char>>, E>::Ok(existing),
            Result::<(), E>::Ok(()),
        ) == Result::<(), PlaylistAddError<E>>::Ok(()),
        spec_submitted(desired, Result::<Seq<Seq<char>>, E>::Ok(existing)) == Some(
            spec_selected(desired, existing),
        ),
{
    lemma_selected_empty(desired, existing);
}

/// When something is left to add and the addition fails, that error is the
/// run's outcome, unchanged in kind.
pub proof fn lemma_sync_addition_error<E>(desired: Seq<Seq<char>>, existing: Seq<Seq<char>>, e: E)
    ensures
        !(desired.to_set().difference(existing.to_set()) =~= Set::<Seq<char>>::empty())
            ==> spec_sync_outcome(
            desired,
            Result::<Seq<Seq<char>>, E>::Ok(existing),
            Result::<(), E>::Err(e),
        ) == Result::<(), PlaylistAddError<E>>::Err(PlaylistAddError::APIError(e)),
{
    lemma_selected_empty(desired, existing);
}

} // verus!
