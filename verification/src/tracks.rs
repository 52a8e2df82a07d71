//! Pure selection logic of the sync engine: which of the desired track
//! identifiers are actually submitted for addition.
//!
//! Identifiers are opaque strings compared for exact equality and never
//! parsed. All contracts speak of the character views of the identifiers, so
//! that two `String`s with the same characters count as the same track.

use vstd::prelude::*;

verus! {

/// The character views of a sequence of identifiers.
pub open spec fn id_views(ids: Seq<String>) -> Seq<Seq<char>> {
    ids.map_values(|id: String| id@)
}

/// The desired identifiers that the playlist does not already hold, in input
/// order, duplicates kept.
pub open spec fn spec_new_tracks(desired: Seq<Seq<char>>, existing: Seq<Seq<char>>) -> Seq<
    Seq<char>,
>
    decreases desired.len(),
{
    if desired.len() == 0 {
        Seq::empty()
    } else {
        let rest = spec_new_tracks(desired.drop_last(), existing);
        if existing.contains(desired.last()) {
            rest
        } else {
            rest.push(desired.last())
        }
    }
}

/// First-occurrence deduplication: each identifier keeps its first position
/// and loses every later repetition.
pub open spec fn spec_dedup(ids: Seq<Seq<char>>) -> Seq<Seq<char>>
    decreases ids.len(),
{
    if ids.len() == 0 {
        Seq::empty()
    } else {
        let rest = spec_dedup(ids.drop_last());
        if rest.contains(ids.last()) {
            rest
        } else {
            rest.push(ids.last())
        }
    }
}

/// What one sync run submits: the desired identifiers, minus the existing
/// ones, deduplicated.
pub open spec fn spec_selected(desired: Seq<Seq<char>>, existing: Seq<Seq<char>>) -> Seq<
    Seq<char>,
> {
    spec_dedup(spec_new_tracks(desired, existing))
}

/// A non-empty sequence holds an element exactly when its front part holds
/// it or it is the last element.
proof fn lemma_drop_last_contains(s: Seq<Seq<char>>)
    requires
        s.len() > 0,
    ensures
        forall|x: Seq<char>|
            #[trigger] s.contains(x) <==> s.drop_last().contains(x) || x == s.last(),
{
    assert forall|x: Seq<char>| #[trigger] s.contains(x) implies s.drop_last().contains(x) || x
        == s.last() by {
        let i = choose|i: int| 0 <= i < s.len() && s[i] == x;
        if i < s.len() - 1 {
            assert(s.drop_last()[i] == x);
        }
    }
    assert forall|x: Seq<char>| s.drop_last().contains(x) || x == s.last() implies #[trigger] s
        .contains(x) by {
        if s.drop_last().contains(x) {
            let i = choose|i: int| 0 <= i < s.drop_last().len() && s.drop_last()[i] == x;
            assert(s[i] == x);
        } else {
            assert(s[s.len() - 1] == x);
        }
    }
}

/// Appending an element adds exactly that element to the members.
proof fn lemma_push_contains(s: Seq<Seq<char>>, y: Seq<char>)
    ensures
        forall|x: Seq<char>| #[trigger] s.push(y).contains(x) <==> s.contains(x) || x == y,
{
    assert forall|x: Seq<char>| #[trigger] s.push(y).contains(x) implies s.contains(x) || x
        == y by {
        let i = choose|i: int| 0 <= i < s.push(y).len() && s.push(y)[i] == x;
        if i < s.len() {
            assert(s[i] == x);
        }
    }
    assert forall|x: Seq<char>| s.contains(x) || x == y implies #[trigger] s.push(y).contains(
        x,
    ) by {
        if s.contains(x) {
            let i = choose|i: int| 0 <= i < s.len() && s[i] == x;
            assert(s.push(y)[i] == x);
        } else {
            assert(s.push(y)[s.len() as int] == x);
        }
    }
}

/// An identifier survives the filter exactly when it is desired and not
/// already present.
pub proof fn lemma_new_tracks_characterization(desired: Seq<Seq<char>>, existing: Seq<Seq<char>>)
    ensures
        forall|x: Seq<char>|
            #[trigger] spec_new_tracks(desired, existing).contains(x) <==> desired.contains(x)
                && !existing.contains(x),
    decreases desired.len(),
{
    if desired.len() == 0 {
        assert forall|x: Seq<char>| !(#[trigger] spec_new_tracks(desired, existing).contains(
            x,
        )) by {
            assert(spec_new_tracks(desired, existing).len() == 0);
        }
    } else {
        let last = desired.last();
        let prev = spec_new_tracks(desired.drop_last(), existing);
        let kept = spec_new_tracks(desired, existing);
        lemma_new_tracks_characterization(desired.drop_last(), existing);
        lemma_drop_last_contains(desired);
        if !existing.contains(last) {
            assert(kept == prev.push(last));
            lemma_push_contains(prev, last);
        } else {
            assert(kept == prev);
        }
    }
}

/// Deduplication keeps exactly the identifiers of its input.
pub proof fn lemma_dedup_contains(ids: Seq<Seq<char>>)
    ensures
        forall|x: Seq<char>| #[trigger] spec_dedup(ids).contains(x) <==> ids.contains(x),
    decreases ids.len(),
{
    if ids.len() == 0 {
        assert forall|x: Seq<char>| !(#[trigger] spec_dedup(ids).contains(x)) by {
            assert(spec_dedup(ids).len() == 0);
        }
    } else {
        let rest = spec_dedup(ids.drop_last());
        lemma_dedup_contains(ids.drop_last());
        lemma_drop_last_contains(ids);
        if rest.contains(ids.last()) {
            assert(spec_dedup(ids) == rest);
        } else {
            assert(spec_dedup(ids) == rest.push(ids.last()));
            lemma_push_contains(rest, ids.last());
        }
    }
}

/// Deduplication leaves no identifier twice.
pub proof fn lemma_dedup_no_duplicates(ids: Seq<Seq<char>>)
    ensures
        spec_dedup(ids).no_duplicates(),
    decreases ids.len(),
{
    if ids.len() == 0 {
    } else {
        lemma_dedup_no_duplicates(ids.drop_last());
        let rest = spec_dedup(ids.drop_last());
        let last = ids.last();
        if !rest.contains(last) {
            let out = spec_dedup(ids);
            assert(out == rest.push(last));
            assert forall|i: int, j: int|
                0 <= i < out.len() && 0 <= j < out.len() && i != j implies out[i] != out[j] by {
                if i < rest.len() && j < rest.len() {
                } else if i < rest.len() && out[i] == out[j] {
                    assert(rest[i] == last);
                    assert(rest.contains(last));
                } else if j < rest.len() && out[i] == out[j] {
                    assert(rest[j] == last);
                    assert(rest.contains(last));
                }
            }
        }
    }
}

/// What is submitted is exactly the set difference `desired minus existing`,
/// each surviving identifier at most once, whatever order the desired
/// identifiers come in and however often each of them repeats.
pub proof fn lemma_selected_is_set_difference(desired: Seq<Seq<char>>, existing: Seq<Seq<char>>)
    ensures
        spec_selected(desired, existing).to_set() == desired.to_set().difference(
            existing.to_set(),
        ),
        spec_selected(desired, existing).no_duplicates(),
{
    lemma_new_tracks_characterization(desired, existing);
    lemma_dedup_contains(spec_new_tracks(desired, existing));
    lemma_dedup_no_duplicates(spec_new_tracks(desired, existing));
}

/// Selection cares only about which identifiers are desired: two desired
/// sequences with the same identifiers select the same set.
pub proof fn lemma_selected_order_independent(
    d1: Seq<Seq<char>>,
    d2: Seq<Seq<char>>,
    existing: Seq<Seq<char>>,
)
    requires
        d1.to_set() == d2.to_set(),
    ensures
        spec_selected(d1, existing).to_set() == spec_selected(d2, existing).to_set(),
{
    lemma_selected_is_set_difference(d1, existing);
    lemma_selected_is_set_difference(d2, existing);
}

/// Nothing is selected exactly when every desired identifier is already
/// present.
pub proof fn lemma_selected_empty(desired: Seq<Seq<char>>, existing: Seq<Seq<char>>)
    ensures
        spec_selected(desired, existing).len() == 0 <==> desired.to_set().difference(
            existing.to_set(),
        ) =~= Set::<Seq<char>>::empty(),
{
    lemma_selected_is_set_difference(desired, existing);
    let sel = spec_selected(desired, existing);
    if sel.len() > 0 {
        assert(sel.contains(sel[0]));
        assert(sel.to_set().contains(sel[0]));
    }
}

/// The character views of a listing answer.
pub open spec fn spec_listing_views<E>(listing: Result<Vec<String>, E>) -> Result<
    Seq<Seq<char>>,
    E,
> {
    match listing {
        Ok(existing) => Ok(id_views(existing@)),
        Err(e) => Err(e),
    }
}

/// Decide the filtering step from the listing answer: a failed listing is
/// passed through unchanged, and a successful one keeps exactly the desired
/// identifiers the playlist does not hold, in order, duplicates kept.
pub fn filter_listing<E>(track_ids: &Vec<String>, listing: Result<Vec<String>, E>) -> (r: Result<
    Vec<String>,
    E,
>)
    ensures
        r is Ok <==> listing is Ok,
        listing matches Err(e) ==> (r matches Err(re) && re == e),
        listing matches Ok(existing) ==> (r matches Ok(kept) && id_views(kept@)
            == spec_new_tracks(id_views(track_ids@), id_views(existing@))),
{
    match listing {
        Ok(existing) => Ok(filter_new_tracks(track_ids, &existing)),
        Err(e) => Err(e),
    }
}

/// Whether one of the identifiers has the same characters as `id`.
pub fn contains_id(ids: &Vec<String>, id: &String) -> (b: bool)
    ensures
        b == id_views(ids@).contains(id@),
{
    let mut i: usize = 0;
    while i < ids.len()
        invariant
            i <= ids@.len(),
            forall|j: int| 0 <= j < i ==> id_views(ids@)[j] != id@,
        decreases ids@.len() - i,
    {
        if ids[i].eq(id) {
            proof {
                assert(id_views(ids@)[i as int] == id@);
            }
            return true;
        }
        i += 1;
    }
    false
}

/// Keep the desired identifiers that `existing` does not hold, in input
/// order, duplicates kept.
pub fn filter_new_tracks(track_ids: &Vec<String>, existing: &Vec<String>) -> (r: Vec<String>)
    ensures
        id_views(r@) == spec_new_tracks(id_views(track_ids@), id_views(existing@)),
{
    let mut r: Vec<String> = Vec::new();
    let mut i: usize = 0;
    while i < track_ids.len()
        invariant
            i <= track_ids@.len(),
            id_views(r@) == spec_new_tracks(
                id_views(track_ids@).take(i as int),
                id_views(existing@),
            ),
        decreases track_ids@.len() - i,
    {
        let ghost pre = id_views(r@);
        proof {
            let dv = id_views(track_ids@);
            assert(dv.take(i as int + 1).drop_last() =~= dv.take(i as int));
            assert(dv.take(i as int + 1).last() == track_ids@[i as int]@);
        }
        if !contains_id(existing, &track_ids[i]) {
            r.push(track_ids[i].clone());
            proof {
                assert(id_views(r@) =~= pre.push(track_ids@[i as int]@));
            }
        }
        i += 1;
    }
    proof {
        assert(id_views(track_ids@).take(track_ids@.len() as int) =~= id_views(track_ids@));
    }
    r
}

/// Remove repeated identifiers, keeping the first occurrence of each.
pub fn dedup_track_ids(track_ids: &Vec<String>) -> (r: Vec<String>)
    ensures
        id_views(r@) == spec_dedup(id_views(track_ids@)),
{
    let mut r: Vec<String> = Vec::new();
    let mut i: usize = 0;
    while i < track_ids.len()
        invariant
            i <= track_ids@.len(),
            id_views(r@) == spec_dedup(id_views(track_ids@).take(i as int)),
        decreases track_ids@.len() - i,
    {
        let ghost pre = id_views(r@);
        proof {
            let dv = id_views(track_ids@);
            assert(dv.take(i as int + 1).drop_last() =~= dv.take(i as int));
            assert(dv.take(i as int + 1).last() == track_ids@[i as int]@);
        }
        if !contains_id(&r, &track_ids[i]) {
            r.push(track_ids[i].clone());
            proof {
                assert(id_views(r@) =~= pre.push(track_ids@[i as int]@));
            }
        }
        i += 1;
    }
    proof {
        assert(id_views(track_ids@).take(track_ids@.len() as int) =~= id_views(track_ids@));
    }
    r
}

} // verus!
