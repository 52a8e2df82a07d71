//! Verified support for a paged remote adapter.
//!
//! The production adapter reaches the remote service over the network, so it
//! lives outside the verified library. The decisions it takes while walking
//! the service's paged listings — whether a page settles the question, and
//! where the next page starts — are made here on plain values; the adapter
//! only fetches pages, converts them, and performs what is decided.

use vstd::prelude::*;

verus! {

/// An error when authentication fails to the remote service's servers.
#[derive(Debug)]
pub struct AuthenticationFailed;

impl AuthenticationFailed {
    /// A human-readable message, in place of a `Display` implementation.
    pub fn message(&self) -> (r: String)
        ensures
            r@ == "Authentication failed"@,
    {
        String::from_str("Authentication failed")
    }
}

/// The name and identifier of one playlist in a listing.
#[derive(Debug, Clone)]
pub struct PlaylistEntry {
    /// The playlist's human-readable name
    pub name: String,
    /// The playlist's identifier
    pub id: String,
}

/// One page of the service's playlist listing, with the page bookkeeping
/// the service reports: a page is the last one when fewer items exist in
/// all than one page holds.
#[derive(Debug, Clone)]
pub struct PlaylistPage {
    /// The playlists on this page
    pub items: Vec<PlaylistEntry>,
    /// How many items the whole listing holds
    pub total: u32,
    /// The page size the service used
    pub limit: u32,
}

/// What one page of the playlist listing settles about a name lookup.
#[derive(Debug, Clone)]
pub enum PageSearch {
    /// The playlist is on this page: its identifier
    Found(String),
    /// This page was the last one and the playlist is not there
    NotFound,
    /// Nothing settled; ask for the page at this offset next
    Continue(u32),
}

/// Look for a playlist by name on one page of the listing.
///
/// The first entry with the matching name settles the search; otherwise a
/// short page settles that the playlist does not exist, and any other page
/// defers to the next one.
pub fn search_playlist_page(page: &PlaylistPage, playlist_name: &str, offset: u32) -> (r:
    PageSearch)
    requires
        offset + page.total <= u32::MAX,
    ensures
        r matches PageSearch::Found(id) ==> exists|j: int|
            0 <= j < page.items@.len() && page.items@[j].name@ == playlist_name@ && id@
                == page.items@[j].id@ && (forall|k: int|
                0 <= k < j ==> page.items@[k].name@ != playlist_name@),
        (exists|j: int| 0 <= j < page.items@.len() && page.items@[j].name@ == playlist_name@)
            ==> r is Found,
        (forall|j: int| 0 <= j < page.items@.len() ==> page.items@[j].name@ != playlist_name@)
            && page.total < page.limit ==> r is NotFound,
        (forall|j: int| 0 <= j < page.items@.len() ==> page.items@[j].name@ != playlist_name@)
            && page.total >= page.limit ==> (r matches PageSearch::Continue(next) && next == offset
            + page.total),
{
    let target = String::from_str(playlist_name);
    let mut i: usize = 0;
    while i < page.items.len()
        invariant
            i <= page.items@.len(),
            target@ == playlist_name@,
            forall|j: int| 0 <= j < i ==> page.items@[j].name@ != playlist_name@,
        decreases page.items@.len() - i,
    {
        if page.items[i].name.eq(&target) {
            proof {
                assert(page.items@[i as int].name@ == playlist_name@);
            }
            return PageSearch::Found(page.items[i].id.clone());
        }
        i += 1;
    }
    if page.total < page.limit {
        PageSearch::NotFound
    } else {
        PageSearch::Continue(offset + page.total)
    }
}

/// One page of a playlist's track listing, with the same page bookkeeping
/// as [`PlaylistPage`].
#[derive(Debug, Clone)]
pub struct TrackPage {
    /// The identifiers of the tracks on this page
    pub ids: Vec<String>,
    /// How many items the whole listing holds
    pub total: u32,
    /// The page size the service used
    pub limit: u32,
}

/// Fold one page of a track listing into the identifiers gathered so far,
/// and say where to go on: the offset of the next page to ask for, or
/// nothing when this page was the last.
pub fn accumulate_track_page(track_ids: &mut Vec<String>, page: TrackPage, offset: u32) -> (next:
    Option<u32>)
    requires
        offset + page.total <= u32::MAX,
    ensures
        final(track_ids)@ == old(track_ids)@ + page.ids@,
        page.total < page.limit ==> next is None,
        page.total >= page.limit ==> (next matches Some(o) && o == offset + page.total),
{
    let total = page.total;
    let limit = page.limit;
    let mut new_ids = page.ids;
    track_ids.append(&mut new_ids);
    if total < limit {
        None
    } else {
        Some(offset + total)
    }
}

} // verus!
