//! Resolution of a playlist name to a remote playlist identifier.

use vstd::prelude::*;

verus! {

/// An error when the playlist name is not found on the remote service.
///
/// It is a structurally distinct tag, checked by pattern match: it is the one
/// condition that lets resolution fall back to creating the playlist, so it
/// must never be conflated with a transport or authentication failure.
#[derive(Debug, Copy, Clone, PartialEq)]
pub struct PlaylistNotFound {}

impl PlaylistNotFound {
    /// A human-readable message, in place of a `Display` implementation.
    pub fn message(&self) -> (r: String)
        ensures
            r@ == "Could not find playlist"@,
    {
        String::from_str("Could not find playlist")
    }
}

/// The ways a playlist query can fail.
#[derive(Debug, Copy, Clone, PartialEq)]
pub enum PlaylistError<E> {
    /// Any failure of the remote service other than a missing playlist;
    /// the transport-specific detail rides along opaquely in the payload.
    APIError(E),
    /// The playlist with the requested name does not exist.
    PlaylistNotFound(PlaylistNotFound),
}

/// The remote playlist capabilities that the library depends on.
///
/// One production adapter (outside the verified library, since it performs
/// network I/O) and any number of in-memory doubles implement it. The error
/// type `E` is the adapter's own opaque transport error. Nothing is assumed
/// of any method's outcome: every decision taken on a result is made by a
/// verified function that receives that result as an argument.
pub trait PlaylistAPI<E> {
    /// Get the identifier for the playlist with the given name.
    /// A missing playlist is reported as `PlaylistError::PlaylistNotFound`,
    /// distinct from every other failure.
    fn get_playlist_id(&self, playlist_name: &str) -> Result<String, PlaylistError<E>>;

    /// Create a playlist with the given name and return its identifier.
    fn create_playlist(&self, playlist_name: &str) -> Result<String, E>;

    /// Add the given tracks to the playlist with the given identifier.
    fn add_tracks_to_playlist(&self, playlist_id: &str, track_ids: &[String]) -> Result<(), E>;

    /// List the identifiers of the tracks the playlist currently holds.
    fn get_track_ids_in_playlist(&self, playlist_id: &str) -> Result<Vec<String>, E>;
}

/// The states of the resolution protocol.
///
/// Resolution starts in `Resolving`. The lookup result moves it to
/// `Resolved` (lookup succeeded), `Creating` (the playlist is missing and a
/// create call is owed), or `Failed` (any other lookup error). From
/// `Creating`, the create result moves it to `Resolved` or `Failed`.
/// `Resolved` and `Failed` are terminal.
pub enum ResolveState<E> {
    /// Waiting for the lookup result.
    Resolving,
    /// The playlist is missing; a create call is owed.
    Creating,
    /// Resolution ended with this playlist identifier.
    Resolved(String),
    /// Resolution ended with this remote failure.
    Failed(E),
}

/// The state that the lookup result moves resolution to.
pub open spec fn spec_resolve_lookup<E>(lookup: Result<String, PlaylistError<E>>) -> ResolveState<E> {
    match lookup {
        Ok(id) => ResolveState::Resolved(id),
        Err(PlaylistError::PlaylistNotFound(_)) => ResolveState::Creating,
        Err(PlaylistError::APIError(e)) => ResolveState::Failed(e),
    }
}

/// The state that the create result moves resolution to.
pub open spec fn spec_resolve_create<E>(create: Result<String, E>) -> ResolveState<E> {
    match create {
        Ok(id) => ResolveState::Resolved(id),
        Err(e) => ResolveState::Failed(e),
    }
}

/// Whether a lookup result obliges resolution to issue a create call.
pub open spec fn spec_needs_create<E>(lookup: Result<String, PlaylistError<E>>) -> bool {
    spec_resolve_lookup(lookup) is Creating
}

/// The terminal state of resolution, given the lookup result and the create
/// result. The create result is consulted only when the lookup reported the
/// playlist as missing.
pub open spec fn spec_resolve<E>(
    lookup: Result<String, PlaylistError<E>>,
    create: Result<String, E>,
) -> ResolveState<E> {
    if spec_needs_create(lookup) {
        spec_resolve_create(create)
    } else {
        spec_resolve_lookup(lookup)
    }
}

/// Advance resolution by a lookup result.
pub fn resolve_lookup<E>(lookup: Result<String, PlaylistError<E>>) -> (s: ResolveState<E>)
    ensures
        s == spec_resolve_lookup(lookup),
{
    match lookup {
        Ok(id) => ResolveState::Resolved(id),
        Err(PlaylistError::PlaylistNotFound(_)) => ResolveState::Creating,
        Err(PlaylistError::APIError(e)) => ResolveState::Failed(e),
    }
}

/// Advance resolution by a create result.
pub fn resolve_create<E>(create: Result<String, E>) -> (s: ResolveState<E>)
    ensures
        s == spec_resolve_create(create),
{
    match create {
        Ok(id) => ResolveState::Resolved(id),
        Err(e) => ResolveState::Failed(e),
    }
}

/// Turn a terminal resolution state into the caller-facing result. Every
/// failure surfaces as `PlaylistError::APIError`: a missing playlist is
/// handled inside resolution and never reaches a caller.
pub fn finish_resolution<E>(state: ResolveState<E>) -> (r: Result<String, PlaylistError<E>>)
    requires
        state is Resolved || state is Failed,
    ensures
        state matches ResolveState::Resolved(id) ==> r == Result::<String, PlaylistError<E>>::Ok(id),
        state matches ResolveState::Failed(e) ==> r == Result::<String, PlaylistError<E>>::Err(
            PlaylistError::APIError(e),
        ),
{
    match state {
        ResolveState::Resolved(id) => Ok(id),
        ResolveState::Failed(e) => Err(PlaylistError::APIError(e)),
        _ => unreached(),
    }
}

/// Get the identifier of the playlist with the given name, creating the
/// playlist when the lookup reports it as missing.
///
/// The remote calls decide the outcome, so the contract states what holds of
/// every outcome: a missing playlist never surfaces. The transitions taken on
/// each remote result are pinned down exactly by [`resolve_lookup`],
/// [`resolve_create`] and [`finish_resolution`], and the laws of the protocol
/// by the lemmas on [`spec_resolve`].
pub fn get_playlist_id_create_if_needed<E, A: PlaylistAPI<E>>(
    api: &A,
    playlist_name: &str,
) -> (r: Result<String, PlaylistError<E>>)
    ensures
        !(r matches Err(PlaylistError::PlaylistNotFound(_))),
{
    let state = resolve_lookup(api.get_playlist_id(playlist_name));
    let state = match state {
        ResolveState::Creating => resolve_create(api.create_playlist(playlist_name)),
        terminal => terminal,
    };
    finish_resolution(state)
}

/// A successful lookup resolves to the identifier it reported, and no create
/// call is owed.
pub proof fn lemma_lookup_success_resolves<E>(
    lookup: Result<String, PlaylistError<E>>,
    create: Result<String, E>,
)
    requires
        lookup is Ok,
    ensures
        spec_resolve(lookup, create) == ResolveState::<E>::Resolved(lookup->Ok_0),
        !spec_needs_create(lookup),
{
}

/// A lookup that reports the playlist as missing owes exactly one create
/// call, and a successful create resolves to the identifier it produced.
pub proof fn lemma_not_found_creates<E>(
    lookup: Result<String, PlaylistError<E>>,
    create: Result<String, E>,
)
    requires
        lookup matches Err(PlaylistError::PlaylistNotFound(_)),
        create is Ok,
    ensures
        spec_needs_create(lookup),
        spec_resolve(lookup, create) == ResolveState::<E>::Resolved(create->Ok_0),
{
}

/// A lookup that fails with anything other than a missing playlist fails
/// resolution with that very error, and no create call is owed.
pub proof fn lemma_lookup_error_propagates<E>(
    lookup: Result<String, PlaylistError<E>>,
    create: Result<String, E>,
)
    requires
        lookup matches Err(PlaylistError::APIError(_)),
    ensures
        spec_resolve(lookup, create) == ResolveState::<E>::Failed(lookup->Err_0->APIError_0),
        !spec_needs_create(lookup),
{
}

/// When the playlist is missing and the create call also fails, the surfaced
/// error is the create failure, not the missing playlist.
pub proof fn lemma_create_error_propagates<E>(
    lookup: Result<String, PlaylistError<E>>,
    create: Result<String, E>,
)
    requires
        lookup matches Err(PlaylistError::PlaylistNotFound(_)),
        create is Err,
    ensures
        spec_resolve(lookup, create) == ResolveState::<E>::Failed(create->Err_0),
{
}

} // verus!
