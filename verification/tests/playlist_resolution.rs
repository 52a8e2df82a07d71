//! Tests of playlist resolution against an in-memory double of the remote
//! playlist capabilities.

use std::cell::RefCell;

use playlist_sync::playlist::{
    get_playlist_id_create_if_needed, PlaylistAPI, PlaylistError, PlaylistNotFound,
};

/// Keep track of calls made to MockPlaylistAPI
#[derive(Debug, Clone)]
struct CallHistory {
    create_playlist_called_with: Option<String>,
    get_playlist_id_called_with: Option<String>,
    add_tracks_to_playlist_called_with: Option<String>,
    get_track_ids_in_playlist_called_with: Option<String>,
}

#[derive(Debug, Copy, Clone, PartialEq)]
struct FakeError {}

/// A fake API where you can specify the return values to the functions
struct MockPlaylistAPI {
    call_history: RefCell<CallHistory>,
    get_playlist_id_returns: Result<String, PlaylistError<FakeError>>,
    create_playlist_returns: Result<String, FakeError>,
}

impl MockPlaylistAPI {
    fn new(
        get_playlist_id_returns: Result<String, PlaylistError<FakeError>>,
        create_playlist_returns: Result<String, FakeError>,
    ) -> MockPlaylistAPI {
        MockPlaylistAPI {
            call_history: RefCell::new(CallHistory {
                create_playlist_called_with: None,
                get_playlist_id_called_with: None,
                add_tracks_to_playlist_called_with: None,
                get_track_ids_in_playlist_called_with: None,
            }),
            get_playlist_id_returns,
            create_playlist_returns,
        }
    }
}

impl PlaylistAPI<FakeError> for MockPlaylistAPI {
    fn get_playlist_id(&self, playlist_name: &str) -> Result<String, PlaylistError<FakeError>> {
        let mut calls = self.call_history.borrow_mut();
        calls.get_playlist_id_called_with = Some(playlist_name.to_owned());
        self.get_playlist_id_returns.clone()
    }

    fn create_playlist(&self, playlist_name: &str) -> Result<String, FakeError> {
        let mut calls = self.call_history.borrow_mut();
        calls.create_playlist_called_with = Some(playlist_name.to_owned());
        self.create_playlist_returns.clone()
    }

    fn add_tracks_to_playlist(
        &self,
        playlist_id: &str,
        _track_ids: &[String],
    ) -> Result<(), FakeError> {
        let mut calls = self.call_history.borrow_mut();
        calls.add_tracks_to_playlist_called_with = Some(playlist_id.to_owned());
        Ok(())
    }

    fn get_track_ids_in_playlist(&self, playlist_id: &str) -> Result<Vec<String>, FakeError> {
        let mut calls = self.call_history.borrow_mut();
        calls.get_track_ids_in_playlist_called_with = Some(playlist_id.to_owned());
        Ok(Vec::new())
    }
}

/// Used for declaring the inputs for each test
fn test_setup() -> (String, String) {
    let playlist_name = "test_playlist_name1";
    let expected_playlist_id = "id_123";
    (playlist_name.to_string(), expected_playlist_id.to_string())
}

#[test]
fn get_playlist_id_if_playlist_exists() {
    // Given
    let (playlist_name, expected_playlist_id) = test_setup();
    let api = MockPlaylistAPI::new(
        Ok(expected_playlist_id.to_owned()),
        Ok(expected_playlist_id.to_owned()),
    );
    // When
    let result = get_playlist_id_create_if_needed(&api, &playlist_name).unwrap();
    // Then
    let calls = api.call_history.borrow();
    assert_eq!(expected_playlist_id, result);
    // Ensure that API was called correctly
    assert_eq!(
        Some(playlist_name.to_owned()),
        calls.get_playlist_id_called_with
    );
    // Ensure that the create call is not made
    assert_eq!(None, calls.create_playlist_called_with);
    // Ensure irrelevant function is not called
    assert_eq!(None, calls.add_tracks_to_playlist_called_with);
    assert_eq!(None, calls.get_track_ids_in_playlist_called_with);
}

#[test]
fn get_playlist_id_create_if_needed_creates_playlist() {
    // Given
    let (playlist_name, expected_playlist_id) = test_setup();
    // The get call will fail with the playlist not being found
    let get_error = PlaylistError::PlaylistNotFound(PlaylistNotFound {});
    let api = MockPlaylistAPI::new(
        // The get call will fail
        Err(get_error),
        Ok(expected_playlist_id.to_owned()),
    );
    // When
    let result = get_playlist_id_create_if_needed(&api, &playlist_name).unwrap();
    // Then
    let calls = api.call_history.borrow();
    assert_eq!(expected_playlist_id, result);
    assert_eq!(
        Some(playlist_name.to_owned()),
        calls.get_playlist_id_called_with
    );
    // Ensure that the create call is made since the playlist was not found
    assert_eq!(
        Some(playlist_name.to_owned()),
        calls.create_playlist_called_with
    );
    // Ensure irrelevant function is not called
    assert_eq!(None, calls.add_tracks_to_playlist_called_with);
    assert_eq!(None, calls.get_track_ids_in_playlist_called_with);
}

#[test]
fn get_playlist_id_handles_api_error() {
    // Given
    let (playlist_name, expected_playlist_id) = test_setup();
    // The get call will fail with an API error
    let get_error = PlaylistError::APIError(FakeError {});
    let api = MockPlaylistAPI::new(Err(get_error), Ok(expected_playlist_id.to_owned()));
    // When
    let result = get_playlist_id_create_if_needed(&api, &playlist_name);
    // Then
    match result {
        // Fail if it doesn't send back an error
        Ok(_) => assert!(false),
        Err(err) => assert_eq!(get_error, err),
    };
    let calls = api.call_history.borrow();
    assert_eq!(
        Some(playlist_name.to_owned()),
        calls.get_playlist_id_called_with
    );
    // Ensure that we do not create a playlist since an error occurred
    assert_eq!(None, calls.create_playlist_called_with);
    // Ensure irrelevant function is not called
    assert_eq!(None, calls.add_tracks_to_playlist_called_with);
    assert_eq!(None, calls.get_track_ids_in_playlist_called_with);
}

#[test]
fn resolve_creates_missing_wedding_playlist() {
    // A missing playlist is created under the same name, and the created
    // identifier is returned.
    let api = MockPlaylistAPI::new(
        Err(PlaylistError::PlaylistNotFound(PlaylistNotFound {})),
        Ok("pid_1".to_string()),
    );
    let result = get_playlist_id_create_if_needed(&api, "wedding").unwrap();
    assert_eq!("pid_1".to_string(), result);
    let calls = api.call_history.borrow();
    assert_eq!(Some("wedding".to_string()), calls.create_playlist_called_with);
}

#[test]
fn resolve_propagates_transport_error_without_creating() {
    // Any lookup failure other than a missing playlist short-circuits
    // resolution; no playlist is created.
    let api = MockPlaylistAPI::new(
        Err(PlaylistError::APIError(FakeError {})),
        Ok("pid_1".to_string()),
    );
    let result = get_playlist_id_create_if_needed(&api, "wedding");
    assert_eq!(Err(PlaylistError::APIError(FakeError {})), result);
    let calls = api.call_history.borrow();
    assert_eq!(None, calls.create_playlist_called_with);
}

#[test]
fn get_playlist_id_fails_on_create() {
    // Given
    let (playlist_name, _) = test_setup();
    let create_error = FakeError {};
    let api = MockPlaylistAPI::new(
        // The get call will fail with the playlist not found
        Err(PlaylistError::PlaylistNotFound(PlaylistNotFound {})),
        Err(create_error),
    );
    // When
    let result = get_playlist_id_create_if_needed(&api, &playlist_name);
    // Then
    match result {
        // Ensure that we receive an error
        Ok(_) => assert!(false),
        Err(err) => assert_eq!(PlaylistError::APIError(create_error), err),
    };
    let calls = api.call_history.borrow();
    assert_eq!(
        Some(playlist_name.to_owned()),
        calls.get_playlist_id_called_with
    );
    assert_eq!(
        Some(playlist_name.to_owned()),
        calls.create_playlist_called_with
    );
    // Ensure irrelevant function is not called
    assert_eq!(None, calls.add_tracks_to_playlist_called_with);
    assert_eq!(None, calls.get_track_ids_in_playlist_called_with);
}
