use faircamp::catalog_dirs::{
    artist_dir_audio_files_error, root_release_manifest_error, root_track_manifest_error,
    conflicting_manifests_error, exclusive_manifests, misplaced_catalog_manifest_error,
    misplaced_track_manifest_error, release_subdir_action, skipped_release_subdir_warning, track_subdir_error,
    unknown_dir_action,
    DirManifests, ReleaseSubdirAction, UnknownDirAction,
};

fn manifests(catalog: bool, artist: bool, release: bool, track: bool) -> DirManifests {
    DirManifests { catalog, artist, release, track }
}

#[test]
fn unknown_dirs_are_read_by_their_manifest_or_audio_files() {
    assert_eq!(unknown_dir_action(manifests(false, true, false, false), 3), UnknownDirAction::ReadArtist);
    assert_eq!(unknown_dir_action(manifests(false, false, true, false), 0), UnknownDirAction::ReadRelease);
    assert_eq!(unknown_dir_action(manifests(false, false, false, true), 2), UnknownDirAction::MisplacedTrackManifest);
    assert_eq!(unknown_dir_action(manifests(true, false, false, false), 2), UnknownDirAction::ReadRelease);
    assert_eq!(unknown_dir_action(manifests(false, false, false, false), 0), UnknownDirAction::Descend);
    assert_eq!(
        unknown_dir_action(manifests(false, true, true, true), 1),
        UnknownDirAction::Ignore { manifests: 3 }
    );
    assert_eq!(exclusive_manifests(manifests(true, false, true, false)), 1);
}

#[test]
fn release_subdirs_with_one_audio_file_are_tracks() {
    assert_eq!(release_subdir_action(manifests(false, false, false, true), 1), ReleaseSubdirAction::ReadTrack);
    assert_eq!(release_subdir_action(manifests(false, false, false, false), 2), ReleaseSubdirAction::Skip);
    assert_eq!(release_subdir_action(manifests(false, true, false, false), 1), ReleaseSubdirAction::ReadArtist);
    assert_eq!(
        release_subdir_action(manifests(false, false, true, true), 1),
        ReleaseSubdirAction::Ignore { manifests: 2 }
    );
}

#[test]
fn directory_messages() {
    assert_eq!(
        misplaced_catalog_manifest_error("/c/sub", "/c"),
        "A catalog.eno manifest may only be placed at the root of the catalog directory, however it was found in a subdirectory (at '/c/sub'). Please move it to the folder '/c'"
    );
    assert_eq!(
        conflicting_manifests_error("/c/x", 2),
        "A directory in a faircamp catalog may only ever contain a catalog.eno, release.eno or track.eno manifest (one of them), but the directory '/c/x' contains 2 of these. The directory will be ignored until this is resolved."
    );
    assert!(misplaced_track_manifest_error("/c/t").contains("(at '/c/t'). Please move it accordingly."));
    assert!(skipped_release_subdir_warning("/c/r/s").starts_with("Ignoring release subdirectory '/c/r/s' - "));
}

#[test]
fn deploy_needs_a_destination() {
    assert_eq!(
        faircamp::deploy::deploy(&Some(String::from("user@host:/srv/site"))),
        Ok(String::from("user@host:/srv/site"))
    );
    assert_eq!(
        faircamp::deploy::deploy(&None),
        Err(String::from("No deployment destination specified, provide one with --deploy-destination"))
    );
}

#[test]
fn track_subdirectory_error() {
    assert_eq!(
        track_subdir_error("/c/r/t/sub"),
        "Subdirectories of track directories are currently not handled by faircamp, ignoring directory '/c/r/t/sub'"
    );
}

#[test]
fn catalog_root_and_artist_dir_errors() {
    assert_eq!(
        root_release_manifest_error("/c"),
        "A release.eno manifest may not be placed at the root of the catalog directory, however it was found there (at '/c'). Please move it into its own (release) directory"
    );
    assert_eq!(
        root_track_manifest_error("/c"),
        "A track.eno manifest may not be placed at the root of the catalog directory, however it was found there (at '/c'). Please move it into its own (track) directory"
    );
    assert_eq!(
        artist_dir_audio_files_error("/c/alice"),
        "Audio files were encountered in the artist directory '/c/alice' but will be ignored - if you meant to create a release, move these audio files to a separate directory"
    );
}
