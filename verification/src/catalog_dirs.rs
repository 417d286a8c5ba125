use vstd::prelude::*;

use crate::text::{decimal_string, push_decimal};

verus! {

/// Which manifests a directory of the catalog holds.
#[derive(Clone, Copy, Debug, PartialEq, Eq, Structural)]
pub struct DirManifests {
    pub catalog: bool,
    pub artist: bool,
    pub release: bool,
    pub track: bool,
}

/// What is done with a directory whose role is not known yet.
#[derive(Clone, Copy, Debug, PartialEq, Eq, Structural)]
pub enum UnknownDirAction {
    /// It holds more than one of the artist, release and track manifests
    /// (that many): an error, and the directory is ignored.
    Ignore { manifests: usize },
    ReadArtist,
    ReadRelease,
    /// A track manifest outside a release: an error.
    MisplacedTrackManifest,
    /// Nothing tells its role: its subdirectories are read.
    Descend,
}

/// What is done with a subdirectory of a release directory.
#[derive(Clone, Copy, Debug, PartialEq, Eq, Structural)]
pub enum ReleaseSubdirAction {
    /// It holds more than one of the artist, release and track manifests
    /// (that many): an error, and the directory is ignored.
    Ignore { manifests: usize },
    ReadArtist,
    /// It holds exactly one audio file: a track directory.
    ReadTrack,
    /// Anything else: a warning, and the directory is ignored.
    Skip,
}

/// How many of the artist, release and track manifests (which exclude
/// each other) a directory holds.
pub open spec fn spec_exclusive_manifests(m: DirManifests) -> nat {
    (if m.artist { 1nat } else { 0nat }) + (if m.release { 1nat } else { 0nat }) + (if m.track {
        1nat
    } else {
        0nat
    })
}

pub fn exclusive_manifests(m: DirManifests) -> (count: usize)
    ensures
        count == spec_exclusive_manifests(m),
{
    let mut count: usize = 0;
    if m.artist {
        count = count + 1;
    }
    if m.release {
        count = count + 1;
    }
    if m.track {
        count = count + 1;
    }
    count
}

pub open spec fn spec_unknown_dir_action(m: DirManifests, audio_files: nat) -> UnknownDirAction {
    if spec_exclusive_manifests(m) > 1 {
        UnknownDirAction::Ignore { manifests: spec_exclusive_manifests(m) as usize }
    } else if m.artist {
        UnknownDirAction::ReadArtist
    } else if m.release {
        UnknownDirAction::ReadRelease
    } else if m.track {
        UnknownDirAction::MisplacedTrackManifest
    } else if audio_files > 0 {
        UnknownDirAction::ReadRelease
    } else {
        UnknownDirAction::Descend
    }
}

/// Decides the role of a directory from its manifests and the number of
/// its audio files: an artist directory by its manifest, a release
/// directory by its manifest or by holding audio files; conflicting
/// manifests and a lone track manifest are errors. (A catalog manifest
/// here is an error in any case, reported besides.)
pub fn unknown_dir_action(m: DirManifests, audio_files: usize) -> (action: UnknownDirAction)
    ensures
        action == spec_unknown_dir_action(m, audio_files as nat),
{
    let count = exclusive_manifests(m);
    if count > 1 {
        UnknownDirAction::Ignore { manifests: count }
    } else if m.artist {
        UnknownDirAction::ReadArtist
    } else if m.release {
        UnknownDirAction::ReadRelease
    } else if m.track {
        UnknownDirAction::MisplacedTrackManifest
    } else if audio_files > 0 {
        UnknownDirAction::ReadRelease
    } else {
        UnknownDirAction::Descend
    }
}

pub open spec fn spec_release_subdir_action(m: DirManifests, audio_files: nat) -> ReleaseSubdirAction {
    if spec_exclusive_manifests(m) > 1 {
        ReleaseSubdirAction::Ignore { manifests: spec_exclusive_manifests(m) as usize }
    } else if m.artist {
        ReleaseSubdirAction::ReadArtist
    } else if audio_files == 1 {
        ReleaseSubdirAction::ReadTrack
    } else {
        ReleaseSubdirAction::Skip
    }
}

/// Decides the role of a subdirectory of a release directory: an artist
/// directory by its manifest, a track directory by holding exactly one
/// audio file; conflicting manifests are an error.
pub fn release_subdir_action(m: DirManifests, audio_files: usize) -> (action: ReleaseSubdirAction)
    ensures
        action == spec_release_subdir_action(m, audio_files as nat),
{
    let count = exclusive_manifests(m);
    if count > 1 {
        ReleaseSubdirAction::Ignore { manifests: count }
    } else if m.artist {
        ReleaseSubdirAction::ReadArtist
    } else if audio_files == 1 {
        ReleaseSubdirAction::ReadTrack
    } else {
        ReleaseSubdirAction::Skip
    }
}

/// A subdirectory of a release that holds exactly one audio file is read
/// as a track directory, with or without a track manifest, unless it holds
/// an artist manifest or a release manifest besides a track manifest.
pub proof fn lemma_single_audio_file_is_a_track(m: DirManifests)
    requires
        !m.artist,
        !(m.release && m.track),
    ensures
        spec_release_subdir_action(m, 1) == ReleaseSubdirAction::ReadTrack,
{
}

/// A subdirectory of a release is read as a track directory exactly when
/// it holds one audio file, no artist manifest, and not both a release and
/// a track manifest.
pub proof fn lemma_track_subdir_exactly(m: DirManifests, audio_files: nat)
    ensures
        (spec_release_subdir_action(m, audio_files) == ReleaseSubdirAction::ReadTrack) <==> (audio_files == 1
            && !m.artist && !(m.release && m.track)),
{
}

/// How many of the artist, release and track manifests a directory holds,
/// counted one by one.
pub open spec fn manifests_held(m: DirManifests) -> int {
    (if m.artist { 1int } else { 0 }) + (if m.release { 1int } else { 0 }) + (if m.track { 1int } else { 0 })
}

/// A subdirectory of a release: with two or more of the artist, release
/// and track manifests it is ignored (and the count is reported); with an
/// artist manifest only it is an artist directory; with neither of these
/// and not exactly one audio file it is skipped.
pub proof fn lemma_release_subdir_actions(m: DirManifests, audio_files: nat)
    ensures
        manifests_held(m) >= 2 ==> spec_release_subdir_action(m, audio_files) == (ReleaseSubdirAction::Ignore {
            manifests: manifests_held(m) as usize,
        }),
        m.artist && !m.release && !m.track ==> spec_release_subdir_action(m, audio_files)
            == ReleaseSubdirAction::ReadArtist,
        !m.artist && !(m.release && m.track) && audio_files != 1 ==> spec_release_subdir_action(m, audio_files)
            == ReleaseSubdirAction::Skip,
{
}

/// A directory whose role is not known yet: with two or more of the
/// artist, release and track manifests it is ignored; otherwise an artist
/// manifest makes it an artist directory, a release manifest or any audio
/// file a release directory, a lone track manifest is an error, and a
/// directory without any of these is descended into.
pub proof fn lemma_unknown_dir_actions(m: DirManifests, audio_files: nat)
    ensures
        manifests_held(m) >= 2 ==> spec_unknown_dir_action(m, audio_files) == (UnknownDirAction::Ignore {
            manifests: manifests_held(m) as usize,
        }),
        manifests_held(m) <= 1 && m.artist ==> spec_unknown_dir_action(m, audio_files) == UnknownDirAction::ReadArtist,
        manifests_held(m) <= 1 && m.release ==> spec_unknown_dir_action(m, audio_files) == UnknownDirAction::ReadRelease,
        manifests_held(m) <= 1 && m.track ==> spec_unknown_dir_action(m, audio_files)
            == UnknownDirAction::MisplacedTrackManifest,
        manifests_held(m) == 0 && audio_files > 0 ==> spec_unknown_dir_action(m, audio_files) == UnknownDirAction::ReadRelease,
        manifests_held(m) == 0 && audio_files == 0 ==> spec_unknown_dir_action(m, audio_files) == UnknownDirAction::Descend,
{
}

pub open spec fn misplaced_catalog_manifest_message(dir: Seq<char>, catalog_dir: Seq<char>) -> Seq<char> {
    "A catalog.eno manifest may only be placed at the root of the catalog directory, however it was found in a subdirectory (at '"@
        + dir + "'). Please move it to the folder '"@ + catalog_dir + "'"@
}

/// The error for a catalog manifest outside the catalog's root directory.
pub fn misplaced_catalog_manifest_error(dir: &str, catalog_dir: &str) -> (error: String)
    ensures
        error@ == misplaced_catalog_manifest_message(dir@, catalog_dir@),
{
    let mut error = String::from_str(
        "A catalog.eno manifest may only be placed at the root of the catalog directory, however it was found in a subdirectory (at '",
    );
    error.append(dir);
    error.append("'). Please move it to the folder '");
    error.append(catalog_dir);
    error.append("'");
    error
}

pub open spec fn conflicting_manifests_message(dir: Seq<char>, manifests: nat) -> Seq<char> {
    "A directory in a faircamp catalog may only ever contain a catalog.eno, release.eno or track.eno manifest (one of them), but the directory '"@
        + dir + "' contains "@ + decimal_string(manifests)
        + " of these. The directory will be ignored until this is resolved."@
}

/// The error for a directory with conflicting manifests.
pub fn conflicting_manifests_error(dir: &str, manifests: usize) -> (error: String)
    ensures
        error@ == conflicting_manifests_message(dir@, manifests as nat),
{
    let mut error = String::from_str(
        "A directory in a faircamp catalog may only ever contain a catalog.eno, release.eno or track.eno manifest (one of them), but the directory '",
    );
    error.append(dir);
    error.append("' contains ");
    push_decimal(&mut error, manifests as u64);
    error.append(" of these. The directory will be ignored until this is resolved.");
    error
}

pub open spec fn misplaced_track_manifest_message(dir: Seq<char>) -> Seq<char> {
    "A track.eno manifest may only be placed inside a track directory (that is, a subdirectory of a release directory), however it was found outside of any such directory configuration (at '"@
        + dir + "'). Please move it accordingly."@
}

/// The error for a track manifest outside a release directory.
pub fn misplaced_track_manifest_error(dir: &str) -> (error: String)
    ensures
        error@ == misplaced_track_manifest_message(dir@),
{
    let mut error = String::from_str(
        "A track.eno manifest may only be placed inside a track directory (that is, a subdirectory of a release directory), however it was found outside of any such directory configuration (at '",
    );
    error.append(dir);
    error.append("'). Please move it accordingly.");
    error
}

pub open spec fn skipped_release_subdir_message(dir: Seq<char>) -> Seq<char> {
    "Ignoring release subdirectory '"@ + dir
        + "' - if you meant to make it a track directory it must contain exactly one audio file (plus a track.eno manifest and auxiliary files potentially)"@
}

/// The warning for a subdirectory of a release that is no track directory.
pub fn skipped_release_subdir_warning(dir: &str) -> (warning: String)
    ensures
        warning@ == skipped_release_subdir_message(dir@),
{
    let mut warning = String::from_str("Ignoring release subdirectory '");
    warning.append(dir);
    warning.append(
        "' - if you meant to make it a track directory it must contain exactly one audio file (plus a track.eno manifest and auxiliary files potentially)",
    );
    warning
}

pub open spec fn track_subdir_message(dir: Seq<char>) -> Seq<char> {
    "Subdirectories of track directories are currently not handled by faircamp, ignoring directory '"@ + dir + "'"@
}

/// The error for a subdirectory of a track directory, which is ignored.
pub fn track_subdir_error(dir: &str) -> (error: String)
    ensures
        error@ == track_subdir_message(dir@),
{
    let mut error = String::from_str(
        "Subdirectories of track directories are currently not handled by faircamp, ignoring directory '",
    );
    error.append(dir);
    error.append("'");
    error
}

pub open spec fn root_release_manifest_message(catalog_dir: Seq<char>) -> Seq<char> {
    "A release.eno manifest may not be placed at the root of the catalog directory, however it was found there (at '"@
        + catalog_dir + "'). Please move it into its own (release) directory"@
}

/// The error for a release manifest at the root of the catalog.
pub fn root_release_manifest_error(catalog_dir: &str) -> (error: String)
    ensures
        error@ == root_release_manifest_message(catalog_dir@),
{
    let mut error = String::from_str(
        "A release.eno manifest may not be placed at the root of the catalog directory, however it was found there (at '",
    );
    error.append(catalog_dir);
    error.append("'). Please move it into its own (release) directory");
    error
}

pub open spec fn root_track_manifest_message(catalog_dir: Seq<char>) -> Seq<char> {
    "A track.eno manifest may not be placed at the root of the catalog directory, however it was found there (at '"@
        + catalog_dir + "'). Please move it into its own (track) directory"@
}

/// The error for a track manifest at the root of the catalog.
pub fn root_track_manifest_error(catalog_dir: &str) -> (error: String)
    ensures
        error@ == root_track_manifest_message(catalog_dir@),
{
    let mut error = String::from_str(
        "A track.eno manifest may not be placed at the root of the catalog directory, however it was found there (at '",
    );
    error.append(catalog_dir);
    error.append("'). Please move it into its own (track) directory");
    error
}

pub open spec fn artist_dir_audio_files_message(dir: Seq<char>) -> Seq<char> {
    "Audio files were encountered in the artist directory '"@ + dir
        + "' but will be ignored - if you meant to create a release, move these audio files to a separate directory"@
}

/// The error for audio files in an artist directory, which are ignored.
pub fn artist_dir_audio_files_error(dir: &str) -> (error: String)
    ensures
        error@ == artist_dir_audio_files_message(dir@),
{
    let mut error = String::from_str("Audio files were encountered in the artist directory '");
    error.append(dir);
    error.append(
        "' but will be ignored - if you meant to create a release, move these audio files to a separate directory",
    );
    error
}

} // verus!
