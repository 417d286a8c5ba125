use vstd::prelude::*;

use std::path::PathBuf;

use crate::text::{contains, contains_str, opt_view, starts_with, str_equal};

verus! {

/// A filesystem path, carried through unchanged.
#[verifier::external_type_specification]
#[verifier::external_body]
pub struct ExPathBuf(std::path::PathBuf);

/// The name that `str::to_lowercase` gives a string (Unicode lowercase
/// mapping, which takes tables to state).
pub uninterp spec fn lowercase(s: Seq<char>) -> Seq<char>;

/// `str::to_lowercase`.
#[verifier::external_body]
pub(crate) fn to_lowercase(s: &str) -> (lower: String)
    ensures
        lower@ == lowercase(s@),
{
    s.to_lowercase()
}

/// What kind of filesystem object a directory entry is.
#[derive(Clone, Copy, Debug, PartialEq, Eq, Structural)]
pub enum EntryKind {
    Dir,
    File,
    Symlink,
    Other,
    /// The type of the entry could not be determined.
    Unknown,
}

/// What is known of a directory entry when it is scanned.
pub struct EntryFacts {
    /// The entry's file name, where it is valid UTF-8.
    pub file_name: Option<String>,
    /// The entry's full path, where it is valid UTF-8.
    pub path_str: Option<String>,
    /// The extension of the entry's path, where it has one in valid UTF-8.
    pub extension: Option<String>,
    pub kind: EntryKind,
    /// Whether the entry is the build or the cache directory.
    pub is_special_dir: bool,
}

/// What scanning did with a directory entry.
#[derive(Clone, Debug)]
pub enum EntryOutcome {
    /// Hidden files and directories (name starting with '.') are ignored.
    HiddenIgnored,
    /// The type of the entry could not be determined.
    Skipped,
    /// The build and cache directory are never scanned.
    SpecialDirIgnored,
    /// A directory whose path contains an exclude pattern.
    DirExcluded { pattern: String },
    DirAdded,
    /// A file whose path contains an exclude pattern.
    FileExcluded { pattern: String },
    /// A file whose path contains none of the include patterns.
    FileNotIncluded,
    ArtistManifest,
    CatalogManifest,
    ReleaseManifest,
    TrackManifest,
    /// A file with the extension "eno" but none of the manifest names (an error).
    UnrecognizedManifest,
    AudioFile,
    ImageFile,
    /// An audio file in a format that cannot be read yet (an error).
    UnsupportedAudio { extension: String },
    ExtraFile,
    SymlinkIgnored,
    UnsupportedIgnored,
}

/// The kind of an entry outcome, without its data.
#[derive(Clone, Copy, Debug, PartialEq, Eq, Structural)]
pub enum OutcomeKind {
    HiddenIgnored,
    Skipped,
    SpecialDirIgnored,
    DirExcluded,
    DirAdded,
    FileExcluded,
    FileNotIncluded,
    ArtistManifest,
    CatalogManifest,
    ReleaseManifest,
    TrackManifest,
    UnrecognizedManifest,
    AudioFile,
    ImageFile,
    UnsupportedAudio,
    ExtraFile,
    SymlinkIgnored,
    UnsupportedIgnored,
}

/// A catalog directory, pre-scanned for the patterns of the folder hierarchy.
pub struct FairDir {
    pub artist_manifest: Option<PathBuf>,
    pub audio_files: Vec<PathBuf>,
    pub catalog_manifest: Option<PathBuf>,
    pub dirs: Vec<PathBuf>,
    pub extra_files: Vec<PathBuf>,
    pub image_files: Vec<PathBuf>,
    pub path: PathBuf,
    pub release_manifest: Option<PathBuf>,
    pub track_manifest: Option<PathBuf>,
}

pub open spec fn is_supported_audio_extension(e: Seq<char>) -> bool {
    e == "aif"@ || e == "aifc"@ || e == "aiff"@ || e == "alac"@ || e == "flac"@ || e == "mp3"@ || e
        == "ogg"@ || e == "opus"@ || e == "wav"@
}

pub open spec fn is_supported_image_extension(e: Seq<char>) -> bool {
    e == "gif"@ || e == "heif"@ || e == "jpeg"@ || e == "jpg"@ || e == "png"@ || e == "webp"@
}

pub open spec fn is_unsupported_audio_extension(e: Seq<char>) -> bool {
    e == "aac"@ || e == "m4a"@
}

/// The index of the first pattern that `s` contains, if any.
pub open spec fn first_contained(patterns: Seq<Seq<char>>, s: Seq<char>) -> Option<int>
    decreases patterns.len(),
{
    if patterns.len() == 0 {
        None
    } else if contains(s, patterns[0]) {
        Some(0)
    } else {
        match first_contained(patterns.drop_first(), s) {
            Some(i) => Some(i + 1),
            None => None,
        }
    }
}

/// The exclude pattern that rules out an entry with path `path_str`, if any
/// (an entry whose path is not valid UTF-8 is never excluded).
pub open spec fn excluding_pattern(patterns: Seq<Seq<char>>, path_str: Option<Seq<char>>) -> Option<int> {
    match path_str {
        Some(s) => first_contained(patterns, s),
        None => None,
    }
}

/// Whether a file passes the include patterns: there are none, or its path
/// (valid UTF-8) contains one of them.
pub open spec fn included(patterns: Seq<Seq<char>>, path_str: Option<Seq<char>>) -> bool {
    patterns.len() == 0 || (path_str matches Some(s) && first_contained(patterns, s) is Some)
}


/// What scanning does with a file that was not excluded, by its name and
/// extension.
pub open spec fn file_outcome(file_name: Option<Seq<char>>, extension: Option<Seq<char>>) -> OutcomeKind {
    if file_name == Some("artist.eno"@) {
        OutcomeKind::ArtistManifest
    } else if file_name == Some("catalog.eno"@) {
        OutcomeKind::CatalogManifest
    } else if file_name == Some("release.eno"@) {
        OutcomeKind::ReleaseManifest
    } else if file_name == Some("track.eno"@) {
        OutcomeKind::TrackManifest
    } else {
        match extension {
            Some(e) => {
                let e = lowercase(e);
                if e == "eno"@ {
                    OutcomeKind::UnrecognizedManifest
                } else if is_supported_audio_extension(e) {
                    OutcomeKind::AudioFile
                } else if is_supported_image_extension(e) {
                    OutcomeKind::ImageFile
                } else if is_unsupported_audio_extension(e) {
                    OutcomeKind::UnsupportedAudio
                } else {
                    OutcomeKind::ExtraFile
                }
            },
            None => OutcomeKind::ExtraFile,
        }
    }
}

/// What scanning does with a directory entry.
pub open spec fn entry_outcome(
    facts: EntryFacts,
    exclude_patterns: Seq<Seq<char>>,
    include_patterns: Seq<Seq<char>>,
) -> OutcomeKind {
    let path_str = opt_view(facts.path_str);
    if facts.file_name matches Some(n) && starts_with(n@, "."@) {
        OutcomeKind::HiddenIgnored
    } else {
        match facts.kind {
            EntryKind::Unknown => OutcomeKind::Skipped,
            EntryKind::Dir => if facts.is_special_dir {
                OutcomeKind::SpecialDirIgnored
            } else if excluding_pattern(exclude_patterns, path_str) is Some {
                OutcomeKind::DirExcluded
            } else {
                OutcomeKind::DirAdded
            },
            EntryKind::File => if excluding_pattern(exclude_patterns, path_str) is Some {
                OutcomeKind::FileExcluded
            } else if !included(include_patterns, path_str) {
                OutcomeKind::FileNotIncluded
            } else {
                file_outcome(opt_view(facts.file_name), opt_view(facts.extension))
            },
            EntryKind::Symlink => OutcomeKind::SymlinkIgnored,
            EntryKind::Other => OutcomeKind::UnsupportedIgnored,
        }
    }
}

impl EntryOutcome {
    pub open spec fn kind(&self) -> OutcomeKind {
        match self {
            EntryOutcome::HiddenIgnored => OutcomeKind::HiddenIgnored,
            EntryOutcome::Skipped => OutcomeKind::Skipped,
            EntryOutcome::SpecialDirIgnored => OutcomeKind::SpecialDirIgnored,
            EntryOutcome::DirExcluded { .. } => OutcomeKind::DirExcluded,
            EntryOutcome::DirAdded => OutcomeKind::DirAdded,
            EntryOutcome::FileExcluded { .. } => OutcomeKind::FileExcluded,
            EntryOutcome::FileNotIncluded => OutcomeKind::FileNotIncluded,
            EntryOutcome::ArtistManifest => OutcomeKind::ArtistManifest,
            EntryOutcome::CatalogManifest => OutcomeKind::CatalogManifest,
            EntryOutcome::ReleaseManifest => OutcomeKind::ReleaseManifest,
            EntryOutcome::TrackManifest => OutcomeKind::TrackManifest,
            EntryOutcome::UnrecognizedManifest => OutcomeKind::UnrecognizedManifest,
            EntryOutcome::AudioFile => OutcomeKind::AudioFile,
            EntryOutcome::ImageFile => OutcomeKind::ImageFile,
            EntryOutcome::UnsupportedAudio { .. } => OutcomeKind::UnsupportedAudio,
            EntryOutcome::ExtraFile => OutcomeKind::ExtraFile,
            EntryOutcome::SymlinkIgnored => OutcomeKind::SymlinkIgnored,
            EntryOutcome::UnsupportedIgnored => OutcomeKind::UnsupportedIgnored,
        }
    }
}

pub proof fn lemma_first_contained(patterns: Seq<Seq<char>>, s: Seq<char>)
    ensures
        first_contained(patterns, s) matches Some(i) ==> 0 <= i < patterns.len() && contains(
            s,
            patterns[i],
        ) && forall|j: int| 0 <= j < i ==> !contains(s, #[trigger] patterns[j]),
        first_contained(patterns, s) is None ==> forall|j: int|
            0 <= j < patterns.len() ==> !contains(s, #[trigger] patterns[j]),
    decreases patterns.len(),
{
    if patterns.len() > 0 && !contains(s, patterns[0]) {
        lemma_first_contained(patterns.drop_first(), s);
        assert forall|j: int| 1 <= j < patterns.len() implies patterns[j] == patterns.drop_first()[j
            - 1] by {}
    }
}

/// The index of the first pattern that `s` contains, if any.
fn find_contained(patterns: &Vec<String>, s: &str) -> (r: Option<usize>)
    ensures
        ({
            let ps = patterns@.map_values(|p: String| p@);
            match r {
                Some(i) => first_contained(ps, s@) == Some(i as int),
                None => first_contained(ps, s@) is None,
            }
        }),
{
    let ghost ps = patterns@.map_values(|p: String| p@);
    proof {
        lemma_first_contained(ps, s@);
    }
    let mut i: usize = 0;
    while i < patterns.len()
        invariant
            i <= patterns@.len(),
            ps == patterns@.map_values(|p: String| p@),
            forall|j: int| 0 <= j < i ==> !contains(s@, #[trigger] ps[j]),
            first_contained(ps, s@) matches Some(k) ==> 0 <= k < ps.len() && contains(s@, ps[k])
                && forall|j: int| 0 <= j < k ==> !contains(s@, #[trigger] ps[j]),
            first_contained(ps, s@) is None ==> forall|j: int|
                0 <= j < ps.len() ==> !contains(s@, #[trigger] ps[j]),
        decreases patterns@.len() - i,
    {
        if contains_str(s, patterns[i].as_str()) {
            proof {
                assert(ps[i as int] == patterns@[i as int]@);
                match first_contained(ps, s@) {
                    Some(k) => {
                        if k > i {
                            assert(!contains(s@, ps[i as int]));
                        }
                    },
                    None => {
                        assert(!contains(s@, ps[i as int]));
                    },
                }
            }
            return Some(i);
        }
        assert(!contains(s@, ps[i as int]));
        i = i + 1;
    }
    proof {
        if let Some(k) = first_contained(ps, s@) {
            assert(!contains(s@, ps[k]));
        }
    }
    None
}

/// Whether `o` holds a string equal to `s`.
fn opt_equal(o: &Option<String>, s: &str) -> (eq: bool)
    ensures
        eq == (opt_view(*o) == Some(s@)),
{
    match o {
        Some(v) => str_equal(v.as_str(), s),
        None => false,
    }
}

/// Whether `e` is one of `candidates`.
fn one_of(e: &str, candidates: &[&str]) -> (found: bool)
    ensures
        found == exists|i: int| 0 <= i < candidates@.len() && e@ == (#[trigger] candidates@[i])@,
{
    let mut i: usize = 0;
    while i < candidates.len()
        invariant
            i <= candidates@.len(),
            forall|j: int| 0 <= j < i ==> e@ != (#[trigger] candidates@[j])@,
        decreases candidates@.len() - i,
    {
        if str_equal(e, candidates[i]) {
            return true;
        }
        i = i + 1;
    }
    false
}

impl FairDir {
    /// An empty scan result for the directory at `path`.
    pub fn new(path: PathBuf) -> (fair_dir: FairDir)
        ensures
            fair_dir.path == path,
            fair_dir.artist_manifest is None,
            fair_dir.catalog_manifest is None,
            fair_dir.release_manifest is None,
            fair_dir.track_manifest is None,
            fair_dir.audio_files@.len() == 0,
            fair_dir.dirs@.len() == 0,
            fair_dir.extra_files@.len() == 0,
            fair_dir.image_files@.len() == 0,
    {
        FairDir {
            artist_manifest: None,
            audio_files: Vec::new(),
            catalog_manifest: None,
            dirs: Vec::new(),
            extra_files: Vec::new(),
            image_files: Vec::new(),
            path,
            release_manifest: None,
            track_manifest: None,
        }
    }
}

/// How scanning an entry with outcome `kind` and path `path` changes the
/// scan result: directories and files are appended to their list,
/// manifests are recorded, everything else leaves it unchanged.
pub open spec fn entry_recorded(before: FairDir, after: FairDir, path: PathBuf, kind: OutcomeKind) -> bool {
    &&& after.path == before.path
    &&& after.artist_manifest == if kind == OutcomeKind::ArtistManifest {
        Some(path)
    } else {
        before.artist_manifest
    }
    &&& after.catalog_manifest == if kind == OutcomeKind::CatalogManifest {
        Some(path)
    } else {
        before.catalog_manifest
    }
    &&& after.release_manifest == if kind == OutcomeKind::ReleaseManifest {
        Some(path)
    } else {
        before.release_manifest
    }
    &&& after.track_manifest == if kind == OutcomeKind::TrackManifest {
        Some(path)
    } else {
        before.track_manifest
    }
    &&& after.dirs@ == if kind == OutcomeKind::DirAdded {
        before.dirs@.push(path)
    } else {
        before.dirs@
    }
    &&& after.audio_files@ == if kind == OutcomeKind::AudioFile {
        before.audio_files@.push(path)
    } else {
        before.audio_files@
    }
    &&& after.image_files@ == if kind == OutcomeKind::ImageFile {
        before.image_files@.push(path)
    } else {
        before.image_files@
    }
    &&& after.extra_files@ == if kind == OutcomeKind::ExtraFile {
        before.extra_files@.push(path)
    } else {
        before.extra_files@
    }
}

impl FairDir {
    /// Scans one entry of the directory: decides from what is known of it
    /// (and the exclude and include patterns) what it is, and records it.
    pub fn add_entry(
        &mut self,
        path: PathBuf,
        facts: &EntryFacts,
        exclude_patterns: &Vec<String>,
        include_patterns: &Vec<String>,
    ) -> (outcome: EntryOutcome)
        ensures
            ({
                let exs = exclude_patterns@.map_values(|p: String| p@);
                let ins = include_patterns@.map_values(|p: String| p@);
                &&& outcome.kind() == entry_outcome(*facts, exs, ins)
                &&& entry_recorded(*old(self), *final(self), path, outcome.kind())
                &&& outcome matches EntryOutcome::DirExcluded { pattern } ==> pattern@ == exs[excluding_pattern(exs, opt_view(facts.path_str)).unwrap()]
                &&& outcome matches EntryOutcome::FileExcluded { pattern } ==> pattern@ == exs[excluding_pattern(exs, opt_view(facts.path_str)).unwrap()]
                &&& outcome matches EntryOutcome::UnsupportedAudio { extension } ==> extension@ == lowercase(opt_view(facts.extension).unwrap())
            }),
    {
        let ghost exs = exclude_patterns@.map_values(|p: String| p@);
        let ghost ins = include_patterns@.map_values(|p: String| p@);
        proof {
            reveal_strlit(".");
        }
        if let Some(name) = &facts.file_name {
            if crate::text::starts_with_str(name.as_str(), ".") {
                return EntryOutcome::HiddenIgnored;
            }
        }
        let excluded: Option<usize> = match &facts.path_str {
            Some(s) => find_contained(exclude_patterns, s.as_str()),
            None => None,
        };
        match facts.kind {
            EntryKind::Unknown => EntryOutcome::Skipped,
            EntryKind::Symlink => EntryOutcome::SymlinkIgnored,
            EntryKind::Other => EntryOutcome::UnsupportedIgnored,
            EntryKind::Dir => {
                if facts.is_special_dir {
                    EntryOutcome::SpecialDirIgnored
                } else if let Some(i) = excluded {
                    proof {
                        lemma_first_contained(exs, opt_view(facts.path_str).unwrap());
                    }
                    EntryOutcome::DirExcluded { pattern: exclude_patterns[i].clone() }
                } else {
                    self.dirs.push(path);
                    EntryOutcome::DirAdded
                }
            },
            EntryKind::File => {
                if let Some(i) = excluded {
                    proof {
                        lemma_first_contained(exs, opt_view(facts.path_str).unwrap());
                    }
                    return EntryOutcome::FileExcluded { pattern: exclude_patterns[i].clone() };
                }
                if include_patterns.len() > 0 {
                    let is_included = match &facts.path_str {
                        Some(s) => find_contained(include_patterns, s.as_str()).is_some(),
                        None => false,
                    };
                    if !is_included {
                        return EntryOutcome::FileNotIncluded;
                    }
                }
                if opt_equal(&facts.file_name, "artist.eno") {
                    self.artist_manifest = Some(path);
                    EntryOutcome::ArtistManifest
                } else if opt_equal(&facts.file_name, "catalog.eno") {
                    self.catalog_manifest = Some(path);
                    EntryOutcome::CatalogManifest
                } else if opt_equal(&facts.file_name, "release.eno") {
                    self.release_manifest = Some(path);
                    EntryOutcome::ReleaseManifest
                } else if opt_equal(&facts.file_name, "track.eno") {
                    self.track_manifest = Some(path);
                    EntryOutcome::TrackManifest
                } else if let Some(extension) = &facts.extension {
                    let lower = to_lowercase(extension.as_str());
                    let e = lower.as_str();
                    let audio: [&str; 9] = ["aif", "aifc", "aiff", "alac", "flac", "mp3", "ogg", "opus", "wav"];
                    let image: [&str; 6] = ["gif", "heif", "jpeg", "jpg", "png", "webp"];
                    let unsupported: [&str; 2] = ["aac", "m4a"];
                    proof {
                        assert(audio@ == seq!["aif", "aifc", "aiff", "alac", "flac", "mp3", "ogg", "opus", "wav"]);
                        assert(image@ == seq!["gif", "heif", "jpeg", "jpg", "png", "webp"]);
                        assert(unsupported@ == seq!["aac", "m4a"]);
                    }
                    if str_equal(e, "eno") {
                        EntryOutcome::UnrecognizedManifest
                    } else if one_of(e, &audio) {
                        self.audio_files.push(path);
                        EntryOutcome::AudioFile
                    } else if one_of(e, &image) {
                        self.image_files.push(path);
                        EntryOutcome::ImageFile
                    } else if one_of(e, &unsupported) {
                        EntryOutcome::UnsupportedAudio { extension: lower }
                    } else {
                        self.extra_files.push(path);
                        EntryOutcome::ExtraFile
                    }
                } else {
                    self.extra_files.push(path);
                    EntryOutcome::ExtraFile
                }
            },
        }
    }
}

/// The abstract form of a scanned directory.
#[verifier::ext_equal]
pub struct FairDirView {
    pub path: PathBuf,
    pub artist_manifest: Option<PathBuf>,
    pub catalog_manifest: Option<PathBuf>,
    pub release_manifest: Option<PathBuf>,
    pub track_manifest: Option<PathBuf>,
    pub audio_files: Seq<PathBuf>,
    pub dirs: Seq<PathBuf>,
    pub extra_files: Seq<PathBuf>,
    pub image_files: Seq<PathBuf>,
}

impl View for FairDir {
    type V = FairDirView;

    open spec fn view(&self) -> FairDirView {
        FairDirView {
            path: self.path,
            artist_manifest: self.artist_manifest,
            catalog_manifest: self.catalog_manifest,
            release_manifest: self.release_manifest,
            track_manifest: self.track_manifest,
            audio_files: self.audio_files@,
            dirs: self.dirs@,
            extra_files: self.extra_files@,
            image_files: self.image_files@,
        }
    }
}

/// A directory with an entry recorded as `kind` says.
pub open spec fn record(v: FairDirView, path: PathBuf, kind: OutcomeKind) -> FairDirView {
    FairDirView {
        path: v.path,
        artist_manifest: if kind == OutcomeKind::ArtistManifest { Some(path) } else { v.artist_manifest },
        catalog_manifest: if kind == OutcomeKind::CatalogManifest { Some(path) } else { v.catalog_manifest },
        release_manifest: if kind == OutcomeKind::ReleaseManifest { Some(path) } else { v.release_manifest },
        track_manifest: if kind == OutcomeKind::TrackManifest { Some(path) } else { v.track_manifest },
        audio_files: if kind == OutcomeKind::AudioFile { v.audio_files.push(path) } else { v.audio_files },
        dirs: if kind == OutcomeKind::DirAdded { v.dirs.push(path) } else { v.dirs },
        extra_files: if kind == OutcomeKind::ExtraFile { v.extra_files.push(path) } else { v.extra_files },
        image_files: if kind == OutcomeKind::ImageFile { v.image_files.push(path) } else { v.image_files },
    }
}

/// The empty scan of the directory at `path`.
pub open spec fn empty_scan(path: PathBuf) -> FairDirView {
    FairDirView {
        path,
        artist_manifest: None,
        catalog_manifest: None,
        release_manifest: None,
        track_manifest: None,
        audio_files: seq![],
        dirs: seq![],
        extra_files: seq![],
        image_files: seq![],
    }
}

/// The directory at `path` with its first `k` entries scanned, in order.
pub open spec fn scanned(
    path: PathBuf,
    entries: Seq<(PathBuf, EntryFacts)>,
    exs: Seq<Seq<char>>,
    ins: Seq<Seq<char>>,
    k: int,
) -> FairDirView
    decreases k,
{
    if k <= 0 {
        empty_scan(path)
    } else {
        record(scanned(path, entries, exs, ins, k - 1), entries[k - 1].0, entry_outcome(entries[k - 1].1, exs, ins))
    }
}

impl FairDir {
    /// Scans the entries of the directory at `path` (each given with what
    /// is known of it, as read from disk), in order: what each entry is,
    /// and the directory with all of them recorded.
    pub fn read(
        path: PathBuf,
        entries: Vec<(PathBuf, EntryFacts)>,
        exclude_patterns: &Vec<String>,
        include_patterns: &Vec<String>,
    ) -> (result: (FairDir, Vec<EntryOutcome>))
        ensures
            ({
                let exs = exclude_patterns@.map_values(|p: String| p@);
                let ins = include_patterns@.map_values(|p: String| p@);
                &&& result.0@ == scanned(path, entries@, exs, ins, entries@.len() as int)
                &&& result.1@.len() == entries@.len()
                &&& forall|i: int| 0 <= i < entries@.len() ==> (#[trigger] result.1@[i]).kind() == entry_outcome(entries@[i].1, exs, ins)
            }),
    {
        let ghost exs = exclude_patterns@.map_values(|p: String| p@);
        let ghost ins = include_patterns@.map_values(|p: String| p@);
        let ghost all = entries@;
        let ghost start_path = path;
        let n = entries.len();
        let mut fair_dir = FairDir::new(path);
        let mut outcomes: Vec<EntryOutcome> = Vec::new();
        let mut rest = entries;
        let mut k: usize = 0;
        assert(fair_dir@ =~= empty_scan(start_path));
        while rest.len() > 0
            invariant
                k <= all.len(),
                all.len() == n,
                rest@ == all.subrange(k as int, all.len() as int),
                fair_dir@ == scanned(start_path, all, exs, ins, k as int),
                outcomes@.len() == k,
                forall|i: int| 0 <= i < k ==> (#[trigger] outcomes@[i]).kind() == entry_outcome(all[i].1, exs, ins),
                exs == exclude_patterns@.map_values(|p: String| p@),
                ins == include_patterns@.map_values(|p: String| p@),
            decreases rest@.len(),
        {
            let (entry_path, facts) = rest.remove(0);
            assert((entry_path, facts) == all[k as int]);
            assert(rest@ =~= all.subrange(k + 1, all.len() as int));
            let ghost before = fair_dir@;
            let outcome = fair_dir.add_entry(entry_path, &facts, exclude_patterns, include_patterns);
            assert(fair_dir@ =~= record(before, all[k as int].0, entry_outcome(all[k as int].1, exs, ins)));
            outcomes.push(outcome);
            k = k + 1;
        }
        (fair_dir, outcomes)
    }
}

/// The paths of the entries that scanning classifies as `kind`, in the
/// order in which they were read.
pub open spec fn paths_classified(
    entries: Seq<(PathBuf, EntryFacts)>,
    exs: Seq<Seq<char>>,
    ins: Seq<Seq<char>>,
    kind: OutcomeKind,
) -> Seq<PathBuf> {
    entries.filter(|e: (PathBuf, EntryFacts)| entry_outcome(e.1, exs, ins) == kind).map_values(
        |e: (PathBuf, EntryFacts)| e.0,
    )
}

/// The last of the paths classified as `kind`, if any.
pub open spec fn last_classified(
    entries: Seq<(PathBuf, EntryFacts)>,
    exs: Seq<Seq<char>>,
    ins: Seq<Seq<char>>,
    kind: OutcomeKind,
) -> Option<PathBuf> {
    let paths = paths_classified(entries, exs, ins, kind);
    if paths.len() == 0 {
        None
    } else {
        Some(paths.last())
    }
}

proof fn lemma_paths_classified_push(
    entries: Seq<(PathBuf, EntryFacts)>,
    exs: Seq<Seq<char>>,
    ins: Seq<Seq<char>>,
    kind: OutcomeKind,
    k: int,
)
    requires
        0 <= k < entries.len(),
    ensures
        paths_classified(entries.take(k + 1), exs, ins, kind) == if entry_outcome(entries[k].1, exs, ins) == kind {
            paths_classified(entries.take(k), exs, ins, kind).push(entries[k].0)
        } else {
            paths_classified(entries.take(k), exs, ins, kind)
        },
{
    let pred = |e: (PathBuf, EntryFacts)| entry_outcome(e.1, exs, ins) == kind;
    let path_of = |e: (PathBuf, EntryFacts)| e.0;
    assert(entries.take(k + 1).drop_last() =~= entries.take(k));
    assert(entries.take(k + 1).last() == entries[k]);
    reveal(Seq::filter);
    assert(entries.take(k + 1).filter(pred) == if pred(entries[k]) {
        entries.take(k).filter(pred).push(entries[k])
    } else {
        entries.take(k).filter(pred)
    });
    if pred(entries[k]) {
        assert(entries.take(k).filter(pred).push(entries[k]).map_values(path_of) =~= entries.take(k).filter(
            pred,
        ).map_values(path_of).push(entries[k].0));
    }
}

proof fn lemma_scanned_prefix(
    path: PathBuf,
    entries: Seq<(PathBuf, EntryFacts)>,
    exs: Seq<Seq<char>>,
    ins: Seq<Seq<char>>,
    k: int,
)
    requires
        0 <= k <= entries.len(),
    ensures
        ({
            let v = scanned(path, entries, exs, ins, k);
            let e = entries.take(k);
            &&& v.path == path
            &&& v.audio_files == paths_classified(e, exs, ins, OutcomeKind::AudioFile)
            &&& v.dirs == paths_classified(e, exs, ins, OutcomeKind::DirAdded)
            &&& v.extra_files == paths_classified(e, exs, ins, OutcomeKind::ExtraFile)
            &&& v.image_files == paths_classified(e, exs, ins, OutcomeKind::ImageFile)
            &&& v.artist_manifest == last_classified(e, exs, ins, OutcomeKind::ArtistManifest)
            &&& v.catalog_manifest == last_classified(e, exs, ins, OutcomeKind::CatalogManifest)
            &&& v.release_manifest == last_classified(e, exs, ins, OutcomeKind::ReleaseManifest)
            &&& v.track_manifest == last_classified(e, exs, ins, OutcomeKind::TrackManifest)
        }),
    decreases k,
{
    if k == 0 {
        reveal(Seq::filter);
        assert(entries.take(0) =~= Seq::<(PathBuf, EntryFacts)>::empty());
        assert(paths_classified(entries.take(0), exs, ins, OutcomeKind::AudioFile) =~= Seq::<PathBuf>::empty());
        assert(paths_classified(entries.take(0), exs, ins, OutcomeKind::DirAdded) =~= Seq::<PathBuf>::empty());
        assert(paths_classified(entries.take(0), exs, ins, OutcomeKind::ExtraFile) =~= Seq::<PathBuf>::empty());
        assert(paths_classified(entries.take(0), exs, ins, OutcomeKind::ImageFile) =~= Seq::<PathBuf>::empty());
        assert(paths_classified(entries.take(0), exs, ins, OutcomeKind::ArtistManifest) =~= Seq::<PathBuf>::empty());
        assert(paths_classified(entries.take(0), exs, ins, OutcomeKind::CatalogManifest) =~= Seq::<PathBuf>::empty());
        assert(paths_classified(entries.take(0), exs, ins, OutcomeKind::ReleaseManifest) =~= Seq::<PathBuf>::empty());
        assert(paths_classified(entries.take(0), exs, ins, OutcomeKind::TrackManifest) =~= Seq::<PathBuf>::empty());
    } else {
        lemma_scanned_prefix(path, entries, exs, ins, k - 1);
        lemma_paths_classified_push(entries, exs, ins, OutcomeKind::AudioFile, k - 1);
        lemma_paths_classified_push(entries, exs, ins, OutcomeKind::DirAdded, k - 1);
        lemma_paths_classified_push(entries, exs, ins, OutcomeKind::ExtraFile, k - 1);
        lemma_paths_classified_push(entries, exs, ins, OutcomeKind::ImageFile, k - 1);
        lemma_paths_classified_push(entries, exs, ins, OutcomeKind::ArtistManifest, k - 1);
        lemma_paths_classified_push(entries, exs, ins, OutcomeKind::CatalogManifest, k - 1);
        lemma_paths_classified_push(entries, exs, ins, OutcomeKind::ReleaseManifest, k - 1);
        lemma_paths_classified_push(entries, exs, ins, OutcomeKind::TrackManifest, k - 1);
    }
}

/// Scanning lists the entries by what they are, in the order in which they
/// were read: the directory's subdirectories, audio files, image files and
/// extra files are exactly the entries classified as such, in read order,
/// and of each kind of manifest it keeps the last one read.
pub proof fn lemma_scan_keeps_read_order(
    path: PathBuf,
    entries: Seq<(PathBuf, EntryFacts)>,
    exs: Seq<Seq<char>>,
    ins: Seq<Seq<char>>,
)
    ensures
        ({
            let v = scanned(path, entries, exs, ins, entries.len() as int);
            &&& v.path == path
            &&& v.audio_files == paths_classified(entries, exs, ins, OutcomeKind::AudioFile)
            &&& v.dirs == paths_classified(entries, exs, ins, OutcomeKind::DirAdded)
            &&& v.extra_files == paths_classified(entries, exs, ins, OutcomeKind::ExtraFile)
            &&& v.image_files == paths_classified(entries, exs, ins, OutcomeKind::ImageFile)
            &&& v.artist_manifest == last_classified(entries, exs, ins, OutcomeKind::ArtistManifest)
            &&& v.catalog_manifest == last_classified(entries, exs, ins, OutcomeKind::CatalogManifest)
            &&& v.release_manifest == last_classified(entries, exs, ins, OutcomeKind::ReleaseManifest)
            &&& v.track_manifest == last_classified(entries, exs, ins, OutcomeKind::TrackManifest)
        }),
{
    lemma_scanned_prefix(path, entries, exs, ins, entries.len() as int);
    assert(entries.take(entries.len() as int) =~= entries);
}


pub const UNRECOGNIZED_MANIFEST_BEFORE: &'static str = "A manifest named '";

pub const UNRECOGNIZED_MANIFEST_MIDDLE: &'static str = "' was encountered at '";

pub const UNRECOGNIZED_MANIFEST_AFTER: &'static str = "', but this name is not recognized (allowed ones are 'artist.eno', 'catalog.eno', 'release.eno', and 'track.eno')";

pub const UNSUPPORTED_AUDIO_BEFORE: &'static str = "Support for reading audio files with the extension '";

pub const UNSUPPORTED_AUDIO_AFTER: &'static str = "' from the catalog is not yet supported - please get in touch if you need this";

/// The error for a manifest file named `file_name` (found at `path`) whose
/// name is none of the manifests'.
pub open spec fn spec_unrecognized_manifest_error(file_name: Seq<char>, path: Seq<char>) -> Seq<char> {
    UNRECOGNIZED_MANIFEST_BEFORE@ + file_name + UNRECOGNIZED_MANIFEST_MIDDLE@ + path + UNRECOGNIZED_MANIFEST_AFTER@
}

/// The error for a manifest file named `file_name` (found at `path`) whose
/// name is none of the manifests'.
pub fn unrecognized_manifest_error(file_name: &str, path: &str) -> (error: String)
    ensures
        error@ == spec_unrecognized_manifest_error(file_name@, path@),
{
    let mut error = String::from_str(UNRECOGNIZED_MANIFEST_BEFORE);
    error.append(file_name);
    error.append(UNRECOGNIZED_MANIFEST_MIDDLE);
    error.append(path);
    error.append(UNRECOGNIZED_MANIFEST_AFTER);
    error
}

/// The error for an audio file with an extension that cannot be read yet.
pub fn unsupported_audio_error(extension: &str) -> (error: String)
    ensures
        error@ == UNSUPPORTED_AUDIO_BEFORE@ + extension@ + UNSUPPORTED_AUDIO_AFTER@,
{
    let mut error = String::from_str(UNSUPPORTED_AUDIO_BEFORE);
    error.append(extension);
    error.append(UNSUPPORTED_AUDIO_AFTER);
    error
}

/// Whether a lowercased extension is that of an audio format that is read:
/// aif, aifc, aiff, alac, flac, mp3, ogg, opus or wav.
pub open spec fn names_read_audio_format(lower: Seq<char>) -> bool {
    lower == "aif"@ || lower == "aifc"@ || lower == "aiff"@ || lower == "alac"@ || lower == "flac"@ || lower == "mp3"@ || lower == "ogg"@ || lower == "opus"@ || lower == "wav"@
}

/// A file that is not a manifest and whose extension, lowercased, is that
/// of an audio format that is read (aif, aifc, aiff, alac, flac, mp3, ogg,
/// opus, wav) is read as audio.
pub proof fn lemma_audio_extensions_are_read_as_audio(name: Seq<char>, extension: Seq<char>)
    requires
        name != "artist.eno"@,
        name != "catalog.eno"@,
        name != "release.eno"@,
        name != "track.eno"@,
        names_read_audio_format(lowercase(extension)),
    ensures
        file_outcome(Some(name), Some(extension)) == OutcomeKind::AudioFile,
{
    reveal_strlit("aif");
    assert("aif"@ =~= seq!['a', 'i', 'f']);
    reveal_strlit("aifc");
    assert("aifc"@ =~= seq!['a', 'i', 'f', 'c']);
    reveal_strlit("aiff");
    assert("aiff"@ =~= seq!['a', 'i', 'f', 'f']);
    reveal_strlit("alac");
    assert("alac"@ =~= seq!['a', 'l', 'a', 'c']);
    reveal_strlit("flac");
    assert("flac"@ =~= seq!['f', 'l', 'a', 'c']);
    reveal_strlit("mp3");
    assert("mp3"@ =~= seq!['m', 'p', '3']);
    reveal_strlit("ogg");
    assert("ogg"@ =~= seq!['o', 'g', 'g']);
    reveal_strlit("opus");
    assert("opus"@ =~= seq!['o', 'p', 'u', 's']);
    reveal_strlit("wav");
    assert("wav"@ =~= seq!['w', 'a', 'v']);
    reveal_strlit("eno");
    assert("eno"@ =~= seq!['e', 'n', 'o']);
}

/// Without include and exclude patterns, a visible file that is not a
/// manifest and has the extension of an audio format that is read is
/// scanned as an audio file.
pub proof fn lemma_visible_audio_file_is_scanned_as_audio(facts: EntryFacts)
    requires
        facts.kind == EntryKind::File,
        facts.file_name matches Some(n) && !starts_with(n@, "."@) && n@ != "artist.eno"@ && n@ != "catalog.eno"@
            && n@ != "release.eno"@ && n@ != "track.eno"@,
        facts.extension matches Some(e) && names_read_audio_format(lowercase(e@)),
    ensures
        entry_outcome(facts, seq![], seq![]) == OutcomeKind::AudioFile,
{
    lemma_audio_extensions_are_read_as_audio(facts.file_name->0@, facts.extension->0@);
}

proof fn lemma_scan_literals()
    ensures
        "aif"@ =~= seq!['a', 'i', 'f'],
        "aifc"@ =~= seq!['a', 'i', 'f', 'c'],
        "aiff"@ =~= seq!['a', 'i', 'f', 'f'],
        "alac"@ =~= seq!['a', 'l', 'a', 'c'],
        "flac"@ =~= seq!['f', 'l', 'a', 'c'],
        "mp3"@ =~= seq!['m', 'p', '3'],
        "ogg"@ =~= seq!['o', 'g', 'g'],
        "opus"@ =~= seq!['o', 'p', 'u', 's'],
        "wav"@ =~= seq!['w', 'a', 'v'],
        "gif"@ =~= seq!['g', 'i', 'f'],
        "heif"@ =~= seq!['h', 'e', 'i', 'f'],
        "jpeg"@ =~= seq!['j', 'p', 'e', 'g'],
        "jpg"@ =~= seq!['j', 'p', 'g'],
        "png"@ =~= seq!['p', 'n', 'g'],
        "webp"@ =~= seq!['w', 'e', 'b', 'p'],
        "aac"@ =~= seq!['a', 'a', 'c'],
        "m4a"@ =~= seq!['m', '4', 'a'],
        "eno"@ =~= seq!['e', 'n', 'o'],
        "artist.eno"@ =~= seq!['a', 'r', 't', 'i', 's', 't', '.', 'e', 'n', 'o'],
        "catalog.eno"@ =~= seq!['c', 'a', 't', 'a', 'l', 'o', 'g', '.', 'e', 'n', 'o'],
        "release.eno"@ =~= seq!['r', 'e', 'l', 'e', 'a', 's', 'e', '.', 'e', 'n', 'o'],
        "track.eno"@ =~= seq!['t', 'r', 'a', 'c', 'k', '.', 'e', 'n', 'o'],
{
    reveal_strlit("aif");
    assert("aif"@ =~= seq!['a', 'i', 'f']);
    reveal_strlit("aifc");
    assert("aifc"@ =~= seq!['a', 'i', 'f', 'c']);
    reveal_strlit("aiff");
    assert("aiff"@ =~= seq!['a', 'i', 'f', 'f']);
    reveal_strlit("alac");
    assert("alac"@ =~= seq!['a', 'l', 'a', 'c']);
    reveal_strlit("flac");
    assert("flac"@ =~= seq!['f', 'l', 'a', 'c']);
    reveal_strlit("mp3");
    assert("mp3"@ =~= seq!['m', 'p', '3']);
    reveal_strlit("ogg");
    assert("ogg"@ =~= seq!['o', 'g', 'g']);
    reveal_strlit("opus");
    assert("opus"@ =~= seq!['o', 'p', 'u', 's']);
    reveal_strlit("wav");
    assert("wav"@ =~= seq!['w', 'a', 'v']);
    reveal_strlit("gif");
    assert("gif"@ =~= seq!['g', 'i', 'f']);
    reveal_strlit("heif");
    assert("heif"@ =~= seq!['h', 'e', 'i', 'f']);
    reveal_strlit("jpeg");
    assert("jpeg"@ =~= seq!['j', 'p', 'e', 'g']);
    reveal_strlit("jpg");
    assert("jpg"@ =~= seq!['j', 'p', 'g']);
    reveal_strlit("png");
    assert("png"@ =~= seq!['p', 'n', 'g']);
    reveal_strlit("webp");
    assert("webp"@ =~= seq!['w', 'e', 'b', 'p']);
    reveal_strlit("aac");
    assert("aac"@ =~= seq!['a', 'a', 'c']);
    reveal_strlit("m4a");
    assert("m4a"@ =~= seq!['m', '4', 'a']);
    reveal_strlit("eno");
    assert("eno"@ =~= seq!['e', 'n', 'o']);
    reveal_strlit("artist.eno");
    assert("artist.eno"@ =~= seq!['a', 'r', 't', 'i', 's', 't', '.', 'e', 'n', 'o']);
    reveal_strlit("catalog.eno");
    assert("catalog.eno"@ =~= seq!['c', 'a', 't', 'a', 'l', 'o', 'g', '.', 'e', 'n', 'o']);
    reveal_strlit("release.eno");
    assert("release.eno"@ =~= seq!['r', 'e', 'l', 'e', 'a', 's', 'e', '.', 'e', 'n', 'o']);
    reveal_strlit("track.eno");
    assert("track.eno"@ =~= seq!['t', 'r', 'a', 'c', 'k', '.', 'e', 'n', 'o']);
}

/// Whether a lowercased extension is that of an image format that is read:
/// gif, heif, jpeg, jpg, png or webp.
pub open spec fn names_read_image_format(lower: Seq<char>) -> bool {
    lower == "gif"@ || lower == "heif"@ || lower == "jpeg"@ || lower == "jpg"@ || lower == "png"@ || lower == "webp"@
}

/// The files of a directory by name and extension: the four manifest names
/// give their manifests; otherwise the extension, lowercased, decides: "eno"
/// is a manifest of an unknown name, image formats give images, "aac" and
/// "m4a" are audio that cannot be read yet, and any other extension (or
/// none) gives an extra file.
pub proof fn lemma_file_outcomes(name: Seq<char>, extension: Option<Seq<char>>)
    ensures
        name == "artist.eno"@ ==> file_outcome(Some(name), extension) == OutcomeKind::ArtistManifest,
        name == "catalog.eno"@ ==> file_outcome(Some(name), extension) == OutcomeKind::CatalogManifest,
        name == "release.eno"@ ==> file_outcome(Some(name), extension) == OutcomeKind::ReleaseManifest,
        name == "track.eno"@ ==> file_outcome(Some(name), extension) == OutcomeKind::TrackManifest,
        ({
            let not_manifest = name != "artist.eno"@ && name != "catalog.eno"@ && name != "release.eno"@
                && name != "track.eno"@;
            &&& not_manifest && extension is None ==> file_outcome(Some(name), extension) == OutcomeKind::ExtraFile
            &&& not_manifest && extension is Some && lowercase(extension->0) == "eno"@ ==> file_outcome(Some(name), extension)
                == OutcomeKind::UnrecognizedManifest
            &&& not_manifest && extension is Some && names_read_image_format(lowercase(extension->0)) ==> file_outcome(
                Some(name),
                extension,
            ) == OutcomeKind::ImageFile
            &&& not_manifest && extension is Some && (lowercase(extension->0) == "aac"@ || lowercase(extension->0) == "m4a"@)
                ==> file_outcome(Some(name), extension) == OutcomeKind::UnsupportedAudio
        }),
{
    lemma_scan_literals();
}

/// Hidden entries (whose name starts with a dot) are ignored, whatever
/// they are; a file or directory whose path contains an exclude pattern is
/// excluded; a file whose path contains none of the given include patterns
/// is left out.
pub proof fn lemma_entries_left_out(facts: EntryFacts, exclude_patterns: Seq<Seq<char>>, include_patterns: Seq<Seq<char>>)
    ensures
        facts.file_name is Some && starts_with(facts.file_name->0@, "."@) ==> entry_outcome(facts, exclude_patterns, include_patterns)
            == OutcomeKind::HiddenIgnored,
        !(facts.file_name is Some && starts_with(facts.file_name->0@, "."@)) && facts.kind == EntryKind::File
            && facts.path_str is Some && first_contained(exclude_patterns, facts.path_str->0@) is Some ==> entry_outcome(
            facts,
            exclude_patterns,
            include_patterns,
        ) == OutcomeKind::FileExcluded,
        !(facts.file_name is Some && starts_with(facts.file_name->0@, "."@)) && facts.kind == EntryKind::Dir
            && !facts.is_special_dir && facts.path_str is Some && first_contained(exclude_patterns, facts.path_str->0@)
            is Some ==> entry_outcome(facts, exclude_patterns, include_patterns) == OutcomeKind::DirExcluded,
        !(facts.file_name is Some && starts_with(facts.file_name->0@, "."@)) && facts.kind == EntryKind::File
            && include_patterns.len() > 0 && facts.path_str is None && excluding_pattern(exclude_patterns, None) is None
            ==> entry_outcome(facts, exclude_patterns, include_patterns) == OutcomeKind::FileNotIncluded,
{
}
} // verus!
