use vstd::prelude::*;

verus! {

/// Most generic/low-level audio format representation, covering both
/// download and streaming formats at a technical level.
#[derive(Clone, Copy, Debug, PartialEq, Eq, Structural)]
pub enum AudioFormat {
    Aac,
    Aiff,
    Alac,
    Flac,
    /// VBR 220-260 KB/s
    Mp3VbrV0,
    /// VBR 120-150 KB/s
    Mp3VbrV5,
    /// VBR 80-120 KB/s
    Mp3VbrV7,
    OggVorbis,
    Opus48Kbps,
    Opus96Kbps,
    Opus128Kbps,
    Wav,
}

/// A simplified format description, agnostic of bitrate.
#[derive(Clone, Copy, Debug, PartialEq, Eq, Structural)]
pub enum AudioFormatFamily {
    Aac,
    Aiff,
    Alac,
    Flac,
    Mp3,
    OggVorbis,
    Opus,
    Wav,
}

/// The directory name under which the assets of a format are written.
pub open spec fn spec_asset_dirname(format: AudioFormat) -> Seq<char> {
    match format {
        AudioFormat::Aac => "aac"@,
        AudioFormat::Aiff => "aiff"@,
        AudioFormat::Alac => "alac"@,
        AudioFormat::Flac => "flac"@,
        AudioFormat::Mp3VbrV0 => "mp3-v0"@,
        AudioFormat::Mp3VbrV5 => "mp3-v5"@,
        AudioFormat::Mp3VbrV7 => "mp3-v7"@,
        AudioFormat::OggVorbis => "ogg"@,
        AudioFormat::Opus48Kbps => "opus-48"@,
        AudioFormat::Opus96Kbps => "opus-96"@,
        AudioFormat::Opus128Kbps => "opus-128"@,
        AudioFormat::Wav => "wav"@,
    }
}

/// The family (bitrate-agnostic format) of a format.
pub open spec fn spec_family(format: AudioFormat) -> AudioFormatFamily {
    match format {
        AudioFormat::Aac => AudioFormatFamily::Aac,
        AudioFormat::Aiff => AudioFormatFamily::Aiff,
        AudioFormat::Alac => AudioFormatFamily::Alac,
        AudioFormat::Flac => AudioFormatFamily::Flac,
        AudioFormat::Mp3VbrV0 | AudioFormat::Mp3VbrV5 | AudioFormat::Mp3VbrV7 => AudioFormatFamily::Mp3,
        AudioFormat::OggVorbis => AudioFormatFamily::OggVorbis,
        AudioFormat::Opus48Kbps | AudioFormat::Opus96Kbps | AudioFormat::Opus128Kbps => AudioFormatFamily::Opus,
        AudioFormat::Wav => AudioFormatFamily::Wav,
    }
}

/// The file extension (with leading dot) used for files of a format family.
pub open spec fn spec_family_extension(family: AudioFormatFamily) -> Seq<char> {
    match family {
        AudioFormatFamily::Aac => ".aac"@,
        AudioFormatFamily::Aiff => ".aiff"@,
        AudioFormatFamily::Alac => ".m4a"@,
        AudioFormatFamily::Flac => ".flac"@,
        AudioFormatFamily::Mp3 => ".mp3"@,
        AudioFormatFamily::OggVorbis => ".ogg"@,
        AudioFormatFamily::Opus => ".opus"@,
        AudioFormatFamily::Wav => ".wav"@,
    }
}

/// Whether a format is used for streaming (only those have a source type).
pub open spec fn is_streaming_format(format: AudioFormat) -> bool {
    spec_family(format) == AudioFormatFamily::Mp3 || spec_family(format) == AudioFormatFamily::Opus
}

impl AudioFormat {
    /// Assets for each format are rendered into their own directory in order
    /// to avoid filename collisions; this returns the dirname for a format.
    pub fn asset_dirname(&self) -> (dirname: &'static str)
        ensures
            dirname@ == spec_asset_dirname(*self),
    {
        match self {
            AudioFormat::Aac => { proof { reveal_strlit("aac"); } "aac" },
            AudioFormat::Aiff => { proof { reveal_strlit("aiff"); } "aiff" },
            AudioFormat::Alac => { proof { reveal_strlit("alac"); } "alac" },
            AudioFormat::Flac => { proof { reveal_strlit("flac"); } "flac" },
            AudioFormat::Mp3VbrV0 => { proof { reveal_strlit("mp3-v0"); } "mp3-v0" },
            AudioFormat::Mp3VbrV5 => { proof { reveal_strlit("mp3-v5"); } "mp3-v5" },
            AudioFormat::Mp3VbrV7 => { proof { reveal_strlit("mp3-v7"); } "mp3-v7" },
            AudioFormat::OggVorbis => { proof { reveal_strlit("ogg"); } "ogg" },
            AudioFormat::Opus48Kbps => { proof { reveal_strlit("opus-48"); } "opus-48" },
            AudioFormat::Opus96Kbps => { proof { reveal_strlit("opus-96"); } "opus-96" },
            AudioFormat::Opus128Kbps => { proof { reveal_strlit("opus-128"); } "opus-128" },
            AudioFormat::Wav => { proof { reveal_strlit("wav"); } "wav" },
        }
    }
}

/// The human readable name of a format, as shown in download listings.
pub open spec fn spec_label(format: AudioFormat) -> Seq<char> {
    match format {
        AudioFormat::Aac => "AAC"@,
        AudioFormat::Aiff => "AIFF"@,
        AudioFormat::Alac => "ALAC"@,
        AudioFormat::Flac => "FLAC"@,
        AudioFormat::Mp3VbrV0 => "MP3 V0"@,
        AudioFormat::Mp3VbrV5 => "MP3 V5"@,
        AudioFormat::Mp3VbrV7 => "MP3 V7"@,
        AudioFormat::OggVorbis => "Ogg Vorbis"@,
        AudioFormat::Opus48Kbps => "Opus 48"@,
        AudioFormat::Opus96Kbps => "Opus 96"@,
        AudioFormat::Opus128Kbps => "Opus 128"@,
        AudioFormat::Wav => "WAV"@,
    }
}

impl AudioFormat {
    /// The file extension (with leading dot) of files in this format.
    pub fn extension(&self) -> (extension: &'static str)
        ensures
            extension@ == spec_family_extension(spec_family(*self)),
    {
        match self {
            AudioFormat::Aac => { proof { reveal_strlit(".aac"); } ".aac" },
            AudioFormat::Aiff => { proof { reveal_strlit(".aiff"); } ".aiff" },
            AudioFormat::Alac => { proof { reveal_strlit(".m4a"); } ".m4a" },
            AudioFormat::Flac => { proof { reveal_strlit(".flac"); } ".flac" },
            AudioFormat::Mp3VbrV0 => { proof { reveal_strlit(".mp3"); } ".mp3" },
            AudioFormat::Mp3VbrV5 => { proof { reveal_strlit(".mp3"); } ".mp3" },
            AudioFormat::Mp3VbrV7 => { proof { reveal_strlit(".mp3"); } ".mp3" },
            AudioFormat::OggVorbis => { proof { reveal_strlit(".ogg"); } ".ogg" },
            AudioFormat::Opus48Kbps => { proof { reveal_strlit(".opus"); } ".opus" },
            AudioFormat::Opus96Kbps => { proof { reveal_strlit(".opus"); } ".opus" },
            AudioFormat::Opus128Kbps => { proof { reveal_strlit(".opus"); } ".opus" },
            AudioFormat::Wav => { proof { reveal_strlit(".wav"); } ".wav" },
        }
    }

    /// The bitrate-agnostic family of this format.
    pub fn family(&self) -> (family: AudioFormatFamily)
        ensures
            family == spec_family(*self),
    {
        match self {
            AudioFormat::Aac => AudioFormatFamily::Aac,
            AudioFormat::Aiff => AudioFormatFamily::Aiff,
            AudioFormat::Alac => AudioFormatFamily::Alac,
            AudioFormat::Flac => AudioFormatFamily::Flac,
            AudioFormat::Mp3VbrV0 => AudioFormatFamily::Mp3,
            AudioFormat::Mp3VbrV5 => AudioFormatFamily::Mp3,
            AudioFormat::Mp3VbrV7 => AudioFormatFamily::Mp3,
            AudioFormat::OggVorbis => AudioFormatFamily::OggVorbis,
            AudioFormat::Opus48Kbps => AudioFormatFamily::Opus,
            AudioFormat::Opus96Kbps => AudioFormatFamily::Opus,
            AudioFormat::Opus128Kbps => AudioFormatFamily::Opus,
            AudioFormat::Wav => AudioFormatFamily::Wav,
        }
    }

    /// The mime type used for the <source> tag in the streaming player.
    /// It exists only for the formats that are used for streaming (the MP3
    /// and Opus families).
    pub fn source_type(&self) -> (source_type: &'static str)
        requires
            is_streaming_format(*self),
        ensures
            spec_family(*self) == AudioFormatFamily::Mp3 ==> source_type@ == "audio/mpeg"@,
            spec_family(*self) == AudioFormatFamily::Opus ==> source_type@ == "audio/ogg; codecs=opus"@,
    {
        match self {
            AudioFormat::Mp3VbrV0 | AudioFormat::Mp3VbrV5 | AudioFormat::Mp3VbrV7 => "audio/mpeg",
            _ => "audio/ogg; codecs=opus",
        }
    }

    /// The human readable name of this format (e.g. "MP3 V0").
    pub fn label(&self) -> (label: &'static str)
        ensures
            label@ == spec_label(*self),
    {
        match self {
            AudioFormat::Aac => { proof { reveal_strlit("AAC"); } "AAC" },
            AudioFormat::Aiff => { proof { reveal_strlit("AIFF"); } "AIFF" },
            AudioFormat::Alac => { proof { reveal_strlit("ALAC"); } "ALAC" },
            AudioFormat::Flac => { proof { reveal_strlit("FLAC"); } "FLAC" },
            AudioFormat::Mp3VbrV0 => { proof { reveal_strlit("MP3 V0"); } "MP3 V0" },
            AudioFormat::Mp3VbrV5 => { proof { reveal_strlit("MP3 V5"); } "MP3 V5" },
            AudioFormat::Mp3VbrV7 => { proof { reveal_strlit("MP3 V7"); } "MP3 V7" },
            AudioFormat::OggVorbis => { proof { reveal_strlit("Ogg Vorbis"); } "Ogg Vorbis" },
            AudioFormat::Opus48Kbps => { proof { reveal_strlit("Opus 48"); } "Opus 48" },
            AudioFormat::Opus96Kbps => { proof { reveal_strlit("Opus 96"); } "Opus 96" },
            AudioFormat::Opus128Kbps => { proof { reveal_strlit("Opus 128"); } "Opus 128" },
            AudioFormat::Wav => { proof { reveal_strlit("WAV"); } "WAV" },
        }
    }
}

/// Distinct formats are written to distinct asset directories, so that their
/// assets can never collide by filename.
pub proof fn lemma_asset_dirnames_distinct(a: AudioFormat, b: AudioFormat)
    requires
        a != b,
    ensures
        spec_asset_dirname(a) != spec_asset_dirname(b),
{
    reveal_strlit("aac");
    reveal_strlit("aiff");
    reveal_strlit("alac");
    reveal_strlit("flac");
    reveal_strlit("mp3-v0");
    reveal_strlit("mp3-v5");
    reveal_strlit("mp3-v7");
    reveal_strlit("ogg");
    reveal_strlit("opus-48");
    reveal_strlit("opus-96");
    reveal_strlit("opus-128");
    reveal_strlit("wav");
    let x = spec_asset_dirname(a);
    let y = spec_asset_dirname(b);
    if x.len() == y.len() {
        assert(exists|i: int| 0 <= i < x.len() && x[i] != y[i]) by {
            assert(x[0] != y[0] || x[1] != y[1] || x[2] != y[2] || x[3] != y[3] || x[5] != y[5]);
        }
    }
}

/// Distinct format families use distinct file extensions.
pub proof fn lemma_family_extensions_distinct(a: AudioFormatFamily, b: AudioFormatFamily)
    requires
        a != b,
    ensures
        spec_family_extension(a) != spec_family_extension(b),
{
    reveal_strlit(".aac");
    reveal_strlit(".aiff");
    reveal_strlit(".m4a");
    reveal_strlit(".flac");
    reveal_strlit(".mp3");
    reveal_strlit(".ogg");
    reveal_strlit(".opus");
    reveal_strlit(".wav");
    let x = spec_family_extension(a);
    let y = spec_family_extension(b);
    if x.len() == y.len() {
        assert(exists|i: int| 0 <= i < x.len() && x[i] != y[i]) by {
            assert(x[1] != y[1] || x[2] != y[2] || x[3] != y[3]);
        }
    }
}

} // verus!
