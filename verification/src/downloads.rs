use vstd::prelude::*;

verus! {

/// The general download access setting of a release or track, before it is
/// combined with codes, price and payment info.
#[derive(Clone, Debug)]
pub enum DownloadAccessOption {
    Code,
    Disabled,
    External { link: String },
    Free,
    Paycurtain,
}

/// Whether extra files are offered with the release archive, separately,
/// both or not at all.
#[derive(Clone, Copy, Debug, PartialEq, Eq, Structural)]
pub struct ExtraDownloads {
    pub bundled: bool,
    pub separate: bool,
}

impl ExtraDownloads {
    /// Extras bundled into the release archive.
    pub fn bundled() -> (e: ExtraDownloads)
        ensures
            e == (ExtraDownloads { bundled: true, separate: false }),
    {
        ExtraDownloads { bundled: true, separate: false }
    }

    /// No extras offered.
    pub fn disabled() -> (e: ExtraDownloads)
        ensures
            e == (ExtraDownloads { bundled: false, separate: false }),
    {
        ExtraDownloads { bundled: false, separate: false }
    }

    /// Extras offered as separate downloads.
    pub fn separate() -> (e: ExtraDownloads)
        ensures
            e == (ExtraDownloads { bundled: false, separate: true }),
    {
        ExtraDownloads { bundled: false, separate: true }
    }
}

/// Whether a release has anything to download: some download format, or
/// extras that are offered (bundled or separately).
pub fn download_assets_available(num_download_formats: usize, extra_downloads: ExtraDownloads, num_extras: usize) -> (available: bool)
    ensures
        available == (num_download_formats > 0 || ((extra_downloads.bundled || extra_downloads.separate) && num_extras > 0)),
{
    num_download_formats > 0 || ((extra_downloads.bundled || extra_downloads.separate) && num_extras > 0)
}

/// Whether a release's downloads are served from archives that the build
/// creates: where the site itself offers them (for free, with codes or
/// behind a paycurtain) and there is something to download.
pub fn needs_release_archives(access: &DownloadAccessOption, assets_available: bool) -> (needed: bool)
    ensures
        needed == (assets_available && (access is Code || access is Free || access is Paycurtain)),
{
    match access {
        DownloadAccessOption::Code | DownloadAccessOption::Free | DownloadAccessOption::Paycurtain => assets_available,
        DownloadAccessOption::Disabled | DownloadAccessOption::External { .. } => false,
    }
}

} // verus!
