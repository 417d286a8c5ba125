use faircamp::release_pages::{
    release_pages, release_payment_info_warning, track_payment_info_warning, DownloadPages, PageAccess, PageKind,
    PagePermalinks, PlannedFile, TrackPages,
};

fn downloads(available: bool, access: PageAccess) -> DownloadPages {
    DownloadPages {
        available,
        access,
        unlock_hash: String::from("uh"),
        download_hash: String::from("dh"),
        purchase_hash: String::from("ph"),
    }
}

fn permalinks() -> PagePermalinks {
    PagePermalinks { unlock: String::from("unlock"), downloads: String::from("downloads"), purchase: String::from("purchase") }
}

fn paths(files: &[PlannedFile]) -> Vec<(PageKind, String)> {
    files.iter().map(|f| (f.kind, f.path.join("/"))).collect()
}

#[test]
fn pages_of_a_release_with_codes_and_embedding() {
    let tracks = vec![
        TrackPages { embedding: true, downloads: downloads(true, PageAccess::Free) },
        TrackPages { embedding: false, downloads: downloads(true, PageAccess::Paycurtain { has_payment_info: false }) },
    ];
    let codes = PageAccess::Code { download_codes: vec![String::from("friend"), String::from("family")] };
    let (files, warn, lacks) = release_pages("r", &downloads(true, codes), &permalinks(), true, true, true, &tracks);
    assert_eq!(
        paths(&files),
        vec![
            (PageKind::Release, String::from("r")),
            (PageKind::Unlock, String::from("r/unlock/uh")),
            (PageKind::Download, String::from("r/downloads/friend")),
            (PageKind::Download, String::from("r/downloads/family")),
            (PageKind::Playlist, String::from("r/playlist.m3u")),
            (PageKind::EmbedCodes, String::from("r/embed")),
            (PageKind::Embed, String::from("r/embed/all")),
            (PageKind::EmbedCodes, String::from("r/1/embed")),
            (PageKind::Embed, String::from("r/embed/1")),
            (PageKind::Track, String::from("r/1")),
            (PageKind::Download, String::from("r/1/downloads/dh")),
            (PageKind::Track, String::from("r/2")),
        ]
    );
    assert!(!warn);
    assert_eq!(lacks, vec![false, true]);
}

#[test]
fn pages_of_a_release_without_base_url() {
    let tracks = vec![TrackPages { embedding: true, downloads: downloads(false, PageAccess::Free) }];
    let paid = PageAccess::Paycurtain { has_payment_info: true };
    let (files, warn, _) = release_pages("s", &downloads(true, paid), &permalinks(), false, true, true, &tracks);
    assert_eq!(
        paths(&files),
        vec![
            (PageKind::Release, String::from("s")),
            (PageKind::Purchase, String::from("s/purchase/ph")),
            (PageKind::Download, String::from("s/downloads/dh")),
            (PageKind::Track, String::from("s/1")),
        ]
    );
    assert!(!warn);
    let (files, warn, _) = release_pages("s", &downloads(true, PageAccess::Paycurtain { has_payment_info: false }), &permalinks(), false, false, false, &Vec::new());
    assert_eq!(files.len(), 1);
    assert!(warn);
    let (files, _, _) = release_pages("s", &downloads(true, PageAccess::External), &permalinks(), true, false, false, &Vec::new());
    assert_eq!(files.len(), 1);
}

#[test]
fn payment_info_warnings() {
    assert_eq!(
        release_payment_info_warning("Dawn"),
        "No payment info specified for release 'Dawn', no purchase/download option will be displayed for this release."
    );
    assert_eq!(
        track_payment_info_warning("Dawn"),
        "No payment info specified for track 'Dawn', no purchase/download option will be displayed for this track."
    );
}
