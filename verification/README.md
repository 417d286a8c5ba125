# faircamp (verified core)

A static site generator for music catalogs, whose decisions are verified
with Verus. `src/` holds the library, every function of it proved against
its contract; `app/` is a small command line front end that reads a catalog
directory from disk and prints what the library makes of it.

Modules of the library:

- `fair_dir`, `catalog_dirs`: which files of a directory are read, and the
  role each directory plays (artist, release, track).
- `audio_meta`, `id3_util`, `heuristic_audio_meta`: track metadata from
  tags, and track numbers and titles from file names.
- `release_dir`, `artist_mapping`, `catalog`: the order of a release's
  tracks, its title, its main and support artists, the mapping of artist
  names to the catalog's artists, asset basenames and the cover image.
- `permalink`: conflicts between permalinks, and the subscribe page's slug.
- `cache`, `asset`, `image`, `cover_generator`: cache entries, their
  staleness, and their maintenance.
- `ffmpeg`, `audio_format`: formats and transcoding arguments.
- `markdown`: markdown parsed with pulldown_cmark, rendered to html (rules
  as dividers, external links opening in a new tab) and to plain text.
- `render`, `feeds`, `favicon`, `link`, `opengraph`: text and markup
  produced for pages, and the Atom, RSS and podcast feeds.
- `m3u`: the M3U playlists of releases, artists and the catalog.
- `manifest`, `obsolete_options`: diagnostics for manifests.
- `release_manifest`, `artist_manifest`, `link_option`, `image_option`,
  `theme_option`, `track_options`: reading manifest options from elements
  given as plain values.
- `html`: escaping text for html.
- `release_pages`, `locale`, `deploy`, `downloads`: the plan of a
  release's pages, the interface translations, deployment and download
  settings.
- `text`: the string functions and their specifications that the rest
  builds on.

Laws that span functions are stated as public proof functions (named
`lemma_*`) next to the functions they relate.
