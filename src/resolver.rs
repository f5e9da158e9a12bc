use crate::error::PipelineError;
use crate::playlist::{
    join_url, joined_url, parse_playlist_text, parsed_playlist, MediaPlaylist, Playlist,
    PlaylistView, SegmentView,
};
use vstd::prelude::*;

verus! {

/// What the first playlist of an episode resolves to.
pub enum Resolution {
    /// The text was a media playlist: its segments are at hand.
    Media(MediaPlaylist),
    /// The text was a master playlist: the media playlist of its first
    /// variant is still to be fetched from this URL.
    Variant(String),
}

/// The resolution of the first playlist of an episode, fetched from `base`.
pub open spec fn resolve_spec(base: Seq<char>, text: Seq<char>) -> Result<ResolutionView, PipelineError> {
    match parsed_playlist(text) {
        None => Err(PipelineError::Parse),
        Some(PlaylistView::Media(segments)) => Ok(ResolutionView::Media(segments)),
        Some(PlaylistView::Master(variants)) => if variants.len() == 0 {
            Err(PipelineError::MissingData)
        } else {
            match joined_url(base, variants[0]) {
                None => Err(PipelineError::Parse),
                Some(url) => Ok(ResolutionView::Variant(url)),
            }
        },
    }
}

/// A resolution as plain values.
pub enum ResolutionView {
    Media(Seq<SegmentView>),
    Variant(Seq<char>),
}

impl Resolution {
    pub open spec fn view(&self) -> ResolutionView {
        match self {
            Resolution::Media(m) => ResolutionView::Media(m@),
            Resolution::Variant(u) => ResolutionView::Variant(u@),
        }
    }
}

/// The media playlist that a variant's playlist text must be.
pub open spec fn variant_media_spec(text: Seq<char>) -> Result<Seq<SegmentView>, PipelineError> {
    match parsed_playlist(text) {
        None => Err(PipelineError::Parse),
        Some(PlaylistView::Media(segments)) => Ok(segments),
        Some(PlaylistView::Master(_)) => Err(PipelineError::Protocol),
    }
}

/// The URL of the key of a media playlist fetched from `base`: the key tag of
/// the first segment decides for the whole playlist.
pub open spec fn key_url_spec(base: Seq<char>, segments: Seq<SegmentView>) -> Result<Seq<char>, PipelineError> {
    if segments.len() == 0 {
        Err(PipelineError::MissingData)
    } else {
        match segments[0].key {
            None => Err(PipelineError::MissingData),
            Some(None) => Err(PipelineError::MissingData),
            Some(Some(uri)) => match joined_url(base, uri) {
                None => Err(PipelineError::Parse),
                Some(url) => Ok(url),
            },
        }
    }
}

/// Whether every segment URI resolves against `base`.
pub open spec fn segments_resolve(base: Seq<char>, segments: Seq<SegmentView>) -> bool {
    forall|i: int| 0 <= i < segments.len() ==> joined_url(base, #[trigger] segments[i].uri) is Some
}

/// The resolved segment URLs, in playlist order.
pub open spec fn segment_urls_spec(base: Seq<char>, segments: Seq<SegmentView>) -> Seq<Seq<char>> {
    segments.map_values(|s: SegmentView| joined_url(base, s.uri)->0)
}

/// Parses the first playlist of an episode, fetched from `base_url`. A media
/// playlist is the answer; of a master playlist the first variant is taken
/// and its URI resolved against `base_url`.
pub fn resolve(base_url: &str, text: &str) -> (r: Result<Resolution, PipelineError>)
    ensures
        match r {
            Ok(res) => resolve_spec(base_url@, text@) == Ok::<ResolutionView, PipelineError>(res@),
            Err(e) => resolve_spec(base_url@, text@) == Err::<ResolutionView, PipelineError>(e),
        },
        parsed_playlist(text@) == Some(PlaylistView::Master(Seq::empty())) ==> r == Err::<
            Resolution,
            PipelineError,
        >(PipelineError::MissingData),
{
    match parse_playlist_text(text) {
        None => Err(PipelineError::Parse),
        Some(Playlist::Media(m)) => Ok(Resolution::Media(m)),
        Some(Playlist::Master(variants)) => {
            if variants.len() == 0 {
                return Err(PipelineError::MissingData);
            }
            match join_url(base_url, variants[0].uri.as_str()) {
                None => Err(PipelineError::Parse),
                Some(url) => Ok(Resolution::Variant(url)),
            }
        },
    }
}

/// Parses the playlist of the chosen variant, which must be a media playlist:
/// a nested master playlist is a protocol error.
pub fn resolve_variant(text: &str) -> (r: Result<MediaPlaylist, PipelineError>)
    ensures
        match r {
            Ok(m) => variant_media_spec(text@) == Ok::<Seq<SegmentView>, PipelineError>(m@),
            Err(e) => variant_media_spec(text@) == Err::<Seq<SegmentView>, PipelineError>(e),
        },
{
    match parse_playlist_text(text) {
        None => Err(PipelineError::Parse),
        Some(Playlist::Media(m)) => Ok(m),
        Some(Playlist::Master(_)) => Err(PipelineError::Protocol),
    }
}

/// The URL from which the key of `media`, fetched from `base_url`, is to be
/// fetched. Only the first segment's key tag is consulted.
pub fn key_url(base_url: &str, media: &MediaPlaylist) -> (r: Result<String, PipelineError>)
    ensures
        match r {
            Ok(u) => key_url_spec(base_url@, media@) == Ok::<Seq<char>, PipelineError>(u@),
            Err(e) => key_url_spec(base_url@, media@) == Err::<Seq<char>, PipelineError>(e),
        },
        media@.len() > 0 && media@[0].key is None ==> r == Err::<String, PipelineError>(
            PipelineError::MissingData,
        ),
{
    if media.segments.len() == 0 {
        return Err(PipelineError::MissingData);
    }
    let first = &media.segments[0];
    assert(media@[0] == first@);
    match &first.key {
        None => Err(PipelineError::MissingData),
        Some(k) => match &k.uri {
            None => Err(PipelineError::MissingData),
            Some(uri) => match join_url(base_url, uri.as_str()) {
                None => Err(PipelineError::Parse),
                Some(url) => Ok(url),
            },
        },
    }
}

/// The URLs of the segments of `media`, fetched from `base_url`, in playlist
/// order; a URI that does not resolve is a parse error.
pub fn segment_urls(base_url: &str, media: &MediaPlaylist) -> (r: Result<Vec<String>, PipelineError>)
    ensures
        match r {
            Ok(urls) => segments_resolve(base_url@, media@) && urls@.map_values(|u: String| u@)
                == segment_urls_spec(base_url@, media@),
            Err(e) => !segments_resolve(base_url@, media@) && e == PipelineError::Parse,
        },
{
    let mut urls: Vec<String> = Vec::new();
    let mut i: usize = 0;
    while i < media.segments.len()
        invariant
            i <= media.segments@.len(),
            urls@.len() == i,
            forall|j: int| 0 <= j < i ==> joined_url(base_url@, #[trigger] media@[j].uri) == Some(urls@[j]@),
        decreases media.segments@.len() - i,
    {
        match join_url(base_url, media.segments[i].uri.as_str()) {
            None => {
                assert(!segments_resolve(base_url@, media@) && joined_url(base_url@, media@[i as int].uri) is None);
                return Err(PipelineError::Parse);
            },
            Some(u) => {
                urls.push(u);
            },
        }
        i = i + 1;
    }
    assert(urls@.map_values(|u: String| u@) =~= segment_urls_spec(base_url@, media@));
    Ok(urls)
}

} // verus!
