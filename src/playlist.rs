use vstd::prelude::*;

verus! {

/// One rendition listed by a master playlist.
pub struct Variant {
    pub uri: String,
}

/// A reference to the key resource of a media playlist.
pub struct KeyRef {
    pub uri: Option<String>,
}

/// One media segment: where to fetch it, and the key tag in force for it.
pub struct Segment {
    pub uri: String,
    pub key: Option<KeyRef>,
}

/// A playlist that lists media segments in playback order.
pub struct MediaPlaylist {
    pub segments: Vec<Segment>,
}

/// A parsed playlist: either a list of variants or a list of segments.
pub enum Playlist {
    Master(Vec<Variant>),
    Media(MediaPlaylist),
}

/// A segment as plain values: its URI and, where a key tag is present, the
/// key's URI if the tag gives one.
pub struct SegmentView {
    pub uri: Seq<char>,
    pub key: Option<Option<Seq<char>>>,
}

/// A playlist as plain values.
pub enum PlaylistView {
    Master(Seq<Seq<char>>),
    Media(Seq<SegmentView>),
}

impl KeyRef {
    pub open spec fn view(&self) -> Option<Seq<char>> {
        match self.uri {
            Some(u) => Some(u@),
            None => None,
        }
    }

    pub fn new(uri: Option<String>) -> (r: KeyRef)
        ensures
            r.uri == uri,
    {
        KeyRef { uri }
    }
}

impl Variant {
    pub fn new(uri: String) -> (r: Variant)
        ensures
            r.uri == uri,
    {
        Variant { uri }
    }
}

impl Segment {
    pub open spec fn view(&self) -> SegmentView {
        SegmentView {
            uri: self.uri@,
            key: match self.key {
                Some(k) => Some(k@),
                None => None,
            },
        }
    }

    pub fn new(uri: String, key: Option<KeyRef>) -> (r: Segment)
        ensures
            r.uri == uri,
            r.key == key,
    {
        Segment { uri, key }
    }
}

impl MediaPlaylist {
    pub open spec fn view(&self) -> Seq<SegmentView> {
        self.segments@.map_values(|s: Segment| s@)
    }

    pub fn new(segments: Vec<Segment>) -> (r: MediaPlaylist)
        ensures
            r.segments == segments,
    {
        MediaPlaylist { segments }
    }
}

impl Playlist {
    pub open spec fn view(&self) -> PlaylistView {
        match self {
            Playlist::Master(vs) => PlaylistView::Master(vs@.map_values(|v: Variant| v.uri@)),
            Playlist::Media(m) => PlaylistView::Media(m@),
        }
    }
}

/// What the HLS playlist grammar makes of a playlist text, `None` where the
/// text is not a playlist.
pub uninterp spec fn parsed_playlist(text: Seq<char>) -> Option<PlaylistView>;

/// Relies on `m3u8_rs::parse_playlist_res`: it classifies the text as a master
/// or a media playlist and lists its variants or its segments in order; the
/// result depends on the text alone.
#[verifier::external_body]
pub(crate) fn parse_playlist_text(text: &str) -> (r: Option<Playlist>)
    ensures
        match r {
            Some(p) => parsed_playlist(text@) == Some(p@),
            None => parsed_playlist(text@) is None,
        },
{
    match m3u8_rs::parse_playlist_res(text.as_bytes()) {
        Ok(m3u8_rs::Playlist::MasterPlaylist(m)) => Some(
            Playlist::Master(m.variants.into_iter().map(|v| Variant::new(v.uri)).collect()),
        ),
        Ok(m3u8_rs::Playlist::MediaPlaylist(m)) => Some(
            Playlist::Media(
                MediaPlaylist::new(
                    m.segments.into_iter().map(|s| Segment::new(s.uri, s.key.map(|k| KeyRef::new(k.uri)))).collect(),
                ),
            ),
        ),
        Err(_) => None,
    }
}

/// The text of `reference` resolved against the absolute URL `base` by the
/// standard relative-reference rules; `None` where `base` is not an absolute
/// URL or the result is not a valid URL.
pub uninterp spec fn joined_url(base: Seq<char>, reference: Seq<char>) -> Option<Seq<char>>;

/// Relies on `url::Url::parse` of `base` followed by `url::Url::join` of
/// `reference`, serialised as a string; the result depends on the two texts alone.
#[verifier::external_body]
pub(crate) fn join_url(base: &str, reference: &str) -> (r: Option<String>)
    ensures
        match r {
            Some(u) => joined_url(base@, reference@) == Some(u@),
            None => joined_url(base@, reference@) is None,
        },
{
    url::Url::parse(base).and_then(|b| b.join(reference)).ok().map(|u| String::from(u))
}

/// Resolves `reference` against `base`; `None` where either is not usable as a URL.
pub fn resolve_url(base: &str, reference: &str) -> (r: Option<String>)
    ensures
        match r {
            Some(u) => joined_url(base@, reference@) == Some(u@),
            None => joined_url(base@, reference@) is None,
        },
{
    join_url(base, reference)
}

} // verus!
