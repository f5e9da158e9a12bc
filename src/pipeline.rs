use crate::cipher::{decrypt_segment, decrypt_spec};
use crate::error::{CryptoError, PipelineError};
use crate::playlist::{MediaPlaylist, SegmentView};
use crate::resolver::{
    key_url, key_url_spec, resolve, resolve_spec, resolve_variant, segment_urls,
    segment_urls_spec, segments_resolve, variant_media_spec, Resolution, ResolutionView,
};
use vstd::prelude::*;

verus! {

/// Where one episode's download stands.
pub enum Stage {
    /// The episode's playlist is to be fetched, as text, from `url`.
    FetchPlaylist { url: String },
    /// The first variant's media playlist is to be fetched, as text, from `url`.
    FetchVariant { url: String },
    /// The key is to be fetched, as bytes, from `key_url`; the segments follow.
    FetchKey { key_url: String, segment_urls: Vec<String> },
    /// Segment `next` is to be fetched, as bytes, and decrypted with `key`.
    FetchSegment { key: Vec<u8>, segment_urls: Vec<String>, next: usize },
    /// Every segment was decrypted and handed out, in playlist order.
    Done,
    /// The download failed; nothing more is fetched.
    Failed(PipelineError),
}

/// The fetch that the pipeline waits for.
pub enum Request {
    /// The body of this URL, as text.
    Text(String),
    /// The body of this URL, as raw bytes.
    Bytes(String),
}

/// The decrypted output of a sequence of segment blobs under one key: the
/// plaintexts concatenated in order, or the first decryption error.
pub open spec fn assembled(key: Seq<u8>, blobs: Seq<Seq<u8>>) -> Result<Seq<u8>, CryptoError>
    decreases blobs.len(),
{
    if blobs.len() == 0 {
        Ok(Seq::empty())
    } else {
        match assembled(key, blobs.drop_last()) {
            Err(e) => Err(e),
            Ok(prefix) => match decrypt_spec(blobs.last(), key) {
                Ok(plain) => Ok(prefix + plain),
                Err(e) => Err(e),
            },
        }
    }
}

/// Whether `stage` is where the segments of a media playlist fetched from
/// `base` begin: a failure if the key or a segment URL cannot be had, else the
/// key fetch with every segment URL resolved. `r` is what the step returned.
pub open spec fn enters_media(
    base: Seq<char>,
    segments: Seq<SegmentView>,
    r: Result<(), PipelineError>,
    stage: Stage,
) -> bool {
    match key_url_spec(base, segments) {
        Err(e) => r == Err::<(), PipelineError>(e) && stage == Stage::Failed(e),
        Ok(k) => if !segments_resolve(base, segments) {
            r == Err::<(), PipelineError>(PipelineError::Parse) && stage == Stage::Failed(
                PipelineError::Parse,
            )
        } else {
            r is Ok && match stage {
                Stage::FetchKey { key_url, segment_urls } => key_url@ == k
                    && segment_urls@.map_values(|u: String| u@) == segment_urls_spec(base, segments),
                _ => false,
            }
        },
    }
}

/// The per-episode download as a state machine: it names each fetch to make,
/// takes each response, and hands out decrypted segment bytes in playlist order.
pub struct SegmentPipeline {
    pub stage: Stage,
    /// The key in force for the segments (empty until it is fetched).
    pub key: Ghost<Seq<u8>>,
    /// The segment blobs taken so far, in order.
    pub received: Ghost<Seq<Seq<u8>>>,
    /// The bytes handed out so far, in order.
    pub emitted: Ghost<Seq<u8>>,
}

impl SegmentPipeline {
    /// The bytes handed out are always the in-order decryption of the blobs
    /// taken, and the segment counter agrees with the blobs taken.
    pub open spec fn wf(&self) -> bool {
        &&& assembled(self.key@, self.received@) == Ok::<Seq<u8>, CryptoError>(self.emitted@)
        &&& match self.stage {
            Stage::FetchPlaylist { .. } => self.received@.len() == 0,
            Stage::FetchVariant { .. } => self.received@.len() == 0,
            Stage::FetchKey { .. } => self.received@.len() == 0,
            Stage::FetchSegment { key, segment_urls, next } => {
                &&& next < segment_urls@.len()
                &&& self.received@.len() == next
                &&& key@ == self.key@
            },
            _ => true,
        }
    }

    /// A pipeline that starts by fetching the episode's playlist from `stream_url`.
    pub fn new(stream_url: String) -> (r: SegmentPipeline)
        ensures
            r.wf(),
            r.stage == (Stage::FetchPlaylist { url: stream_url }),
            r.received@ == Seq::<Seq<u8>>::empty(),
            r.emitted@ == Seq::<u8>::empty(),
    {
        SegmentPipeline {
            stage: Stage::FetchPlaylist { url: stream_url },
            key: Ghost(Seq::empty()),
            received: Ghost(Seq::empty()),
            emitted: Ghost(Seq::empty()),
        }
    }

    /// The fetch to make next, or `None` once the pipeline is done or failed.
    pub fn request(&self) -> (r: Option<Request>)
        requires
            self.wf(),
        ensures
            match self.stage {
                Stage::FetchPlaylist { url } => r == Some(Request::Text(url)),
                Stage::FetchVariant { url } => r == Some(Request::Text(url)),
                Stage::FetchKey { key_url, .. } => r == Some(Request::Bytes(key_url)),
                Stage::FetchSegment { segment_urls, next, .. } => r == Some(
                    Request::Bytes(segment_urls@[next as int]),
                ),
                _ => r is None,
            },
    {
        match &self.stage {
            Stage::FetchPlaylist { url } => Some(Request::Text(url.clone())),
            Stage::FetchVariant { url } => Some(Request::Text(url.clone())),
            Stage::FetchKey { key_url, .. } => Some(Request::Bytes(key_url.clone())),
            Stage::FetchSegment { segment_urls, next, .. } => Some(
                Request::Bytes(segment_urls[*next].clone()),
            ),
            _ => None,
        }
    }

    /// Whether the episode completed.
    pub fn is_done(&self) -> (r: bool)
        ensures
            r == (self.stage is Done),
    {
        match self.stage {
            Stage::Done => true,
            _ => false,
        }
    }

    /// Moves on to the key fetch of a media playlist fetched from `base`.
    fn enter_media(&mut self, base: &str, media: &MediaPlaylist) -> (r: Result<(), PipelineError>)
        requires
            old(self).wf(),
            old(self).received@.len() == 0,
        ensures
            final(self).wf(),
            final(self).key == old(self).key,
            final(self).received == old(self).received,
            final(self).emitted == old(self).emitted,
            enters_media(base@, media@, r, final(self).stage),
    {
        match key_url(base, media) {
            Err(e) => {
                self.stage = Stage::Failed(e);
                Err(e)
            },
            Ok(k) => match segment_urls(base, media) {
                Err(e) => {
                    self.stage = Stage::Failed(e);
                    Err(e)
                },
                Ok(urls) => {
                    self.stage = Stage::FetchKey { key_url: k, segment_urls: urls };
                    Ok(())
                },
            },
        }
    }

    /// Takes the text of the playlist that was requested. The episode's
    /// playlist resolves to a media playlist or to its first variant's URL;
    /// a variant's playlist must be a media playlist. Errors end the episode.
    pub fn on_text(&mut self, text: &str) -> (r: Result<(), PipelineError>)
        requires
            old(self).wf(),
            old(self).stage is FetchPlaylist || old(self).stage is FetchVariant,
        ensures
            final(self).wf(),
            final(self).key == old(self).key,
            final(self).received == old(self).received,
            final(self).emitted == old(self).emitted,
            match old(self).stage {
                Stage::FetchPlaylist { url } => match resolve_spec(url@, text@) {
                    Err(e) => r == Err::<(), PipelineError>(e) && final(self).stage == Stage::Failed(e),
                    Ok(ResolutionView::Variant(v)) => r is Ok && match final(self).stage {
                        Stage::FetchVariant { url: u } => u@ == v,
                        _ => false,
                    },
                    Ok(ResolutionView::Media(segments)) => enters_media(url@, segments, r, final(self).stage),
                },
                Stage::FetchVariant { url } => match variant_media_spec(text@) {
                    Err(e) => r == Err::<(), PipelineError>(e) && final(self).stage == Stage::Failed(e),
                    Ok(segments) => enters_media(url@, segments, r, final(self).stage),
                },
                _ => false,
            },
    {
        let mut stage = Stage::Done;
        core::mem::swap(&mut stage, &mut self.stage);
        match stage {
            Stage::FetchPlaylist { url } => match resolve(url.as_str(), text) {
                Err(e) => {
                    self.stage = Stage::Failed(e);
                    Err(e)
                },
                Ok(Resolution::Variant(v)) => {
                    self.stage = Stage::FetchVariant { url: v };
                    Ok(())
                },
                Ok(Resolution::Media(m)) => self.enter_media(url.as_str(), &m),
            },
            Stage::FetchVariant { url } => match resolve_variant(text) {
                Err(e) => {
                    self.stage = Stage::Failed(e);
                    Err(e)
                },
                Ok(m) => self.enter_media(url.as_str(), &m),
            },
            _ => Err(PipelineError::Protocol),
        }
    }

    /// Takes the bytes that were requested: the key, which is kept for every
    /// segment, or the next segment, which is decrypted and handed out. A
    /// segment that cannot be decrypted ends the episode.
    pub fn on_bytes(&mut self, body: &[u8]) -> (r: Result<Vec<u8>, PipelineError>)
        requires
            old(self).wf(),
            old(self).stage is FetchKey || old(self).stage is FetchSegment,
        ensures
            final(self).wf(),
            match old(self).stage {
                Stage::FetchKey { segment_urls, .. } => {
                    &&& r matches Ok(v) && v@.len() == 0
                    &&& final(self).key@ == body@
                    &&& final(self).received == old(self).received
                    &&& final(self).emitted == old(self).emitted
                    &&& if segment_urls@.len() == 0 {
                        final(self).stage is Done
                    } else {
                        match final(self).stage {
                            Stage::FetchSegment { key, segment_urls: urls, next } => {
                                &&& key@ == body@
                                &&& urls == segment_urls
                                &&& next == 0
                            },
                            _ => false,
                        }
                    }
                },
                Stage::FetchSegment { key, segment_urls, next } => match decrypt_spec(body@, key@) {
                    Err(e) => {
                        &&& r == Err::<Vec<u8>, PipelineError>(PipelineError::Crypto(e))
                        &&& final(self).stage == Stage::Failed(PipelineError::Crypto(e))
                        &&& final(self).received == old(self).received
                        &&& final(self).emitted == old(self).emitted
                    },
                    Ok(plain) => {
                        &&& r matches Ok(v) && v@ == plain
                        &&& final(self).key == old(self).key
                        &&& final(self).received@ == old(self).received@.push(body@)
                        &&& final(self).emitted@ == old(self).emitted@ + plain
                        &&& if next + 1 == segment_urls@.len() {
                            final(self).stage is Done
                        } else {
                            final(self).stage == (Stage::FetchSegment { key, segment_urls, next: (next + 1) as usize })
                        }
                    },
                },
                _ => false,
            },
    {
        let mut stage = Stage::Done;
        core::mem::swap(&mut stage, &mut self.stage);
        match stage {
            Stage::FetchKey { segment_urls, .. } => {
                let mut key: Vec<u8> = Vec::new();
                key.extend_from_slice(body);
                assert(key@ =~= body@);
                proof {
                    self.key = Ghost(body@);
                    assert(assembled(body@, self.received@) == Ok::<Seq<u8>, CryptoError>(self.emitted@));
                }
                if segment_urls.len() > 0 {
                    self.stage = Stage::FetchSegment { key, segment_urls, next: 0 };
                }
                Ok(Vec::new())
            },
            Stage::FetchSegment { key, segment_urls, next } => {
                match decrypt_segment(body, key.as_slice()) {
                    Err(e) => {
                        self.stage = Stage::Failed(PipelineError::Crypto(e));
                        Err(PipelineError::Crypto(e))
                    },
                    Ok(plain) => {
                        proof {
                            let old_received = self.received@;
                            self.received = Ghost(old_received.push(body@));
                            self.emitted = Ghost(self.emitted@ + plain@);
                            assert(self.received@.drop_last() =~= old_received);
                            assert(self.received@.last() == body@);
                            assert(assembled(self.key@, self.received@) == Ok::<Seq<u8>, CryptoError>(self.emitted@));
                        }
                        if next < segment_urls.len() - 1 {
                            self.stage = Stage::FetchSegment { key, segment_urls, next: next + 1 };
                        }
                        Ok(plain)
                    },
                }
            },
            _ => Err(PipelineError::Protocol),
        }
    }

    /// Records that the requested fetch failed: the episode ends with a
    /// network error.
    pub fn on_fetch_failed(&mut self) -> (r: PipelineError)
        requires
            old(self).wf(),
        ensures
            final(self).wf(),
            r == PipelineError::Network,
            final(self).stage == Stage::Failed(PipelineError::Network),
            final(self).received == old(self).received,
            final(self).emitted == old(self).emitted,
    {
        self.stage = Stage::Failed(PipelineError::Network);
        PipelineError::Network
    }
}

/// Order preservation: three segments that each decrypt, assembled in order,
/// give exactly the concatenation of their plaintexts in that order.
pub proof fn lemma_three_in_order(key: Seq<u8>, a: Seq<u8>, b: Seq<u8>, c: Seq<u8>)
    requires
        decrypt_spec(a, key) is Ok,
        decrypt_spec(b, key) is Ok,
        decrypt_spec(c, key) is Ok,
    ensures
        assembled(key, seq![a, b, c]) == Ok::<Seq<u8>, CryptoError>(
            decrypt_spec(a, key)->Ok_0 + decrypt_spec(b, key)->Ok_0 + decrypt_spec(c, key)->Ok_0,
        ),
{
    let s = seq![a, b, c];
    assert(s.drop_last() =~= seq![a, b]);
    assert(seq![a, b].drop_last() =~= seq![a]);
    assert(seq![a].drop_last() =~= Seq::<Seq<u8>>::empty());
    let (pa, pb, pc) = (decrypt_spec(a, key)->Ok_0, decrypt_spec(b, key)->Ok_0, decrypt_spec(c, key)->Ok_0);
    assert(Seq::<u8>::empty() + pa =~= pa);
    assert(assembled(key, Seq::<Seq<u8>>::empty()) == Ok::<Seq<u8>, CryptoError>(Seq::empty()));
    assert(assembled(key, seq![a]) == Ok::<Seq<u8>, CryptoError>(pa));
    assert(assembled(key, seq![a, b]) == Ok::<Seq<u8>, CryptoError>(pa + pb));
}

/// Order preservation, in general: assembling `first` followed by `second`
/// gives the output of `first` followed by the output of `second`, and fails
/// where either of them fails.
pub proof fn lemma_assembled_concat(key: Seq<u8>, first: Seq<Seq<u8>>, second: Seq<Seq<u8>>)
    requires
        assembled(key, first) is Ok,
        assembled(key, second) is Ok,
    ensures
        assembled(key, first + second) == Ok::<Seq<u8>, CryptoError>(
            assembled(key, first)->Ok_0 + assembled(key, second)->Ok_0,
        ),
    decreases second.len(),
{
    if second.len() == 0 {
        assert(first + second =~= first);
        assert(assembled(key, first)->Ok_0 + Seq::<u8>::empty() =~= assembled(key, first)->Ok_0);
    } else {
        let rest = second.drop_last();
        assert((first + second).drop_last() =~= first + rest);
        assert((first + second).last() == second.last());
        lemma_assembled_concat(key, first, rest);
        let p1 = assembled(key, first)->Ok_0;
        let p2 = assembled(key, rest)->Ok_0;
        let p3 = decrypt_spec(second.last(), key)->Ok_0;
        assert(p1 + p2 + p3 =~= p1 + (p2 + p3));
    }
}

} // verus!
