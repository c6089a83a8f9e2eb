//! Upstream stream descriptions and the per-attempt stream index map.
//!
//! After a successful describe step the camera reports a list of streams;
//! the relay selects the first stream carrying H.264 video and the first
//! carrying PCMA audio.  If either is absent the whole attempt counts as a
//! connection failure.  The resulting `StreamIndexMap` is immutable for the
//! attempt and is resolved afresh on every reconnect, since indices may
//! change across reconnects.

use vstd::prelude::*;

verus! {

/// What the upstream describe step reports about one stream: its media type
/// (`"video"`, `"audio"`, ...) and its encoding name (`"h264"`, `"pcma"`, ...).
#[derive(Clone, Debug)]
pub struct StreamDesc {
    pub media: String,
    pub encoding: String,
}

/// Which upstream stream index carries H.264 video and which carries PCMA
/// audio, for one connection attempt.
#[derive(Clone, Copy, PartialEq, Eq, Structural, Debug)]
pub struct StreamIndexMap {
    pub video: usize,
    pub audio: usize,
}

/// The stream the relay forwards as video: media type "video", encoding "h264".
pub open spec fn spec_is_h264_video(d: StreamDesc) -> bool {
    d.media@ == "video"@ && d.encoding@ == "h264"@
}

/// The stream the relay forwards as audio: media type "audio", encoding "pcma".
pub open spec fn spec_is_pcma_audio(d: StreamDesc) -> bool {
    d.media@ == "audio"@ && d.encoding@ == "pcma"@
}

/// The position of the first stream from `i` on that satisfies `p`.
pub open spec fn first_match_from(
    s: Seq<StreamDesc>,
    i: int,
    p: spec_fn(StreamDesc) -> bool,
) -> Option<int>
    decreases s.len() - i,
    when 0 <= i <= s.len()
{
    if i >= s.len() {
        None
    } else if p(s[i]) {
        Some(i)
    } else {
        first_match_from(s, i + 1, p)
    }
}

pub open spec fn video_pred() -> spec_fn(StreamDesc) -> bool {
    |d: StreamDesc| spec_is_h264_video(d)
}

pub open spec fn audio_pred() -> spec_fn(StreamDesc) -> bool {
    |d: StreamDesc| spec_is_pcma_audio(d)
}

/// The index of the first H.264 video stream, if any.
pub open spec fn spec_first_video(s: Seq<StreamDesc>) -> Option<int> {
    first_match_from(s, 0, video_pred())
}

/// The index of the first PCMA audio stream, if any.
pub open spec fn spec_first_audio(s: Seq<StreamDesc>) -> Option<int> {
    first_match_from(s, 0, audio_pred())
}

/// The stream index map resolved from a stream list, present exactly when
/// both a video and an audio stream were found.
pub open spec fn spec_resolve(s: Seq<StreamDesc>) -> Option<StreamIndexMap> {
    if spec_first_video(s) is Some && spec_first_audio(s) is Some {
        Some(
            StreamIndexMap {
                video: spec_first_video(s)->Some_0 as usize,
                audio: spec_first_audio(s)->Some_0 as usize,
            },
        )
    } else {
        None
    }
}

/// `first_match_from` really is the least matching index at or after `i`,
/// and is `None` exactly when nothing at or after `i` matches.
pub proof fn lemma_first_match_from(s: Seq<StreamDesc>, i: int, p: spec_fn(StreamDesc) -> bool)
    requires
        0 <= i <= s.len(),
    ensures
        match first_match_from(s, i, p) {
            Some(k) => i <= k < s.len() && p(s[k]) && forall|j: int| i <= j < k ==> !p(s[j]),
            None => forall|j: int| i <= j < s.len() ==> !p(s[j]),
        },
    decreases s.len() - i,
{
    if i < s.len() && !p(s[i]) {
        lemma_first_match_from(s, i + 1, p);
    }
}

/// Whether this stream is the H.264 video stream the relay forwards.
pub fn is_h264_video(d: &StreamDesc) -> (r: bool)
    ensures
        r == spec_is_h264_video(*d),
{
    string_is(&d.media, "video") && string_is(&d.encoding, "h264")
}

/// Whether this stream is the PCMA audio stream the relay forwards.
pub fn is_pcma_audio(d: &StreamDesc) -> (r: bool)
    ensures
        r == spec_is_pcma_audio(*d),
{
    string_is(&d.media, "audio") && string_is(&d.encoding, "pcma")
}

/// Compare a string against a literal by contents.
fn string_is(s: &String, lit: &str) -> (r: bool)
    ensures
        r == (s@ == lit@),
{
    let owned: String = lit.to_owned();
    *s == owned
}

fn find_first_video(streams: &Vec<StreamDesc>) -> (r: Option<usize>)
    ensures
        match r {
            Some(k) => spec_first_video(streams@) == Some(k as int),
            None => spec_first_video(streams@) is None,
        },
{
    let n = streams.len();
    let mut i: usize = 0;
    while i < n
        invariant
            0 <= i <= n,
            n == streams@.len(),
            spec_first_video(streams@) == first_match_from(streams@, i as int, video_pred()),
        decreases n - i,
    {
        if is_h264_video(&streams[i]) {
            assert(first_match_from(streams@, i as int, video_pred()) == Some(i as int));
            return Some(i);
        }
        assert(first_match_from(streams@, i as int, video_pred()) == first_match_from(
            streams@,
            i as int + 1,
            video_pred(),
        ));
        i = i + 1;
    }
    None
}

fn find_first_audio(streams: &Vec<StreamDesc>) -> (r: Option<usize>)
    ensures
        match r {
            Some(k) => spec_first_audio(streams@) == Some(k as int),
            None => spec_first_audio(streams@) is None,
        },
{
    let n = streams.len();
    let mut i: usize = 0;
    while i < n
        invariant
            0 <= i <= n,
            n == streams@.len(),
            spec_first_audio(streams@) == first_match_from(streams@, i as int, audio_pred()),
        decreases n - i,
    {
        if is_pcma_audio(&streams[i]) {
            assert(first_match_from(streams@, i as int, audio_pred()) == Some(i as int));
            return Some(i);
        }
        assert(first_match_from(streams@, i as int, audio_pred()) == first_match_from(
            streams@,
            i as int + 1,
            audio_pred(),
        ));
        i = i + 1;
    }
    None
}

/// Select the first H.264 video stream and the first PCMA audio stream from
/// the camera's stream list.  `None` — either required stream absent —
/// counts as a connection failure for the attempt.
pub fn resolve_streams(streams: &Vec<StreamDesc>) -> (r: Option<StreamIndexMap>)
    ensures
        r == spec_resolve(streams@),
{
    let video = find_first_video(streams);
    let audio = find_first_audio(streams);
    match (video, audio) {
        (Some(v), Some(a)) => Some(StreamIndexMap { video: v, audio: a }),
        _ => None,
    }
}

/// A resolved map never points video and audio at the same upstream stream:
/// the selected video stream has media type "video" and the selected audio
/// stream media type "audio".
pub proof fn lemma_resolved_distinct(s: Seq<StreamDesc>, m: StreamIndexMap)
    requires
        s.len() <= usize::MAX,
        spec_resolve(s) == Some(m),
    ensures
        m.video != m.audio,
{
    lemma_first_match_from(s, 0, video_pred());
    lemma_first_match_from(s, 0, audio_pred());
    let v = spec_first_video(s)->Some_0;
    let a = spec_first_audio(s)->Some_0;
    assert(spec_is_h264_video(s[v]));
    assert(spec_is_pcma_audio(s[a]));
    assert(m.video == v && m.audio == a);
    if v == a {
        reveal_strlit("video");
        reveal_strlit("audio");
        assert(s[v].media@[0] == 'v');
        assert(s[a].media@[0] == 'a');
    }
}

} // verus!
