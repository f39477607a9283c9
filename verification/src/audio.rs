//! DMX-triggered audio playback: what a DMX value selects, how each voice
//! follows the selection, and the byte buffer that feeds the MP3 decoder.

use vstd::prelude::*;

use crate::stream::{event_generation, StreamEvent, SD_CHUNK_SIZE};

verus! {

/// How a selected file is played.
#[derive(Clone, Copy, PartialEq, Eq, Structural, Debug)]
pub enum PlaybackMode {
    Once,
    Loop,
    /// Played once on both outputs.
    Both,
}

/// The selection a DMX value stands for.
pub open spec fn decode_value_spec(v: u8, num_files: usize) -> Option<(usize, PlaybackMode)> {
    if v == 0 {
        None
    } else {
        let (idx, mode) = if v <= 85 {
            ((v - 1) as usize, PlaybackMode::Once)
        } else if v <= 170 {
            ((v - 86) as usize, PlaybackMode::Loop)
        } else {
            ((v - 171) as usize, PlaybackMode::Both)
        };
        if idx < num_files {
            Some((idx, mode))
        } else {
            None
        }
    }
}

/// Maps a DMX value to `(file_index, mode)`: `0` stops, `1..=85` plays
/// file `v - 1` once, `86..=170` loops file `v - 86`, `171..=255` plays file
/// `v - 171` on both outputs; an index past the end of the list stops.
pub fn decode_value(v: u8, num_files: usize) -> (r: Option<(usize, PlaybackMode)>)
    ensures
        r == decode_value_spec(v, num_files),
{
    if v == 0 {
        return None;
    }
    let (idx, mode) = if v <= 85 {
        ((v - 1) as usize, PlaybackMode::Once)
    } else if v <= 170 {
        ((v - 86) as usize, PlaybackMode::Loop)
    } else {
        ((v - 171) as usize, PlaybackMode::Both)
    };
    if idx < num_files {
        Some((idx, mode))
    } else {
        None
    }
}

/// What a voice is playing, as far as following the DMX value is concerned.
#[derive(Clone, Copy, PartialEq, Eq, Structural, Debug)]
pub struct VoiceSummary {
    pub file_index: usize,
    pub mode: PlaybackMode,
    /// The SD reader reported that the file could not be opened.
    pub open_failed: bool,
}

/// What happens to a voice when it is brought in line with the DMX value.
#[derive(Clone, Copy, PartialEq, Eq, Structural, Debug)]
pub enum VoiceAction {
    /// Drop the voice; `notify` tells the SD reader to stop streaming (there
    /// was a voice to stop).
    Silence { notify: bool },
    /// Leave the voice as it is.
    Keep,
    /// Start streaming a new selection.
    Start { file_index: usize, mode: PlaybackMode },
}

/// Whether `voice` is already the voice for selection `(idx, mode)` (playing,
/// finished, or waiting on a file that failed to open).
pub open spec fn plays_selection(voice: Option<VoiceSummary>, idx: usize, mode: PlaybackMode) -> bool {
    voice matches Some(v) && v.file_index == idx && v.mode == mode
}

/// The voice action for DMX value `dmx`.
pub open spec fn reconcile_action(
    voice: Option<VoiceSummary>,
    failed: Option<(usize, PlaybackMode)>,
    dmx: u8,
    num_files: usize,
) -> VoiceAction {
    match decode_value_spec(dmx, num_files) {
        None => VoiceAction::Silence { notify: voice is Some },
        Some((idx, mode)) => {
            if plays_selection(voice, idx, mode) || failed == Some((idx, mode)) {
                VoiceAction::Keep
            } else {
                VoiceAction::Start { file_index: idx, mode }
            }
        },
    }
}

/// The remembered failed selection after reconciling: cleared by a stop or
/// by a voice that plays the selection, set to the selection when its voice
/// reports that the file failed to open, otherwise unchanged.
pub open spec fn reconcile_failed(
    voice: Option<VoiceSummary>,
    failed: Option<(usize, PlaybackMode)>,
    dmx: u8,
    num_files: usize,
) -> Option<(usize, PlaybackMode)> {
    match decode_value_spec(dmx, num_files) {
        None => None,
        Some((idx, mode)) => {
            if plays_selection(voice, idx, mode) {
                if voice->0.open_failed {
                    Some((idx, mode))
                } else {
                    None
                }
            } else {
                failed
            }
        },
    }
}

/// Brings a voice in line with the current DMX value. The voice of the
/// selected file in the selected mode is kept: a finished one-shot stays
/// silent, and a voice whose file failed to open is not restarted; its
/// failure is remembered, and a remembered failed selection is not retried
/// until the value changes. Otherwise the new selection starts, or the voice
/// is dropped on `0` / an out-of-range selection. Returns the action and the
/// failed selection to remember.
pub fn reconcile(
    voice: Option<VoiceSummary>,
    failed_selection: Option<(usize, PlaybackMode)>,
    dmx: u8,
    num_files: usize,
) -> (r: (VoiceAction, Option<(usize, PlaybackMode)>))
    ensures
        r.0 == reconcile_action(voice, failed_selection, dmx, num_files),
        r.1 == reconcile_failed(voice, failed_selection, dmx, num_files),
{
    match decode_value(dmx, num_files) {
        None => (VoiceAction::Silence { notify: voice.is_some() }, None),
        Some((idx, mode)) => {
            let same = match voice {
                Some(v) => v.file_index == idx && v.mode == mode,
                None => false,
            };
            if same {
                // Keep the voice; once its open failure has come back,
                // remember it so the selection is not retried on every refill.
                let failed_open = match voice {
                    Some(v) => v.open_failed,
                    None => false,
                };
                if failed_open {
                    (VoiceAction::Keep, Some((idx, mode)))
                } else {
                    (VoiceAction::Keep, None)
                }
            } else {
                let same_failed = match failed_selection {
                    Some((f_idx, f_mode)) => f_idx == idx && f_mode == mode,
                    None => false,
                };
                if same_failed {
                    (VoiceAction::Keep, failed_selection)
                } else {
                    (VoiceAction::Start { file_index: idx, mode }, failed_selection)
                }
            }
        },
    }
}

/// Minimum time between two underrun reports, in milliseconds.
pub const UNDERRUN_REPORT_INTERVAL_MS: u64 = 2000;

/// Whether the output-underrun count is reported now: only when it moved
/// since the last report, and at most once per reporting interval, so a
/// clean run is silent and a bad one does not flood the log.
pub fn underrun_report_due(underruns: u32, reported: u32, elapsed_ms: u64) -> (due: bool)
    ensures
        due == (underruns != reported && elapsed_ms >= UNDERRUN_REPORT_INTERVAL_MS),
{
    underruns != reported && elapsed_ms >= UNDERRUN_REPORT_INTERVAL_MS
}

/// Packs one stereo frame for the I2S output: left sample in the high half,
/// right sample in the low half, each as its 16-bit two's complement.
pub fn pack_stereo(left: i16, right: i16) -> (w: u32)
    ensures
        w == (left as u16) as int * 0x10000 + (right as u16) as int,
{
    let l = left as u16 as u32;
    let r = right as u16 as u32;
    assert((l << 16) | r == l * 0x10000 + r) by (bit_vector)
        requires
            l < 0x10000,
            r < 0x10000,
    ;
    (l << 16) | r
}

} // verus!

verus! {

/// Size of a voice's reassembly buffer: room for one full incoming chunk
/// past the point where decoding gives up and asks for more.
pub const VOICE_MP3_BUF_SIZE: usize = 4096;

/// MP3 bytes received from the SD reader and not yet consumed by the decoder.
pub struct Mp3Buffer {
    data: [u8; VOICE_MP3_BUF_SIZE],
    len: usize,
}

/// Whether an MPEG frame sync candidate (`0xFF` then `0xE_`/`0xF_`) starts at `s`.
pub open spec fn is_sync_at(b: Seq<u8>, s: int) -> bool {
    b[s] == 0xff && b[s + 1] >= 0xe0
}

/// Where a resync lands when searching from `s`: the first sync candidate
/// at or after `s` that has a byte after it, or the last position searched.
pub open spec fn sync_search(b: Seq<u8>, s: int) -> int
    decreases b.len() - s,
{
    if s < 0 || s + 1 >= b.len() || is_sync_at(b, s) {
        s
    } else {
        sync_search(b, s + 1)
    }
}

/// A resync search from `s` lands at or after `s`, and on the last
/// byte at the latest whenever it starts before the last byte.
pub proof fn lemma_sync_search_bounds(b: Seq<u8>, s: int)
    requires
        0 <= s,
    ensures
        s <= sync_search(b, s),
        sync_search(b, s) <= if s < b.len() - 1 {
            b.len() - 1
        } else {
            s
        },
    decreases b.len() - s,
{
    if !(s + 1 >= b.len() || is_sync_at(b, s)) {
        lemma_sync_search_bounds(b, s + 1);
    }
}

impl View for Mp3Buffer {
    type V = Seq<u8>;

    closed spec fn view(&self) -> Seq<u8> {
        self.data@.subrange(0, self.len as int)
    }
}

impl Mp3Buffer {
    #[verifier::type_invariant]
    spec fn len_fits(&self) -> bool {
        self.len <= VOICE_MP3_BUF_SIZE
    }

    pub fn new() -> (b: Mp3Buffer)
        ensures
            b@ == Seq::<u8>::empty(),
    {
        let b = Mp3Buffer { data: [0u8; VOICE_MP3_BUF_SIZE], len: 0 };
        assert(b@ =~= Seq::<u8>::empty());
        b
    }

    /// Number of buffered bytes; never more than `VOICE_MP3_BUF_SIZE`.
    pub fn len(&self) -> (n: usize)
        ensures
            n == self@.len(),
            n <= VOICE_MP3_BUF_SIZE,
    {
        proof {
            use_type_invariant(self);
        }
        self.len
    }

    /// The buffered bytes, oldest first.
    pub fn contents(&self) -> (s: &[u8])
        ensures
            s@ == self@,
    {
        proof {
            use_type_invariant(self);
        }
        &self.data.as_slice()[0..self.len]
    }

    /// Appends a chunk from the SD reader.
    pub fn append(&mut self, chunk: &[u8])
        requires
            old(self)@.len() + chunk@.len() <= VOICE_MP3_BUF_SIZE,
        ensures
            final(self)@ == old(self)@ + chunk@,
    {
        proof {
            use_type_invariant(&*self);
        }
        let start = self.len;
        let mut data = self.data;
        let mut i: usize = 0;
        while i < chunk.len()
            invariant
                start + chunk@.len() <= VOICE_MP3_BUF_SIZE,
                i <= chunk@.len(),
                chunk@.len() == chunk.len(),
                forall|j: int| 0 <= j < start ==> data@[j] == old(self).data@[j],
                forall|j: int| 0 <= j < i ==> data@[start + j] == chunk@[j],
            decreases chunk.len() - i,
        {
            data[start + i] = chunk[i];
            i = i + 1;
        }
        self.data = data;
        self.len = start + chunk.len();
        assert(self@ =~= old(self)@ + chunk@);
    }

    /// Drops the first `n` bytes (the decoder consumed them), moving the rest
    /// to the front.
    pub fn consume(&mut self, n: usize)
        requires
            n <= old(self)@.len(),
        ensures
            final(self)@ == old(self)@.skip(n as int),
    {
        proof {
            use_type_invariant(&*self);
        }
        let len = self.len;
        let mut data = self.data;
        let mut i: usize = 0;
        while i < len - n
            invariant
                n <= len <= VOICE_MP3_BUF_SIZE,
                i <= len - n,
                forall|j: int| 0 <= j < i ==> data@[j] == old(self).data@[n + j],
                forall|j: int| i <= j < VOICE_MP3_BUF_SIZE ==> data@[j] == old(self).data@[j],
            decreases len - n - i,
        {
            data[i] = data[n + i];
            i = i + 1;
        }
        self.data = data;
        self.len = len - n;
        assert(self@ =~= old(self)@.skip(n as int));
    }

    /// How many bytes to drop to reach the next frame sync candidate, when
    /// the frame at the front cannot be decoded: searching starts one byte
    /// in, so at least one byte is always dropped.
    pub fn sync_skip(&self) -> (skip: usize)
        requires
            self@.len() > 0,
        ensures
            skip == sync_search(self@, 1),
            1 <= skip <= self@.len(),
    {
        proof {
            use_type_invariant(self);
            lemma_sync_search_bounds(self@, 1);
        }
        let len = self.len;
        let mut skip: usize = 1;
        while skip + 1 < len
            invariant
                1 <= skip <= len,
                len == self@.len(),
                len <= VOICE_MP3_BUF_SIZE,
                self@ == self.data@.subrange(0, len as int),
                sync_search(self@, skip as int) == sync_search(self@, 1),
            decreases len - skip,
        {
            let next = self.data[skip + 1];
            assert((next & 0xe0u8 == 0xe0u8) == (next >= 0xe0)) by (bit_vector);
            if self.data[skip] == 0xff && (next & 0xe0) == 0xe0 {
                assert(is_sync_at(self@, skip as int));
                return skip;
            }
            skip = skip + 1;
        }
        skip
    }
}

/// Stream state of one voice: the selection its events must carry, what has
/// been received, and how the stream ended.
pub struct VoiceStream {
    pub generation: u32,
    pub chunks_received: u32,
    pub buf: Mp3Buffer,
    /// The SD reader reported the real end of the file (or an open failure).
    pub eof_seen: bool,
    pub open_failed: bool,
}

/// What the decoder does when the frame at the front of the buffer cannot
/// be decoded yet.
#[derive(Clone, Copy, PartialEq, Eq, Structural, Debug)]
pub enum StallAction {
    /// Wait for the next event from the SD reader.
    PullMore,
    /// No more data can help: drop this many bytes to the next sync candidate.
    Skip(usize),
}

impl VoiceStream {
    /// A fresh stream for selection `generation`.
    pub fn new(generation: u32) -> (s: VoiceStream)
        ensures
            s.generation == generation,
            s.chunks_received == 0,
            s.buf@ == Seq::<u8>::empty(),
            !s.eof_seen,
            !s.open_failed,
    {
        VoiceStream { generation, chunks_received: 0, buf: Mp3Buffer::new(), eof_seen: false, open_failed: false }
    }

    /// Applies an event from the SD reader. Events of another selection are
    /// stale and change nothing (`false`); data is appended to the buffer,
    /// an end of file is recorded, and an open failure also counts as the end.
    pub fn apply_event(&mut self, event: &StreamEvent) -> (taken: bool)
        requires
            old(self).buf@.len() + SD_CHUNK_SIZE <= VOICE_MP3_BUF_SIZE,
            event matches StreamEvent::Data { len, .. } ==> len <= SD_CHUNK_SIZE,
        ensures
            taken == (event_generation(*event) == old(self).generation),
            final(self).generation == old(self).generation,
            !taken ==> final(self).buf@ == old(self).buf@ && final(self).eof_seen == old(self).eof_seen
                && final(self).open_failed == old(self).open_failed && final(self).chunks_received
                == old(self).chunks_received,
            taken ==> match *event {
                StreamEvent::Data { len, buf, .. } => {
                    &&& final(self).buf@ == old(self).buf@ + buf@.subrange(0, len as int)
                    &&& final(self).chunks_received == old(self).chunks_received.wrapping_add(1)
                    &&& final(self).eof_seen == old(self).eof_seen
                    &&& final(self).open_failed == old(self).open_failed
                },
                StreamEvent::Eof { .. } => {
                    &&& final(self).buf@ == old(self).buf@
                    &&& final(self).chunks_received == old(self).chunks_received
                    &&& final(self).eof_seen
                    &&& final(self).open_failed == old(self).open_failed
                },
                StreamEvent::OpenFailed { .. } => {
                    &&& final(self).buf@ == old(self).buf@
                    &&& final(self).chunks_received == old(self).chunks_received
                    &&& final(self).eof_seen
                    &&& final(self).open_failed
                },
            },
    {
        match event {
            StreamEvent::Data { generation, len, buf } => {
                if *generation != self.generation {
                    return false;
                }
                self.chunks_received = self.chunks_received.wrapping_add(1);
                let n = *len as usize;
                self.buf.append(&buf.as_slice()[0..n]);
                true
            },
            StreamEvent::Eof { generation } => {
                if *generation != self.generation {
                    return false;
                }
                self.eof_seen = true;
                true
            },
            StreamEvent::OpenFailed { generation } => {
                if *generation != self.generation {
                    return false;
                }
                self.open_failed = true;
                self.eof_seen = true;
                true
            },
        }
    }

    /// The decoder found no complete frame at the front of a non-empty
    /// buffer: if the file has ended, or another chunk would not fit, skip to
    /// the next sync candidate; otherwise wait for more data.
    pub fn on_stall(&self) -> (a: StallAction)
        requires
            self.buf@.len() > 0,
        ensures
            a == if self.eof_seen || self.buf@.len() + SD_CHUNK_SIZE > VOICE_MP3_BUF_SIZE {
                StallAction::Skip(sync_search(self.buf@, 1) as usize)
            } else {
                StallAction::PullMore
            },
    {
        let len = self.buf.len();
        if self.eof_seen || len + SD_CHUNK_SIZE > VOICE_MP3_BUF_SIZE {
            StallAction::Skip(self.buf.sync_skip())
        } else {
            StallAction::PullMore
        }
    }
}

} // verus!

verus! {

/// Every listed file among the first 85 can be selected in each mode: value
/// `i + 1` plays it once, `i + 86` loops it, `i + 171` plays it on both outputs.
pub proof fn lemma_every_file_selectable(idx: int, num_files: usize)
    requires
        0 <= idx < 85,
        idx < num_files,
    ensures
        decode_value_spec((idx + 1) as u8, num_files) == Some((idx as usize, PlaybackMode::Once)),
        decode_value_spec((idx + 86) as u8, num_files) == Some((idx as usize, PlaybackMode::Loop)),
        decode_value_spec((idx + 171) as u8, num_files) == Some((idx as usize, PlaybackMode::Both)),
{
}

/// A voice already playing the selected file in the selected mode is kept,
/// not restarted (a finished one-shot stays silent), and the remembered
/// failure is cleared.
pub proof fn lemma_matching_voice_kept(v: VoiceSummary, failed: Option<(usize, PlaybackMode)>, dmx: u8, num_files: usize)
    requires
        !v.open_failed,
        decode_value_spec(dmx, num_files) == Some((v.file_index, v.mode)),
    ensures
        reconcile_action(Some(v), failed, dmx, num_files) == VoiceAction::Keep,
        reconcile_failed(Some(v), failed, dmx, num_files) is None,
{
}

/// A voice whose file failed to open is kept silent, not restarted, and its
/// selection is remembered as failed; reconciling again with the same DMX
/// value, with or without a newly started voice in between, still starts
/// nothing.
pub proof fn lemma_failed_open_not_retried(v: VoiceSummary, failed: Option<(usize, PlaybackMode)>, dmx: u8, num_files: usize)
    requires
        v.open_failed,
        decode_value_spec(dmx, num_files) == Some((v.file_index, v.mode)),
    ensures
        reconcile_action(Some(v), failed, dmx, num_files) == VoiceAction::Keep,
        reconcile_failed(Some(v), failed, dmx, num_files) == Some((v.file_index, v.mode)),
        forall|voice: Option<VoiceSummary>|
            !(#[trigger] reconcile_action(voice, reconcile_failed(Some(v), failed, dmx, num_files), dmx, num_files) is Start),
{
}

/// A selection whose file failed to open is not started again while the DMX
/// value keeps selecting it.
pub proof fn lemma_failed_selection_not_retried(
    voice: Option<VoiceSummary>,
    sel: (usize, PlaybackMode),
    dmx: u8,
    num_files: usize,
)
    requires
        decode_value_spec(dmx, num_files) == Some(sel),
    ensures
        !(reconcile_action(voice, Some(sel), dmx, num_files) is Start),
{
}

/// Value 0, or a selection past the end of the list, silences the voice,
/// telling the SD reader to stop when a voice was playing, and forgets any
/// failure.
pub proof fn lemma_stop_silences(voice: Option<VoiceSummary>, failed: Option<(usize, PlaybackMode)>, dmx: u8, num_files: usize)
    requires
        decode_value_spec(dmx, num_files) is None,
    ensures
        reconcile_action(voice, failed, dmx, num_files) == (VoiceAction::Silence { notify: voice is Some }),
        reconcile_failed(voice, failed, dmx, num_files) is None,
{
}

} // verus!
