//! The SD-card side of audio streaming: the events sent to the decoder,
//! locating the audio data behind an ID3v2 tag, and what a file read leads
//! to.

use vstd::prelude::*;

verus! {

/// Raw bytes moved per SD read; the SD card's native block size.
pub const SD_CHUNK_SIZE: usize = 512;

/// One update from the SD reader back to the decoder. `generation`
/// identifies the selection the event belongs to.
pub enum StreamEvent {
    Data { generation: u32, len: u16, buf: [u8; SD_CHUNK_SIZE] },
    /// Non-looping playback ran off the end of the file.
    Eof { generation: u32 },
    /// The file named in the selection could not be opened.
    OpenFailed { generation: u32 },
}

/// The selection an event belongs to.
pub open spec fn event_generation(e: StreamEvent) -> u32 {
    match e {
        StreamEvent::Data { generation, .. } => generation,
        StreamEvent::Eof { generation } => generation,
        StreamEvent::OpenFailed { generation } => generation,
    }
}

/// Whether the first `read` bytes of `h` are a complete ID3v2 header: the
/// `"ID3"` magic and four syncsafe size bytes (top bit clear).
pub open spec fn is_id3v2_header(h: Seq<u8>, read: int) -> bool {
    &&& read == 10
    &&& h[0] == 0x49 && h[1] == 0x44 && h[2] == 0x33
    &&& h[6] < 0x80 && h[7] < 0x80 && h[8] < 0x80 && h[9] < 0x80
}

/// Byte offset of the audio data: past the tag header, the tag and its
/// optional footer; 0 when there is no recognisable tag.
pub open spec fn id3v2_data_start_spec(h: Seq<u8>, read: int) -> int {
    if !is_id3v2_header(h, read) {
        0
    } else {
        let size = h[6] * 0x200000 + h[7] * 0x4000 + h[8] * 0x80 + h[9];
        let footer = if (h[5] / 0x10) % 2 == 1 {
            10int
        } else {
            0int
        };
        10 + size + footer
    }
}

/// Given the first bytes of an MP3 (`read` of them were actually read),
/// returns the offset where the audio starts, skipping an ID3v2 tag (and
/// its footer) when there is one.
pub fn id3v2_data_start(header: &[u8; 10], read: usize) -> (start: u32)
    ensures
        start == id3v2_data_start_spec(header@, read as int),
{
    let is_id3 = read == 10 && header[0] == 0x49 && header[1] == 0x44 && header[2] == 0x33
        && header[6] < 0x80 && header[7] < 0x80 && header[8] < 0x80 && header[9] < 0x80;
    if !is_id3 {
        return 0;
    }
    let h6 = header[6] as u32;
    let h7 = header[7] as u32;
    let h8 = header[8] as u32;
    let h9 = header[9] as u32;
    let size = (h6 << 21) | (h7 << 14) | (h8 << 7) | h9;
    assert(size == h6 * 0x200000 + h7 * 0x4000 + h8 * 0x80 + h9) by (bit_vector)
        requires
            h6 < 0x80,
            h7 < 0x80,
            h8 < 0x80,
            h9 < 0x80,
            size == (h6 << 21) | (h7 << 14) | (h8 << 7) | h9,
    ;
    let flags = header[5];
    let has_footer = flags & 0x10 != 0;
    assert(has_footer == ((flags / 0x10) % 2 == 1)) by (bit_vector)
        requires
            has_footer == (flags & 0x10u8 != 0),
    ;
    let mut total = 10 + size;
    if has_footer {
        total = total + 10;
    }
    total
}

/// What the SD reader does after a read of the current file.
#[derive(Clone, Copy, PartialEq, Eq, Debug)]
pub enum ReadStep {
    /// Looping playback hit the end: seek back to the audio start.
    Rewind,
    /// Playback is over (end of a one-shot file, or a read error).
    Finish,
    /// Send the `usize` bytes that were read.
    Send(usize),
}

/// The reader's decision after a read: `Some(n)` bytes read, `None` a read
/// error. A looping file rewinds at its end; a one-shot ends there; a read
/// error ends playback either way.
pub fn after_read(read: Option<usize>, loop_playback: bool) -> (s: ReadStep)
    ensures
        s == match read {
            Some(0) => if loop_playback {
                ReadStep::Rewind
            } else {
                ReadStep::Finish
            },
            Some(n) => ReadStep::Send(n),
            None => ReadStep::Finish,
        },
{
    match read {
        Some(0) => if loop_playback {
            ReadStep::Rewind
        } else {
            ReadStep::Finish
        },
        Some(n) => ReadStep::Send(n),
        None => ReadStep::Finish,
    }
}

} // verus!

verus! {

/// The SD card's file-system clock: the board has no real-time clock, so
/// every file time stamp is the same fixed date.
pub struct DummyClock;

impl DummyClock {
    /// The fixed date and time stamped on files: 2026-01-01 00:00:00, as
    /// (year, month, day, hours, minutes, seconds).
    pub fn calendar(&self) -> (t: (u16, u8, u8, u8, u8, u8))
        ensures
            t == (2026u16, 1u8, 1u8, 0u8, 0u8, 0u8),
    {
        (2026, 1, 1, 0, 0, 0)
    }
}

} // verus!

verus! {

/// A character code with ASCII upper-case letters folded to lower case.
pub open spec fn ascii_fold(c: char) -> int {
    if 65 <= (c as u32) <= 90 {
        (c as u32) + 32
    } else {
        c as u32 as int
    }
}

fn fold(c: char) -> (u: u32)
    ensures
        u == ascii_fold(c),
{
    let u = c as u32;
    if 65 <= u && u <= 90 {
        u + 32
    } else {
        u
    }
}

/// Whether a directory entry's long name is the requested file name,
/// ignoring ASCII case (other characters must match exactly).
pub fn file_name_matches(candidate: &str, name: &str) -> (b: bool)
    ensures
        b == (candidate@.len() == name@.len() && forall|i: int|
            0 <= i < name@.len() ==> ascii_fold(#[trigger] candidate@[i]) == ascii_fold(name@[i])),
{
    let a = crate::text::str_to_chars(candidate);
    let b = crate::text::str_to_chars(name);
    if a.len() != b.len() {
        return false;
    }
    let mut i: usize = 0;
    while i < a.len()
        invariant
            a@ == candidate@,
            b@ == name@,
            a.len() == b.len(),
            i <= a.len(),
            forall|j: int| 0 <= j < i ==> ascii_fold(#[trigger] candidate@[j]) == ascii_fold(name@[j]),
        decreases a.len() - i,
    {
        if fold(a[i]) != fold(b[i]) {
            return false;
        }
        i = i + 1;
    }
    true
}

} // verus!
