//! sACN (ANSI E1.31) reception: packet validation and the per-universe
//! priority, sequence and termination handling that decides what reaches
//! the DMX store.

use vstd::prelude::*;

use crate::bytes::{be16, be32, bytes_match_at, read_u16_be, read_u32_be};
use crate::dmx::{clear_row, replace_row, DmxMatrix};
use crate::{DMX_CHANNELS, MAX_UNIVERSES};

verus! {

/// UDP port sACN is received on.
pub const SACN_PORT: u16 = 5568;

// E1.31 packet offsets.
pub const ROOT_VECTOR_OFFSET: usize = 18;
pub const FRAME_VECTOR_OFFSET: usize = 40;
pub const PRIORITY_OFFSET: usize = 108;
pub const SEQUENCE_OFFSET: usize = 111;
pub const OPTIONS_OFFSET: usize = 112;
pub const UNIVERSE_OFFSET: usize = 113;
pub const DMP_VECTOR_OFFSET: usize = 117;
pub const DMP_TYPE_OFFSET: usize = 118;
pub const FIRST_ADDRESS_OFFSET: usize = 119;
pub const ADDRESS_INCREMENT_OFFSET: usize = 121;
pub const PROPERTY_COUNT_OFFSET: usize = 123;
pub const START_CODE_OFFSET: usize = 125;
pub const DMX_DATA_OFFSET: usize = 126;

// E1.31 vectors.
pub const VECTOR_ROOT_E131_DATA: u32 = 0x0000_0004;
pub const VECTOR_E131_DATA_PACKET: u32 = 0x0000_0002;
pub const VECTOR_DMP_SET_PROPERTY: u8 = 0x02;
pub const DMP_ADDRESS_DATA_TYPE: u8 = 0xa1;

// E1.31 option flags.
pub const OPTION_PREVIEW_DATA: u8 = 0x80;
pub const OPTION_STREAM_TERMINATED: u8 = 0x40;

/// The ACN packet identifier, `"ASC-E1.17\0\0\0"`.
pub open spec fn acn_packet_identifier_spec() -> Seq<u8> {
    seq![0x41u8, 0x53, 0x43, 0x2d, 0x45, 0x31, 0x2e, 0x31, 0x37, 0x00, 0x00, 0x00]
}

fn acn_packet_identifier() -> (r: [u8; 12])
    ensures
        r@ == acn_packet_identifier_spec(),
{
    let r: [u8; 12] = [0x41, 0x53, 0x43, 0x2d, 0x45, 0x31, 0x2e, 0x31, 0x37, 0x00, 0x00, 0x00];
    assert(r@ =~= acn_packet_identifier_spec());
    r
}

/// The multicast group of an sACN universe: `239.255.hi.lo`.
pub open spec fn multicast_address_spec(universe: int) -> [u8; 4] {
    [239u8, 255u8, ((universe / 256) % 256) as u8, (universe % 256) as u8]
}

/// The IPv4 multicast group an sACN universe is sent to, as four octets.
pub fn sacn_multicast_address(universe: usize) -> (a: [u8; 4])
    ensures
        a == multicast_address_spec(universe as int),
{
    [239, 255, ((universe / 256) % 256) as u8, (universe % 256) as u8]
}

/// Distinct 16-bit universes join distinct multicast groups: the last two
/// octets spell the universe number.
pub proof fn lemma_multicast_address_spells_universe(universe: int)
    requires
        0 <= universe < 0x10000,
    ensures
        multicast_address_spec(universe)[2] * 256 + multicast_address_spec(universe)[3] == universe,
{
}

/// The number of DMX slots of a valid packet that are taken: what the packet
/// holds, what it advertises, and at most 512.
pub open spec fn sacn_dmx_len(p: Seq<u8>) -> int {
    let available = p.len() - DMX_DATA_OFFSET;
    let advertised = be16(p, PROPERTY_COUNT_OFFSET as int) - 1;
    let m = if available < advertised {
        available
    } else {
        advertised
    };
    if m < 512 {
        m
    } else {
        512
    }
}

/// Whether `p` is an E1.31 data packet for a valid universe (1..=63999)
/// carrying at least one slot of standard DMX data.
pub open spec fn sacn_accepts(p: Seq<u8>) -> bool {
    &&& p.len() >= DMX_DATA_OFFSET
    &&& p[0] == 0x00 && p[1] == 0x10
    &&& p[2] == 0x00 && p[3] == 0x00
    &&& p.subrange(4, 16) == acn_packet_identifier_spec()
    &&& be32(p, ROOT_VECTOR_OFFSET as int) == VECTOR_ROOT_E131_DATA
    &&& be32(p, FRAME_VECTOR_OFFSET as int) == VECTOR_E131_DATA_PACKET
    &&& p[DMP_VECTOR_OFFSET as int] == VECTOR_DMP_SET_PROPERTY
    &&& p[DMP_TYPE_OFFSET as int] == DMP_ADDRESS_DATA_TYPE
    &&& p[FIRST_ADDRESS_OFFSET as int] == 0 && p[FIRST_ADDRESS_OFFSET + 1] == 0
    &&& p[ADDRESS_INCREMENT_OFFSET as int] == 0 && p[ADDRESS_INCREMENT_OFFSET + 1] == 1
    &&& 1 <= be16(p, UNIVERSE_OFFSET as int) <= 63_999
    &&& 2 <= be16(p, PROPERTY_COUNT_OFFSET as int) <= 513
    &&& p[START_CODE_OFFSET as int] == 0
    &&& sacn_dmx_len(p) > 0
}

/// The fields of an accepted sACN data packet.
pub struct SacnPacket<'a> {
    pub universe: usize,
    pub sequence: u8,
    pub priority: u8,
    pub preview: bool,
    pub terminated: bool,
    pub dmx: &'a [u8],
}

/// Whether `pk` holds the fields of the accepted packet `p`.
pub open spec fn sacn_fields(p: Seq<u8>, pk: SacnPacket) -> bool {
    &&& pk.universe == be16(p, UNIVERSE_OFFSET as int)
    &&& pk.sequence == p[SEQUENCE_OFFSET as int]
    &&& pk.priority == p[PRIORITY_OFFSET as int]
    &&& pk.preview == (p[OPTIONS_OFFSET as int] >= 0x80)
    &&& pk.terminated == ((p[OPTIONS_OFFSET as int] / 0x40) % 2 == 1)
    &&& pk.dmx@ == p.subrange(DMX_DATA_OFFSET as int, DMX_DATA_OFFSET + sacn_dmx_len(p))
}

/// Validates an E1.31 data packet and extracts its fields; `None` for
/// anything that is not a standard-DMX data packet for universe 1..=63999.
/// Senders that advertise more slots than they send get only the slots that
/// are present.
pub fn parse_sacn_packet(packet: &[u8]) -> (r: Option<SacnPacket<'_>>)
    ensures
        r is Some <==> sacn_accepts(packet@),
        r matches Some(pk) ==> sacn_fields(packet@, pk),
{
    let ghost p = packet@;
    if packet.len() < DMX_DATA_OFFSET {
        return None;
    }
    // ACN preamble size.
    if packet[0] != 0x00 || packet[1] != 0x10 {
        return None;
    }
    // ACN post-amble size.
    if packet[2] != 0x00 || packet[3] != 0x00 {
        return None;
    }
    let id = acn_packet_identifier();
    if !bytes_match_at(packet, 4, &id) {
        return None;
    }
    if read_u32_be(packet, ROOT_VECTOR_OFFSET) != VECTOR_ROOT_E131_DATA {
        return None;
    }
    if read_u32_be(packet, FRAME_VECTOR_OFFSET) != VECTOR_E131_DATA_PACKET {
        return None;
    }
    if packet[DMP_VECTOR_OFFSET] != VECTOR_DMP_SET_PROPERTY {
        return None;
    }
    if packet[DMP_TYPE_OFFSET] != DMP_ADDRESS_DATA_TYPE {
        return None;
    }
    // First property address must be zero.
    if packet[FIRST_ADDRESS_OFFSET] != 0x00 || packet[FIRST_ADDRESS_OFFSET + 1] != 0x00 {
        return None;
    }
    // Address increment must be one.
    if packet[ADDRESS_INCREMENT_OFFSET] != 0x00 || packet[ADDRESS_INCREMENT_OFFSET + 1] != 0x01 {
        return None;
    }
    let universe = read_u16_be(packet, UNIVERSE_OFFSET) as usize;
    // Valid sACN universes are 1 through 63999.
    if universe == 0 || universe > 63_999 {
        return None;
    }
    let property_count = read_u16_be(packet, PROPERTY_COUNT_OFFSET) as usize;
    // Property count includes the start code.
    if property_count < 2 || property_count > 513 {
        return None;
    }
    // Only the standard DMX start code is handled.
    if packet[START_CODE_OFFSET] != 0 {
        return None;
    }
    let available_dmx_len = packet.len() - DMX_DATA_OFFSET;
    let advertised_dmx_len = property_count - 1;
    let m = if available_dmx_len < advertised_dmx_len {
        available_dmx_len
    } else {
        advertised_dmx_len
    };
    let dmx_len = if m < 512 {
        m
    } else {
        512
    };
    if dmx_len == 0 {
        return None;
    }
    let dmx_end = DMX_DATA_OFFSET + dmx_len;
    let options = packet[OPTIONS_OFFSET];
    let preview = options & OPTION_PREVIEW_DATA != 0;
    let terminated = options & OPTION_STREAM_TERMINATED != 0;
    assert(preview == (options >= 0x80)) by (bit_vector)
        requires
            preview == (options & 0x80u8 != 0),
    ;
    assert(terminated == ((options / 0x40) % 2 == 1)) by (bit_vector)
        requires
            terminated == (options & 0x40u8 != 0),
    ;
    Some(
        SacnPacket {
            universe,
            sequence: packet[SEQUENCE_OFFSET],
            priority: packet[PRIORITY_OFFSET],
            preview,
            terminated,
            dmx: &packet[DMX_DATA_OFFSET..dmx_end],
        },
    )
}

} // verus!

verus! {

/// Per-universe receive state of the sACN input (index = matrix row).
#[derive(Clone, Copy, PartialEq, Eq, Debug)]
pub struct SacnReceiver {
    /// Packets applied since the counters were last reset.
    pub universe_counts: [u32; MAX_UNIVERSES],
    /// First slot of the last applied packet.
    pub universe_last_values: [u8; MAX_UNIVERSES],
    /// Times the first slot changed value.
    pub universe_changes: [u32; MAX_UNIVERSES],
    /// Sequence number of the last applied packet; 0 = none tracked.
    pub last_sequence: [u8; MAX_UNIVERSES],
    /// Packets whose sequence number did not follow the previous one.
    pub sequence_jumps: [u32; MAX_UNIVERSES],
    /// Priority of the stream currently accepted; 0 = no stream.
    pub universe_priority: [u8; MAX_UNIVERSES],
}

/// What a received datagram did.
#[derive(Clone, Copy, PartialEq, Eq, Debug)]
pub enum SacnOutcome {
    /// Dropped: invalid, outside the stored universes, preview data, or
    /// from a lower-priority source.
    Ignored,
    /// The source ended its stream: the universe was blacked out.
    Terminated,
    /// The DMX data was stored.
    Applied,
}

/// 0-based matrix row of an accepted packet's universe.
pub open spec fn sacn_row(p: Seq<u8>) -> int {
    be16(p, UNIVERSE_OFFSET as int) - 1
}

pub open spec fn sacn_preview(p: Seq<u8>) -> bool {
    p[OPTIONS_OFFSET as int] >= 0x80
}

pub open spec fn sacn_terminated(p: Seq<u8>) -> bool {
    (p[OPTIONS_OFFSET as int] / 0x40) % 2 == 1
}

pub open spec fn sacn_priority(p: Seq<u8>) -> u8 {
    p[PRIORITY_OFFSET as int]
}

pub open spec fn sacn_sequence(p: Seq<u8>) -> u8 {
    p[SEQUENCE_OFFSET as int]
}

pub open spec fn sacn_dmx(p: Seq<u8>) -> Seq<u8> {
    p.subrange(DMX_DATA_OFFSET as int, DMX_DATA_OFFSET + sacn_dmx_len(p))
}

/// What `handle_packet` does with datagram `p` in state `r`.
pub open spec fn sacn_outcome(r: SacnReceiver, p: Seq<u8>) -> SacnOutcome {
    if !sacn_accepts(p) || be16(p, UNIVERSE_OFFSET as int) > MAX_UNIVERSES || sacn_preview(p) {
        SacnOutcome::Ignored
    } else if sacn_terminated(p) {
        SacnOutcome::Terminated
    } else if sacn_priority(p) < r.universe_priority[sacn_row(p)] {
        SacnOutcome::Ignored
    } else {
        SacnOutcome::Applied
    }
}

/// The sequence number an applied packet is compared against: tracking
/// restarts when a higher-priority stream takes over.
pub open spec fn sacn_tracked_sequence(r: SacnReceiver, p: Seq<u8>) -> u8 {
    if sacn_priority(p) > r.universe_priority[sacn_row(p)] {
        0
    } else {
        r.last_sequence[sacn_row(p)]
    }
}

impl SacnReceiver {
    /// No stream accepted on any universe, all counters at 0.
    pub fn new() -> (r: SacnReceiver)
        ensures
            forall|i: int|
                0 <= i < MAX_UNIVERSES ==> r.universe_counts[i] == 0 && r.universe_last_values[i] == 0
                    && r.universe_changes[i] == 0 && r.last_sequence[i] == 0 && r.sequence_jumps[i]
                    == 0 && r.universe_priority[i] == 0,
    {
        SacnReceiver {
            universe_counts: [0; MAX_UNIVERSES],
            universe_last_values: [0; MAX_UNIVERSES],
            universe_changes: [0; MAX_UNIVERSES],
            last_sequence: [0; MAX_UNIVERSES],
            sequence_jumps: [0; MAX_UNIVERSES],
            universe_priority: [0; MAX_UNIVERSES],
        }
    }

    /// Handles one received datagram. sACN universe `N` is matrix row
    /// `N - 1`. Preview packets never drive output; a terminated stream
    /// blacks its universe out and forgets its priority; a source with lower
    /// priority than the accepted one is ignored, and a higher one takes over
    /// (restarting sequence tracking). An applied packet replaces the whole
    /// universe, zeroing the slots it does not carry.
    pub fn handle_packet(&mut self, matrix: &mut DmxMatrix, packet: &[u8]) -> (o: SacnOutcome)
        ensures
            o == sacn_outcome(*old(self), packet@),
            o == SacnOutcome::Ignored ==> *final(self) == *old(self) && *final(matrix) == *old(
                matrix,
            ),
            o == SacnOutcome::Terminated ==> {
                let row = sacn_row(packet@);
                &&& final(self).universe_priority@ == old(self).universe_priority@.update(row, 0)
                &&& final(self).last_sequence@ == old(self).last_sequence@.update(row, 0)
                &&& final(self).universe_counts == old(self).universe_counts
                &&& final(self).universe_last_values == old(self).universe_last_values
                &&& final(self).universe_changes == old(self).universe_changes
                &&& final(self).sequence_jumps == old(self).sequence_jumps
                &&& forall|u: int, c: int|
                    0 <= u < MAX_UNIVERSES && 0 <= c < DMX_CHANNELS ==> final(matrix)[u][c] == if u
                        == row {
                        0
                    } else {
                        old(matrix)[u][c]
                    }
            },
            o == SacnOutcome::Applied ==> {
                let p = packet@;
                let row = sacn_row(p);
                let tracked_seq = sacn_tracked_sequence(*old(self), p);
                let first = sacn_dmx(p)[0];
                &&& final(self).universe_priority@ == old(self).universe_priority@.update(
                    row,
                    sacn_priority(p),
                )
                &&& final(self).last_sequence@ == old(self).last_sequence@.update(row, sacn_sequence(p))
                &&& final(self).sequence_jumps@ == old(self).sequence_jumps@.update(
                    row,
                    if tracked_seq != 0 && sacn_sequence(p) != tracked_seq.wrapping_add(1) {
                        old(self).sequence_jumps[row].wrapping_add(1)
                    } else {
                        old(self).sequence_jumps[row]
                    },
                )
                &&& final(self).universe_counts@ == old(self).universe_counts@.update(
                    row,
                    old(self).universe_counts[row].wrapping_add(1),
                )
                &&& final(self).universe_last_values@ == old(self).universe_last_values@.update(row, first)
                &&& final(self).universe_changes@ == old(self).universe_changes@.update(
                    row,
                    if first != old(self).universe_last_values[row] {
                        old(self).universe_changes[row].wrapping_add(1)
                    } else {
                        old(self).universe_changes[row]
                    },
                )
                &&& forall|u: int, c: int|
                    0 <= u < MAX_UNIVERSES && 0 <= c < DMX_CHANNELS ==> final(matrix)[u][c] == if u
                        == row {
                        crate::dmx::row_after_replace(sacn_dmx(p), c)
                    } else {
                        old(matrix)[u][c]
                    }
            },
    {
        let sacn = match parse_sacn_packet(packet) {
            Some(s) => s,
            None => return SacnOutcome::Ignored,
        };
        if sacn.universe == 0 || sacn.universe > MAX_UNIVERSES {
            return SacnOutcome::Ignored;
        }
        let row = sacn.universe - 1;
        // Preview packets should not drive live output.
        if sacn.preview {
            return SacnOutcome::Ignored;
        }
        // A terminated stream is no longer active.
        if sacn.terminated {
            self.universe_priority[row] = 0;
            self.last_sequence[row] = 0;
            clear_row(matrix, row);
            return SacnOutcome::Terminated;
        }
        // Ignore a source with lower priority than the accepted stream.
        if sacn.priority < self.universe_priority[row] {
            return SacnOutcome::Ignored;
        }
        // Reset sequence tracking when a higher-priority stream wins.
        if sacn.priority > self.universe_priority[row] {
            self.universe_priority[row] = sacn.priority;
            self.last_sequence[row] = 0;
        }
        if self.last_sequence[row] != 0 {
            let expected = self.last_sequence[row].wrapping_add(1);
            if sacn.sequence != expected {
                self.sequence_jumps[row] = self.sequence_jumps[row].wrapping_add(1);
            }
        }
        self.last_sequence[row] = sacn.sequence;
        let first_value = sacn.dmx[0];
        replace_row(matrix, row, sacn.dmx);
        self.universe_counts[row] = self.universe_counts[row].wrapping_add(1);
        if first_value != self.universe_last_values[row] {
            self.universe_last_values[row] = first_value;
            self.universe_changes[row] = self.universe_changes[row].wrapping_add(1);
        }
        proof {
            assert(self.universe_priority@ =~= old(self).universe_priority@.update(
                row as int,
                sacn.priority,
            ));
            assert(self.last_sequence@ =~= old(self).last_sequence@.update(row as int, sacn.sequence));
            assert(self.universe_counts@ =~= old(self).universe_counts@.update(
                row as int,
                old(self).universe_counts[row as int].wrapping_add(1),
            ));
            assert(self.universe_last_values@ =~= old(self).universe_last_values@.update(
                row as int,
                first_value,
            ));
        }
        SacnOutcome::Applied
    }
}

} // verus!

verus! {

/// Preview data never drives the output, and a source with lower priority
/// than the stream currently accepted for its universe is ignored: in both
/// cases `handle_packet` leaves the receiver and the DMX store as they were.
pub proof fn lemma_preview_and_lower_priority_ignored(r: SacnReceiver, p: Seq<u8>)
    requires
        sacn_accepts(p),
        be16(p, UNIVERSE_OFFSET as int) <= MAX_UNIVERSES,
        sacn_preview(p) || (!sacn_terminated(p) && sacn_priority(p) < r.universe_priority[sacn_row(
            p,
        )]),
    ensures
        sacn_outcome(r, p) == SacnOutcome::Ignored,
{
}

/// A terminated stream blacks its universe out: afterwards every channel of
/// config universe `N` reads 0, and the universe accepts any priority again.
pub proof fn lemma_terminated_blacks_out(
    after: DmxMatrix,
    r_after: SacnReceiver,
    p: Seq<u8>,
    start: int,
    k: int,
)
    requires
        sacn_accepts(p),
        1 <= sacn_row(p) + 1 <= MAX_UNIVERSES,
        1 <= start <= DMX_CHANNELS,
        0 <= k,
        r_after.universe_priority[sacn_row(p)] == 0,
        forall|c: int| 0 <= c < DMX_CHANNELS ==> after[sacn_row(p)][c] == 0,
    ensures
        crate::dmx::read_value(after, sacn_row(p) + 1, start, k) == 0,
        forall|q: Seq<u8>|
            sacn_accepts(q) && sacn_row(q) == sacn_row(p) && !sacn_preview(q) && !sacn_terminated(q)
                ==> sacn_outcome(r_after, q) == SacnOutcome::Applied,
{
}

/// What an applied sACN packet for universe `N` stores reads back from
/// config universe `N`: channel `c` is the `c`-th slot of the packet, and
/// the channels past the packet's data read 0.
pub proof fn lemma_sacn_read_back(after: DmxMatrix, p: Seq<u8>, channel: int)
    requires
        sacn_accepts(p),
        be16(p, UNIVERSE_OFFSET as int) <= MAX_UNIVERSES,
        1 <= channel <= DMX_CHANNELS,
        forall|c: int|
            0 <= c < DMX_CHANNELS ==> after[sacn_row(p)][c] == crate::dmx::row_after_replace(
                sacn_dmx(p),
                c,
            ),
    ensures
        crate::dmx::read_value(after, be16(p, UNIVERSE_OFFSET as int), channel, 0) == if channel
            <= sacn_dmx_len(p) {
            p[DMX_DATA_OFFSET + channel - 1]
        } else {
            0
        },
{
    let c = channel - 1;
    assert(after[sacn_row(p)][c] == crate::dmx::row_after_replace(sacn_dmx(p), c));
    if c < sacn_dmx_len(p) {
        assert(sacn_dmx(p)[c] == p[DMX_DATA_OFFSET + c]);
    }
}

} // verus!
