//! Art-Net (ArtDmx) reception: packet validation and the per-universe
//! sequence and activity tracking, writing into the DMX store.

use vstd::prelude::*;

use crate::bytes::{be16, bytes_match_at, le16, read_u16_be, read_u16_le};
use crate::dmx::{write_channels, DmxMatrix};
use crate::{DMX_CHANNELS, MAX_UNIVERSES};

verus! {

/// UDP port Art-Net is received on.
pub const ARTNET_PORT: u16 = 6454;

/// Low and high byte of the ArtDmx (OpOutput) opcode.
pub const OP_OUTPUT_LO: u8 = 0x00;
pub const OP_OUTPUT_HI: u8 = 0x50;

/// Offset of the DMX data in an ArtDmx packet.
pub const ARTNET_DATA_OFFSET: usize = 18;

/// The Art-Net packet header, `"Art-Net\0"`.
pub open spec fn artnet_header_spec() -> Seq<u8> {
    seq![0x41u8, 0x72, 0x74, 0x2d, 0x4e, 0x65, 0x74, 0x00]
}

fn artnet_header() -> (r: [u8; 8])
    ensures
        r@ == artnet_header_spec(),
{
    let r: [u8; 8] = [0x41, 0x72, 0x74, 0x2d, 0x4e, 0x65, 0x74, 0x00];
    assert(r@ =~= artnet_header_spec());
    r
}

/// Number of DMX slots taken from an ArtDmx packet: what it advertises, what
/// it holds, and at most 512.
pub open spec fn artnet_copy_len(p: Seq<u8>) -> int {
    let advertised = be16(p, 16);
    let available = p.len() - ARTNET_DATA_OFFSET;
    let m = if advertised < available {
        advertised
    } else {
        available
    };
    if m < 512 {
        m
    } else {
        512
    }
}

/// The (0-based) wire universe of an ArtDmx packet; it is also the matrix
/// row, so config universe `N` is Art-Net universe `N - 1`.
pub open spec fn artnet_universe(p: Seq<u8>) -> int {
    le16(p, 14)
}

/// Whether `p` is an ArtDmx packet for a stored universe carrying at least
/// one DMX slot.
pub open spec fn artnet_accepts(p: Seq<u8>) -> bool {
    &&& p.len() >= ARTNET_DATA_OFFSET
    &&& p.subrange(0, 8) == artnet_header_spec()
    &&& p[8] == OP_OUTPUT_LO && p[9] == OP_OUTPUT_HI
    &&& artnet_universe(p) < MAX_UNIVERSES
    &&& artnet_copy_len(p) > 0
}

/// The DMX slots an accepted packet carries.
pub open spec fn artnet_dmx(p: Seq<u8>) -> Seq<u8> {
    p.subrange(ARTNET_DATA_OFFSET as int, ARTNET_DATA_OFFSET + artnet_copy_len(p))
}

/// The fields of an accepted ArtDmx packet.
pub struct ArtnetPacket<'a> {
    pub universe: usize,
    pub sequence: u8,
    pub dmx: &'a [u8],
}

/// Validates an ArtDmx packet and extracts its fields; `None` for anything
/// else, including universes the board does not store.
pub fn parse_artnet_packet(packet: &[u8]) -> (r: Option<ArtnetPacket<'_>>)
    ensures
        r is Some <==> artnet_accepts(packet@),
        r matches Some(pk) ==> {
            &&& pk.universe == artnet_universe(packet@)
            &&& pk.sequence == packet@[12]
            &&& pk.dmx@ == artnet_dmx(packet@)
        },
{
    if packet.len() < ARTNET_DATA_OFFSET {
        return None;
    }
    let header = artnet_header();
    if !bytes_match_at(packet, 0, &header) {
        return None;
    }
    if packet[8] != OP_OUTPUT_LO || packet[9] != OP_OUTPUT_HI {
        return None;
    }
    let sequence = packet[12];
    // Art-Net wire universes are 0-based, so they are already the matrix row.
    let universe = read_u16_le(packet, 14) as usize;
    let dmx_len = read_u16_be(packet, 16) as usize;
    if universe >= MAX_UNIVERSES {
        return None;
    }
    let available = packet.len() - ARTNET_DATA_OFFSET;
    let m = if dmx_len < available {
        dmx_len
    } else {
        available
    };
    let copy_len = if m < 512 {
        m
    } else {
        512
    };
    if copy_len == 0 {
        return None;
    }
    Some(
        ArtnetPacket {
            universe,
            sequence,
            dmx: &packet[ARTNET_DATA_OFFSET..ARTNET_DATA_OFFSET + copy_len],
        },
    )
}

/// Per-universe receive state of the Art-Net input (index = matrix row).
#[derive(Clone, Copy, PartialEq, Eq, Debug)]
pub struct ArtnetReceiver {
    /// Packets applied since the counters were last reset.
    pub universe_counts: [u32; MAX_UNIVERSES],
    /// First slot of the last applied packet.
    pub universe_last_values: [u8; MAX_UNIVERSES],
    /// Times the first slot changed value since the last reset.
    pub universe_changes: [u32; MAX_UNIVERSES],
    /// Last non-zero sequence number seen; 0 = none (sequencing disabled).
    pub last_sequence: [u8; MAX_UNIVERSES],
    /// Packets whose sequence number did not follow the previous one.
    pub sequence_jumps: [u32; MAX_UNIVERSES],
}

impl ArtnetReceiver {
    /// All counters and sequence tracking at 0.
    pub fn new() -> (r: ArtnetReceiver)
        ensures
            forall|i: int|
                0 <= i < MAX_UNIVERSES ==> r.universe_counts[i] == 0 && r.universe_last_values[i] == 0
                    && r.universe_changes[i] == 0 && r.last_sequence[i] == 0 && r.sequence_jumps[i]
                    == 0,
    {
        ArtnetReceiver {
            universe_counts: [0; MAX_UNIVERSES],
            universe_last_values: [0; MAX_UNIVERSES],
            universe_changes: [0; MAX_UNIVERSES],
            last_sequence: [0; MAX_UNIVERSES],
            sequence_jumps: [0; MAX_UNIVERSES],
        }
    }

    /// Handles one received datagram: an accepted ArtDmx packet overwrites the
    /// first slots of its universe with the data it carries (the rest keep
    /// their values) and updates the activity counters. Sequence 0 means the
    /// sender does not sequence. Returns whether the packet was applied.
    pub fn handle_packet(&mut self, matrix: &mut DmxMatrix, packet: &[u8]) -> (applied: bool)
        ensures
            applied == artnet_accepts(packet@),
            !applied ==> *final(self) == *old(self) && *final(matrix) == *old(matrix),
            applied ==> {
                let p = packet@;
                let row = artnet_universe(p);
                let seq = p[12];
                let last = old(self).last_sequence[row];
                let first = p[ARTNET_DATA_OFFSET as int];
                &&& final(self).sequence_jumps@ == old(self).sequence_jumps@.update(
                    row,
                    if seq != 0 && last != 0 && seq != last.wrapping_add(1) {
                        old(self).sequence_jumps[row].wrapping_add(1)
                    } else {
                        old(self).sequence_jumps[row]
                    },
                )
                &&& final(self).last_sequence@ == old(self).last_sequence@.update(
                    row,
                    if seq != 0 {
                        seq
                    } else {
                        last
                    },
                )
                &&& final(self).universe_counts@ == old(self).universe_counts@.update(
                    row,
                    old(self).universe_counts[row].wrapping_add(1),
                )
                &&& final(self).universe_last_values@ == old(self).universe_last_values@.update(row, first)
                &&& final(self).universe_changes@ == old(self).universe_changes@.update(
                    row,
                    if first != old(self).universe_last_values[row] {
                        old(self).universe_changes[row].wrapping_add(1)
                    } else {
                        old(self).universe_changes[row]
                    },
                )
                &&& forall|u: int, c: int|
                    0 <= u < MAX_UNIVERSES && 0 <= c < DMX_CHANNELS ==> final(matrix)[u][c] == if u
                        == row {
                        crate::dmx::row_after_write(old(matrix)[u], artnet_dmx(p), c)
                    } else {
                        old(matrix)[u][c]
                    }
            },
    {
        let pk = match parse_artnet_packet(packet) {
            Some(pk) => pk,
            None => return false,
        };
        let universe = pk.universe;
        let sequence = pk.sequence;
        let first_value = pk.dmx[0];
        if sequence != 0 && self.last_sequence[universe] != 0 {
            let expected = self.last_sequence[universe].wrapping_add(1);
            if sequence != expected {
                self.sequence_jumps[universe] = self.sequence_jumps[universe].wrapping_add(1);
            }
        }
        if sequence != 0 {
            self.last_sequence[universe] = sequence;
        }
        write_channels(matrix, universe, pk.dmx);
        self.universe_counts[universe] = self.universe_counts[universe].wrapping_add(1);
        if first_value != self.universe_last_values[universe] {
            self.universe_last_values[universe] = first_value;
            self.universe_changes[universe] = self.universe_changes[universe].wrapping_add(1);
        }
        proof {
            assert(self.last_sequence@ =~= old(self).last_sequence@.update(
                universe as int,
                if sequence != 0 {
                    sequence
                } else {
                    old(self).last_sequence[universe as int]
                },
            ));
            assert(self.universe_counts@ =~= old(self).universe_counts@.update(
                universe as int,
                old(self).universe_counts[universe as int].wrapping_add(1),
            ));
            assert(self.universe_last_values@ =~= old(self).universe_last_values@.update(
                universe as int,
                first_value,
            ));
        }
        true
    }

    /// Starts a new reporting period: packet, change and sequence-jump
    /// counters go back to 0; the last values and sequence numbers are kept.
    pub fn reset_counters(&mut self)
        ensures
            forall|i: int|
                0 <= i < MAX_UNIVERSES ==> final(self).universe_counts[i] == 0
                    && final(self).universe_changes[i] == 0 && final(self).sequence_jumps[i] == 0,
            final(self).universe_last_values == old(self).universe_last_values,
            final(self).last_sequence == old(self).last_sequence,
    {
        let mut i: usize = 0;
        while i < MAX_UNIVERSES
            invariant
                i <= MAX_UNIVERSES,
                forall|j: int|
                    0 <= j < i ==> self.universe_counts[j] == 0 && self.universe_changes[j] == 0
                        && self.sequence_jumps[j] == 0,
                self.universe_last_values == old(self).universe_last_values,
                self.last_sequence == old(self).last_sequence,
            decreases MAX_UNIVERSES - i,
        {
            self.universe_counts[i] = 0;
            self.universe_changes[i] = 0;
            self.sequence_jumps[i] = 0;
            i = i + 1;
        }
    }
}

} // verus!

verus! {

/// What an applied ArtDmx packet for wire universe `W` stores reads back
/// from config universe `W + 1` (the universe sACN calls `W + 1`): channel
/// `c` is the `c`-th slot of the packet, and the channels past the packet's
/// data keep their previous values.
pub proof fn lemma_artnet_read_back(before: DmxMatrix, after: DmxMatrix, p: Seq<u8>, channel: int)
    requires
        artnet_accepts(p),
        1 <= channel <= DMX_CHANNELS,
        forall|c: int|
            0 <= c < DMX_CHANNELS ==> after[artnet_universe(p)][c] == crate::dmx::row_after_write(
                before[artnet_universe(p)],
                artnet_dmx(p),
                c,
            ),
    ensures
        crate::dmx::read_value(after, artnet_universe(p) + 1, channel, 0) == if channel
            <= artnet_copy_len(p) {
            p[ARTNET_DATA_OFFSET + channel - 1]
        } else {
            crate::dmx::read_value(before, artnet_universe(p) + 1, channel, 0)
        },
{
}

} // verus!
