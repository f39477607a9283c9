use projectdmx::artnet::{parse_artnet_packet, ArtnetReceiver};
use projectdmx::bytes::{read_u16_be, read_u16_le, read_u32_be};
use projectdmx::dmx::{clear_row, new_matrix, read_channels, replace_row, write_channels, DmxParams};
use projectdmx::sacn::{parse_sacn_packet, sacn_multicast_address, SacnOutcome, SacnReceiver};

fn sacn_packet(universe: u16, priority: u8, sequence: u8, options: u8, slots: &[u8]) -> Vec<u8> {
    let mut p = vec![0u8; 126];
    p[1] = 0x10;
    p[4..16].copy_from_slice(b"ASC-E1.17\0\0\0");
    p[18..22].copy_from_slice(&4u32.to_be_bytes());
    p[40..44].copy_from_slice(&2u32.to_be_bytes());
    p[108] = priority;
    p[111] = sequence;
    p[112] = options;
    p[113..115].copy_from_slice(&universe.to_be_bytes());
    p[117] = 0x02;
    p[118] = 0xa1;
    p[122] = 0x01;
    p[123..125].copy_from_slice(&((slots.len() + 1) as u16).to_be_bytes());
    p[125] = 0;
    p.extend_from_slice(slots);
    p
}

fn artnet_packet(universe: u16, sequence: u8, slots: &[u8]) -> Vec<u8> {
    let mut p = vec![0u8; 18];
    p[0..8].copy_from_slice(b"Art-Net\0");
    p[8] = 0x00;
    p[9] = 0x50;
    p[12] = sequence;
    p[14..16].copy_from_slice(&universe.to_le_bytes());
    p[16..18].copy_from_slice(&(slots.len() as u16).to_be_bytes());
    p.extend_from_slice(slots);
    p
}

#[test]
fn byte_readers() {
    let d = [0x12, 0x34, 0x56, 0x78];
    assert_eq!(read_u16_be(&d, 0), 0x1234);
    assert_eq!(read_u16_le(&d, 1), 0x5634);
    assert_eq!(read_u32_be(&d, 0), 0x1234_5678);
}

#[test]
fn dmx_params_default() {
    let p = DmxParams::default();
    assert_eq!(p, DmxParams { r: 255, g: 255, b: 255, base_effect_id: 1, top_effect_id: 0, speed: 5 });
}

#[test]
fn read_channels_is_one_based_and_zero_outside() {
    let mut m = new_matrix();
    write_channels(&mut m, 1, &[10, 20, 30]);
    m[1][511] = 99;
    assert_eq!(read_channels::<3>(&m, 2, 1), [10, 20, 30]);
    assert_eq!(read_channels::<2>(&m, 2, 2), [20, 30]);
    assert_eq!(read_channels::<3>(&m, 2, 512), [99, 0, 0]);
    assert_eq!(read_channels::<2>(&m, 0, 1), [0, 0]);
    assert_eq!(read_channels::<2>(&m, 5, 1), [0, 0]);
    assert_eq!(read_channels::<2>(&m, 2, 0), [0, 0]);
    assert_eq!(read_channels::<2>(&m, 2, 513), [0, 0]);
    assert_eq!(read_channels::<2>(&m, 1, 1), [0, 0]);
}

#[test]
fn matrix_writes() {
    let mut m = new_matrix();
    write_channels(&mut m, 0, &[1, 2, 3, 4]);
    write_channels(&mut m, 0, &[9]);
    assert_eq!(read_channels::<4>(&m, 1, 1), [9, 2, 3, 4]);
    replace_row(&mut m, 0, &[7, 7]);
    assert_eq!(read_channels::<4>(&m, 1, 1), [7, 7, 0, 0]);
    write_channels(&mut m, 3, &[5; 512]);
    clear_row(&mut m, 3);
    assert_eq!(read_channels::<2>(&m, 4, 511), [0, 0]);
    assert_eq!(read_channels::<2>(&m, 1, 1), [7, 7]);
}

#[test]
fn sacn_multicast_groups() {
    assert_eq!(sacn_multicast_address(1), [239, 255, 0, 1]);
    assert_eq!(sacn_multicast_address(4), [239, 255, 0, 4]);
    assert_eq!(sacn_multicast_address(63999), [239, 255, 249, 255]);
    assert_eq!(sacn_multicast_address(256), [239, 255, 1, 0]);
}

#[test]
fn sacn_parse_valid_packet() {
    let p = sacn_packet(3, 100, 7, 0, &[1, 2, 3]);
    let s = parse_sacn_packet(&p).expect("valid packet");
    assert_eq!(s.universe, 3);
    assert_eq!(s.priority, 100);
    assert_eq!(s.sequence, 7);
    assert!(!s.preview);
    assert!(!s.terminated);
    assert_eq!(s.dmx, &[1, 2, 3]);
    let flags = sacn_packet(3, 100, 7, 0xc0, &[1]);
    let s = parse_sacn_packet(&flags).unwrap();
    assert!(s.preview && s.terminated);
}

#[test]
fn sacn_parse_uses_slots_actually_present() {
    let mut p = sacn_packet(1, 100, 0, 0, &[5, 6, 7, 8]);
    p[123..125].copy_from_slice(&513u16.to_be_bytes());
    assert_eq!(parse_sacn_packet(&p).unwrap().dmx, &[5, 6, 7, 8]);
    let mut q = sacn_packet(1, 100, 0, 0, &[5, 6, 7, 8]);
    q[123..125].copy_from_slice(&3u16.to_be_bytes());
    assert_eq!(parse_sacn_packet(&q).unwrap().dmx, &[5, 6]);
}

#[test]
fn sacn_parse_rejects_bad_packets() {
    let good = sacn_packet(1, 100, 0, 0, &[1]);
    assert!(parse_sacn_packet(&good[..125]).is_none());
    assert!(parse_sacn_packet(&good[..126]).is_none()); // no slots
    for (offset, value) in [(1usize, 0x11u8), (5, b'X'), (21, 5), (43, 3), (117, 1), (118, 0), (120, 1), (122, 2), (125, 0xcc)] {
        let mut bad = good.clone();
        bad[offset] = value;
        assert!(parse_sacn_packet(&bad).is_none(), "offset {}", offset);
    }
    assert!(parse_sacn_packet(&sacn_packet(0, 100, 0, 0, &[1])).is_none());
    assert!(parse_sacn_packet(&sacn_packet(64000, 100, 0, 0, &[1])).is_none());
    assert!(parse_sacn_packet(&sacn_packet(63999, 100, 0, 0, &[1])).is_some());
    let mut zero_props = good.clone();
    zero_props[123..125].copy_from_slice(&1u16.to_be_bytes());
    assert!(parse_sacn_packet(&zero_props).is_none());
    let mut too_many = good.clone();
    too_many[123..125].copy_from_slice(&514u16.to_be_bytes());
    assert!(parse_sacn_packet(&too_many).is_none());
}

#[test]
fn sacn_applies_and_clears_tail() {
    let mut m = new_matrix();
    let mut r = SacnReceiver::new();
    assert_eq!(r.handle_packet(&mut m, &sacn_packet(2, 100, 1, 0, &[10, 20, 30])), SacnOutcome::Applied);
    assert_eq!(read_channels::<4>(&m, 2, 1), [10, 20, 30, 0]);
    assert_eq!(r.handle_packet(&mut m, &sacn_packet(2, 100, 2, 0, &[40])), SacnOutcome::Applied);
    assert_eq!(read_channels::<3>(&m, 2, 1), [40, 0, 0]);
    assert_eq!(r.universe_counts[1], 2);
    assert_eq!(r.universe_changes[1], 2);
    assert_eq!(r.sequence_jumps[1], 0);
    assert_eq!(r.universe_priority[1], 100);
}

#[test]
fn sacn_priority_arbitration() {
    let mut m = new_matrix();
    let mut r = SacnReceiver::new();
    r.handle_packet(&mut m, &sacn_packet(1, 100, 10, 0, &[1]));
    assert_eq!(r.handle_packet(&mut m, &sacn_packet(1, 50, 1, 0, &[2])), SacnOutcome::Ignored);
    assert_eq!(read_channels::<1>(&m, 1, 1), [1]);
    // A higher priority takes over and restarts sequence tracking.
    assert_eq!(r.handle_packet(&mut m, &sacn_packet(1, 150, 77, 0, &[3])), SacnOutcome::Applied);
    assert_eq!(read_channels::<1>(&m, 1, 1), [3]);
    assert_eq!(r.sequence_jumps[0], 0);
    assert_eq!(r.last_sequence[0], 77);
}

#[test]
fn sacn_sequence_jumps() {
    let mut m = new_matrix();
    let mut r = SacnReceiver::new();
    r.handle_packet(&mut m, &sacn_packet(1, 100, 255, 0, &[1]));
    r.handle_packet(&mut m, &sacn_packet(1, 100, 0, 0, &[1]));
    assert_eq!(r.sequence_jumps[0], 0);
    // Sequence 0 was stored, so the next packet is not compared.
    r.handle_packet(&mut m, &sacn_packet(1, 100, 1, 0, &[1]));
    assert_eq!(r.sequence_jumps[0], 0);
    r.handle_packet(&mut m, &sacn_packet(1, 100, 2, 0, &[1]));
    r.handle_packet(&mut m, &sacn_packet(1, 100, 9, 0, &[1]));
    assert_eq!(r.sequence_jumps[0], 1);
    assert_eq!(r.universe_changes[0], 1);
}

#[test]
fn sacn_preview_terminate_and_range() {
    let mut m = new_matrix();
    let mut r = SacnReceiver::new();
    r.handle_packet(&mut m, &sacn_packet(4, 100, 1, 0, &[9, 9]));
    assert_eq!(r.handle_packet(&mut m, &sacn_packet(4, 200, 2, 0x80, &[1, 1])), SacnOutcome::Ignored);
    assert_eq!(read_channels::<2>(&m, 4, 1), [9, 9]);
    assert_eq!(r.handle_packet(&mut m, &sacn_packet(5, 200, 2, 0, &[1])), SacnOutcome::Ignored);
    assert_eq!(r.handle_packet(&mut m, &sacn_packet(4, 1, 3, 0x40, &[1])), SacnOutcome::Terminated);
    assert_eq!(read_channels::<2>(&m, 4, 1), [0, 0]);
    assert_eq!(r.universe_priority[3], 0);
    assert_eq!(r.last_sequence[3], 0);
    // After the stream ended any priority is accepted again.
    assert_eq!(r.handle_packet(&mut m, &sacn_packet(4, 10, 4, 0, &[6])), SacnOutcome::Applied);
    assert_eq!(r.handle_packet(&mut m, &[0u8; 10]), SacnOutcome::Ignored);
}

#[test]
fn artnet_parse() {
    let p = artnet_packet(2, 9, &[1, 2, 3]);
    let a = parse_artnet_packet(&p).unwrap();
    assert_eq!(a.universe, 2);
    assert_eq!(a.sequence, 9);
    assert_eq!(a.dmx, &[1, 2, 3]);
    assert!(parse_artnet_packet(&p[..17]).is_none());
    assert!(parse_artnet_packet(&p[..18]).is_none());
    assert!(parse_artnet_packet(&artnet_packet(4, 0, &[1])).is_none());
    let mut bad = p.clone();
    bad[9] = 0x51;
    assert!(parse_artnet_packet(&bad).is_none());
    let mut bad = p.clone();
    bad[0] = b'a';
    assert!(parse_artnet_packet(&bad).is_none());
    let mut short = p.clone();
    short[16..18].copy_from_slice(&2u16.to_be_bytes());
    assert_eq!(parse_artnet_packet(&short).unwrap().dmx, &[1, 2]);
    let mut long = p.clone();
    long[16..18].copy_from_slice(&600u16.to_be_bytes());
    assert_eq!(parse_artnet_packet(&long).unwrap().dmx, &[1, 2, 3]);
}

#[test]
fn artnet_writes_prefix_and_tracks_sequence() {
    let mut m = new_matrix();
    let mut r = ArtnetReceiver::new();
    assert!(r.handle_packet(&mut m, &artnet_packet(0, 1, &[5, 6, 7])));
    assert!(r.handle_packet(&mut m, &artnet_packet(0, 3, &[8])));
    // Art-Net keeps the channels a shorter packet does not carry.
    assert_eq!(read_channels::<3>(&m, 1, 1), [8, 6, 7]);
    assert_eq!(r.sequence_jumps[0], 1);
    assert_eq!(r.last_sequence[0], 3);
    assert!(r.handle_packet(&mut m, &artnet_packet(0, 0, &[8])));
    assert_eq!(r.last_sequence[0], 3);
    assert_eq!(r.universe_counts[0], 3);
    assert_eq!(r.universe_changes[0], 2);
    assert!(!r.handle_packet(&mut m, &artnet_packet(7, 1, &[1])));
    r.reset_counters();
    assert_eq!(r.universe_counts, [0; 4]);
    assert_eq!(r.sequence_jumps, [0; 4]);
    assert_eq!(r.universe_last_values[0], 8);
}

#[test]
fn artnet_and_sacn_address_the_same_universe() {
    let mut m1 = new_matrix();
    let mut m2 = new_matrix();
    ArtnetReceiver::new().handle_packet(&mut m1, &artnet_packet(0, 0, &[42]));
    SacnReceiver::new().handle_packet(&mut m2, &sacn_packet(1, 100, 0, 0, &[42]));
    assert_eq!(read_channels::<1>(&m1, 1, 1), [42]);
    assert_eq!(read_channels::<1>(&m2, 1, 1), [42]);
}
