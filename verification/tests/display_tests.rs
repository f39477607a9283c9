use projectdmx::display::{input_indicator, spinner_lines, Indicator, SpinnerLine};
use projectdmx::sensors::{confirmed_status, switch_message, switch_update};

#[test]
fn spinner_head_and_tail() {
    let lines = spinner_lines(64, 28, 0);
    // Spoke 0 is the head: thickest line from (64, 20) to (64, 12).
    assert_eq!(lines[0], Some(SpinnerLine { x0: 64, y0: 20, x1: 64, y1: 12, stroke: 3 }));
    // Spokes 11 and 10 are one and two ticks old.
    assert_eq!(lines[11].map(|l| l.stroke), Some(2));
    assert_eq!(lines[10].map(|l| l.stroke), Some(2));
    assert_eq!(lines[9].map(|l| l.stroke), Some(1));
    assert_eq!(lines[5].map(|l| l.stroke), Some(1));
    // Spokes 1..=4 are 8..=11 ticks old: not drawn.
    assert_eq!(lines[1], None);
    assert_eq!(lines[4], None);
    assert_eq!(lines.iter().filter(|l| l.is_some()).count(), 8);
}

#[test]
fn spinner_rotates() {
    let lines = spinner_lines(0, 0, 3);
    assert_eq!(lines[3], Some(SpinnerLine { x0: 8, y0: 0, x1: 16, y1: 0, stroke: 3 }));
    assert_eq!(lines[2].map(|l| l.stroke), Some(2));
    assert_eq!(lines[4], None);
}

#[test]
fn spinner_near_the_edges_of_i32() {
    let lines = spinner_lines(i32::MAX - 16, i32::MIN + 16, 0);
    assert_eq!(
        lines[0],
        Some(SpinnerLine { x0: i32::MAX - 16, y0: i32::MIN + 8, x1: i32::MAX - 16, y1: i32::MIN, stroke: 3 })
    );
    assert_eq!(
        lines[3],
        None
    );
    assert_eq!(
        lines[9],
        Some(SpinnerLine { x0: i32::MAX - 24, y0: i32::MIN + 16, x1: i32::MAX - 32, y1: i32::MIN + 16, stroke: 1 })
    );
}

#[test]
fn spinner_large_frames() {
    // 1_000_000 % 12 == 4: spoke 4 is the head.
    let lines = spinner_lines(0, 0, 1_000_000);
    assert_eq!(lines[4].map(|l| l.stroke), Some(3));
    assert_eq!(lines[8], None);
    assert_eq!(lines.iter().filter(|l| l.is_some()).count(), 8);
    // A frame counter whose low 32 bits read as a negative `i32`: the
    // remainder takes the sign of the dividend, so every spoke is drawn.
    if usize::BITS == 64 {
        let lines = spinner_lines(0, 0, 0x8000_0000);
        assert_eq!(lines[4].map(|l| l.stroke), Some(3));
        assert_eq!(lines[5].map(|l| l.stroke), Some(2));
        assert_eq!(lines.iter().filter(|l| l.is_some()).count(), 12);
    }
}

#[test]
fn input_indicators() {
    assert_eq!(input_indicator(1, false), Indicator { x: 0, y: 0, diameter: 10, filled: false });
    assert_eq!(input_indicator(6, true), Indicator { x: 60, y: 0, diameter: 10, filled: true });
}

#[test]
fn switch_messages() {
    assert_eq!(switch_message(3, true).as_bytes(), b"SWITCH_3:1\n");
    assert_eq!(switch_message(6, false).as_bytes(), b"SWITCH_6:0\n");
    assert_eq!(switch_message(1234567890, true).as_bytes(), b"SWITCH_1234567890:1\n");
    assert_eq!(switch_message(-42, false).as_bytes(), b"SWITCH_-42:0\n");
    assert_eq!(switch_message(i32::MIN, false).as_bytes(), b"SWITCH_-2147483648:0\n");
    assert_eq!(switch_message(0, true).as_bytes(), b"SWITCH_0:1\n");
}

#[test]
fn switch_edges() {
    assert!(switch_update(2, true, true).is_none());
    assert_eq!(switch_update(2, true, false).unwrap().as_bytes(), b"SWITCH_2:1\n");
    assert!(confirmed_status(true, false, true));
    assert!(!confirmed_status(true, false, false));
    assert!(confirmed_status(true, true, false));
}
