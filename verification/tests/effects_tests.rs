use projectdmx::config::{ColorOrder, EnabledPort, LedProtocol, NeoMode, Port};
use projectdmx::dimmer::resolve_levels;
use projectdmx::config::DimmerConfig;
use projectdmx::dmx::{new_matrix, write_channels, DmxParams};
use projectdmx::effects::{apply_top_effect, blend_rgb, render_base_effect, rgb_fixed, PixelMeta, Rgb8};
use projectdmx::neo::{generate_from_dmx, is_four_channel, wire_frame_rgb, wire_frame_rgbw, wire_rgb, wire_rgbw, Rgbw8};
use projectdmx::MAX_PIXELS;

fn params(speed: u8) -> DmxParams {
    DmxParams { r: 10, g: 20, b: 30, base_effect_id: 0, top_effect_id: 0, speed }
}

fn meta(x: u8, y: u8, index: usize, letter_id: usize) -> PixelMeta {
    PixelMeta { is_valid: true, x, y, index, letter_id }
}

const BLACK: Rgb8 = Rgb8 { r: 0, g: 0, b: 0 };

#[test]
fn rgb_fixed_swaps_red_and_green() {
    assert_eq!(rgb_fixed(1, 2, 3), Rgb8 { r: 2, g: 1, b: 3 });
}

#[test]
fn blend_end_points_and_middle() {
    let a = Rgb8 { r: 200, g: 100, b: 0 };
    let b = Rgb8 { r: 0, g: 100, b: 255 };
    assert_eq!(blend_rgb(a, b, 0), a);
    assert_eq!(blend_rgb(a, b, 256), b);
    assert_eq!(blend_rgb(a, b, 128), Rgb8 { r: 100, g: 100, b: 127 });
}

#[test]
fn base_effects() {
    let p = params(0);
    // 1: patriotic wheel at position 0 is red.
    assert_eq!(render_base_effect(1, 0, &p, &meta(0, 0, 0, 0)), rgb_fixed(255, 0, 0));
    // Section 1 (pos 64) starts white going to blue.
    assert_eq!(render_base_effect(1, 64, &p, &meta(0, 0, 0, 0)), rgb_fixed(255, 255, 255));
    // 2: rainbow wheel at 0: 255 - 0 = 255 -> third section.
    assert_eq!(render_base_effect(2, 0, &p, &meta(0, 0, 0, 0)), rgb_fixed(255, 0, 0));
    assert_eq!(render_base_effect(2, 255, &p, &meta(0, 0, 0, 0)), rgb_fixed(255, 0, 0));
    assert_eq!(render_base_effect(2, 0, &p, &meta(128, 0, 0, 0)), rgb_fixed(0, 126, 129));
    // 3: twinkle: index 7 -> 7*37 = 259 -> 3; with offset 243 gives 246 > 245.
    assert_eq!(render_base_effect(3, 243, &p, &meta(0, 0, 7, 0)), rgb_fixed(10, 20, 30));
    assert_eq!(render_base_effect(3, 242, &p, &meta(0, 0, 7, 0)), BLACK);
    assert_eq!(render_base_effect(4, 0, &p, &meta(0, 0, 0, 0)), rgb_fixed(10, 20, 30));
    assert_eq!(render_base_effect(5, 0, &p, &meta(0, 0, 0, 5)), rgb_fixed(255, 0, 0));
    assert_eq!(render_base_effect(5, 0, &p, &meta(0, 0, 0, 4)), rgb_fixed(255, 255, 255));
    assert_eq!(render_base_effect(5, 0, &p, &meta(0, 0, 0, 2)), rgb_fixed(0, 0, 255));
    assert_eq!(render_base_effect(5, 0, &p, &meta(0, 0, 0, 6)), BLACK);
    assert_eq!(render_base_effect(255, 0, &params(7), &meta(0, 0, 7, 0)), rgb_fixed(255, 255, 255));
    assert_eq!(render_base_effect(255, 0, &params(7), &meta(0, 0, 8, 0)), BLACK);
    assert_eq!(render_base_effect(42, 0, &p, &meta(0, 0, 0, 0)), BLACK);
    let invalid = PixelMeta { is_valid: false, ..meta(0, 0, 0, 0) };
    assert_eq!(render_base_effect(4, 0, &p, &invalid), BLACK);
}

#[test]
fn horizontal_sweep() {
    let bg = Rgb8 { r: 200, g: 100, b: 0 };
    let dim = Rgb8 { r: 10, g: 5, b: 0 };
    let p = params(0);
    // frame 0: beam center at -30; x = 0 is 30 away -> fade, alpha 192.
    assert_eq!(apply_top_effect(1, 0, bg, &meta(0, 0, 0, 0), &p), Rgb8 { r: 152, g: 76, b: 0 });
    // x = 255 is far away -> dimmed.
    assert_eq!(apply_top_effect(1, 0, bg, &meta(255, 0, 0, 0), &p), dim);
    // effect 2 mirrors it.
    assert_eq!(apply_top_effect(2, 0, bg, &meta(255, 0, 0, 0), &p), Rgb8 { r: 152, g: 76, b: 0 });
    // frame 231: center at 255; x = 255 is inside the beam.
    assert_eq!(apply_top_effect(1, 231, bg, &meta(255, 0, 0, 0), &p), bg);
    // frame 255: center at 285, 30 past the last pixel.
    assert_eq!(apply_top_effect(1, 255, bg, &meta(255, 0, 0, 0), &p), Rgb8 { r: 152, g: 76, b: 0 });
    // effects 3 and 4: distance from the center line.
    assert_eq!(apply_top_effect(3, 0, bg, &meta(128, 0, 0, 0), &p), Rgb8 { r: 152, g: 76, b: 0 });
    assert_eq!(apply_top_effect(4, 0, bg, &meta(128, 0, 0, 0), &p), Rgb8 { r: 152, g: 76, b: 0 });
}

#[test]
fn vertical_sweep_and_other_effects() {
    let bg = Rgb8 { r: 100, g: 100, b: 100 };
    let p = params(0);
    // frame 22: center at -30 + 22*315/255 = -3; y = 0 is 3 away -> full.
    assert_eq!(apply_top_effect(5, 22, bg, &meta(0, 0, 0, 0), &p), bg);
    assert_eq!(apply_top_effect(6, 22, bg, &meta(0, 0, 0, 0), &p), Rgb8 { r: 5, g: 5, b: 5 });
    assert_eq!(apply_top_effect(10, 22, bg, &meta(0, 0, 0, 0), &p), bg);
    let invalid = PixelMeta { is_valid: false, ..meta(0, 0, 0, 0) };
    assert_eq!(apply_top_effect(1, 0, bg, &invalid, &p), BLACK);
}

fn strobe_letter(tick: u32) -> usize {
    let seed = tick.wrapping_add(1013904223).wrapping_mul(1664525).wrapping_add(1013904223);
    (((seed >> 16) as u16) % 6) as usize
}

#[test]
fn letter_strobe() {
    let bg = Rgb8 { r: 50, g: 60, b: 70 };
    let target = strobe_letter(0);
    let other = (target + 1) % 6;
    assert_eq!(apply_top_effect(7, 0, bg, &meta(0, 0, 0, target), &params(0)), bg);
    assert_eq!(apply_top_effect(7, 0, bg, &meta(0, 0, 0, other), &params(0)), BLACK);
    // Frames 8..16 are the dark half of the period.
    assert_eq!(apply_top_effect(7, 8, bg, &meta(0, 0, 0, target), &params(0)), BLACK);
    // Fast speed forces every third period dark (tick 0 included).
    assert_eq!(apply_top_effect(7, 0, bg, &meta(0, 0, 0, target), &params(121)), BLACK);
}

#[test]
fn letter_chase() {
    let bg = Rgb8 { r: 200, g: 200, b: 200 };
    let dim = Rgb8 { r: 10, g: 10, b: 10 };
    // Fast: outer letters lit in step 0 of effect 8, inner ones in effect 9.
    assert_eq!(apply_top_effect(8, 0, bg, &meta(0, 0, 0, 0), &params(60)), bg);
    assert_eq!(apply_top_effect(8, 0, bg, &meta(0, 0, 0, 2), &params(60)), dim);
    assert_eq!(apply_top_effect(9, 0, bg, &meta(0, 0, 0, 3), &params(60)), bg);
    assert_eq!(apply_top_effect(8, 200, bg, &meta(0, 0, 0, 0), &params(60)), dim);
    // Slow: faded in; at intra-step 30 the fade is full, speed 0 scales by 256.
    assert_eq!(apply_top_effect(8, 30, bg, &meta(0, 0, 0, 5), &params(0)), Rgb8 { r: 199, g: 199, b: 199 });
    assert_eq!(apply_top_effect(8, 0, bg, &meta(0, 0, 0, 5), &params(0)), dim);
    assert_eq!(apply_top_effect(9, 30, bg, &meta(0, 0, 0, 5), &params(0)), dim);
}

#[test]
fn wire_order() {
    let led = Rgbw8 { r: 1, g: 2, b: 3, w: 4 };
    assert_eq!(wire_rgb(led, ColorOrder::Grb), Rgb8 { r: 2, g: 1, b: 3 });
    assert_eq!(wire_rgb(led, ColorOrder::Brg), Rgb8 { r: 3, g: 1, b: 2 });
    assert_eq!(wire_rgbw(led, ColorOrder::Grbw), Rgbw8 { r: 2, g: 1, b: 3, w: 4 });
    let frame = [led; MAX_PIXELS];
    assert!(wire_frame_rgb(&frame, ColorOrder::Bgr).iter().all(|p| *p == Rgb8 { r: 3, g: 2, b: 1 }));
    assert!(wire_frame_rgbw(&frame, ColorOrder::Rgbw).iter().all(|p| *p == led));
}

fn port(order: ColorOrder, mode: NeoMode, pixel_count: usize, universe: u16, start_channel: u16) -> EnabledPort {
    EnabledPort { protocol: LedProtocol::Ws2812, color_order: order, pixel_count, universe, start_channel, mode }
}

#[test]
fn four_channel_ports() {
    assert!(is_four_channel(Port::Enabled(port(ColorOrder::Grbw, NeoMode::Raw, 1, 1, 1))));
    assert!(!is_four_channel(Port::Enabled(port(ColorOrder::Grb, NeoMode::Raw, 1, 1, 1))));
    assert!(!is_four_channel(Port::Disabled { disabled: true }));
}

#[test]
fn solid_color_generation() {
    let mut m = new_matrix();
    write_channels(&mut m, 0, &[0, 0, 0, 0, 11, 22, 33, 44]);
    let mut leds = [Rgbw8 { r: 9, g: 9, b: 9, w: 9 }; MAX_PIXELS];
    generate_from_dmx(port(ColorOrder::Grb, NeoMode::SolidColor, 3, 1, 5), &m, &mut leds);
    assert_eq!(leds[0], Rgbw8 { r: 11, g: 22, b: 33, w: 44 });
    assert_eq!(leds[2], Rgbw8 { r: 11, g: 22, b: 33, w: 44 });
    assert_eq!(leds[3], Rgbw8 { r: 9, g: 9, b: 9, w: 9 });
}

#[test]
fn generator_ports_are_not_drawn_from_dmx() {
    let mut m = new_matrix();
    write_channels(&mut m, 0, &[11, 22, 33, 44]);
    let mut leds = [Rgbw8 { r: 9, g: 9, b: 9, w: 9 }; MAX_PIXELS];
    generate_from_dmx(port(ColorOrder::Rgb, NeoMode::Generator2D, 10, 1, 1), &m, &mut leds);
    assert_eq!(leds, [Rgbw8 { r: 9, g: 9, b: 9, w: 9 }; MAX_PIXELS]);
}

#[test]
fn raw_generation_runs_into_next_universe() {
    let mut m = new_matrix();
    write_channels(&mut m, 0, &[1; 512]);
    m[0][509] = 7;
    m[0][510] = 8;
    m[0][511] = 9;
    write_channels(&mut m, 1, &[20, 21, 22, 23]);
    let mut leds = [Rgbw8::default(); MAX_PIXELS];
    generate_from_dmx(port(ColorOrder::Rgb, NeoMode::Raw, 1000, 1, 510), &m, &mut leds);
    assert_eq!(leds[0], Rgbw8 { r: 7, g: 8, b: 9, w: 0 });
    // 510 + 3 = 513 > 512 -> universe 2 channel 1.
    assert_eq!(leds[1], Rgbw8 { r: 20, g: 21, b: 22, w: 0 });
    assert_eq!(leds[2], Rgbw8 { r: 23, g: 0, b: 0, w: 0 });
    // All MAX_PIXELS pixels are generated; unwritten universes read 0.
    assert_eq!(leds[MAX_PIXELS - 1], Rgbw8 { r: 0, g: 0, b: 0, w: 0 });

    let mut leds = [Rgbw8::default(); MAX_PIXELS];
    generate_from_dmx(port(ColorOrder::Rgbw, NeoMode::Raw, 2, 2, 1), &m, &mut leds);
    assert_eq!(leds[0], Rgbw8 { r: 20, g: 21, b: 22, w: 23 });
    assert_eq!(leds[1], Rgbw8 { r: 0, g: 0, b: 0, w: 0 });
}

#[test]
fn dimmer_levels() {
    let mut m = new_matrix();
    write_channels(&mut m, 0, &[0, 128, 127, 200, 50]);
    let settings = DimmerConfig { universe: 1, start_channel: 2, binary: [true, true, false, false] };
    assert_eq!(resolve_levels(&settings, &m), [255, 0, 200, 50]);
    let settings = DimmerConfig { universe: 1, start_channel: 511, binary: [false; 4] };
    assert_eq!(resolve_levels(&settings, &m), [0, 0, 0, 0]);
}
