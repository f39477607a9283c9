//! Pixel effects of the lettering display: a base layer (color wheels,
//! twinkle, solid and per-letter colors) and a top layer (sweeps, strobes and
//! letter chases) blended over it, all in 8-bit fixed point.

use vstd::prelude::*;

use crate::dmx::DmxParams;

verus! {

/// One pixel as the strip driver takes it (fields in the strip's own order).
#[derive(Clone, Copy, PartialEq, Eq, Debug, Default)]
pub struct Rgb8 {
    pub r: u8,
    pub g: u8,
    pub b: u8,
}

/// Where a pixel sits in the lettering layout.
#[derive(Clone, Copy, PartialEq, Eq, Debug)]
pub struct PixelMeta {
    /// False for buffer slots that have no physical pixel.
    pub is_valid: bool,
    /// Horizontal position across the whole display, 0..=255.
    pub x: u8,
    /// Vertical position, 0..=255.
    pub y: u8,
    /// Position of the pixel on its strip.
    pub index: usize,
    /// Which of the six letters the pixel belongs to.
    pub letter_id: usize,
}

pub open spec fn black() -> Rgb8 {
    Rgb8 { r: 0, g: 0, b: 0 }
}

/// A logical color in the strips' physical byte order (green and red swapped).
pub open spec fn fixed(r: u8, g: u8, b: u8) -> Rgb8 {
    Rgb8 { r: g, g: r, b }
}

/// Converts a logical color to the physical layout's byte order (GRB swapped).
pub fn rgb_fixed(r: u8, g: u8, b: u8) -> (c: Rgb8)
    ensures
        c == fixed(r, g, b),
{
    Rgb8 { r: g, g: r, b }
}

/// Weight of the `from` color: `256 - alpha`, saturating at 0.
pub open spec fn inverse_alpha(alpha: int) -> int {
    if alpha <= 256 {
        256 - alpha
    } else {
        0
    }
}

/// One channel of a fixed-point blend: `(from * (256 - alpha) + to * alpha) / 256`,
/// truncated to 8 bits.
pub open spec fn blend_channel_spec(from: u8, to: u8, alpha: int) -> u8 {
    ((from * inverse_alpha(alpha) + to * alpha) / 256) as u8
}

pub open spec fn blend_spec(from: Rgb8, to: Rgb8, alpha: int) -> Rgb8 {
    Rgb8 {
        r: blend_channel_spec(from.r, to.r, alpha),
        g: blend_channel_spec(from.g, to.g, alpha),
        b: blend_channel_spec(from.b, to.b, alpha),
    }
}

/// Whether blending `from` into `to` with `alpha` stays within 16-bit
/// intermediate arithmetic on every channel.
pub open spec fn blend_fits(from: Rgb8, to: Rgb8, alpha: int) -> bool {
    &&& from.r * inverse_alpha(alpha) + to.r * alpha <= 0xffff
    &&& from.g * inverse_alpha(alpha) + to.g * alpha <= 0xffff
    &&& from.b * inverse_alpha(alpha) + to.b * alpha <= 0xffff
}

/// Any alpha up to 256 blends without overflow.
pub proof fn lemma_blend_fits(from: Rgb8, to: Rgb8, alpha: int)
    requires
        0 <= alpha <= 256,
    ensures
        blend_fits(from, to, alpha),
{
    assert(from.r * (256 - alpha) + to.r * alpha <= 255 * 256) by (nonlinear_arith)
        requires
            from.r <= 255,
            to.r <= 255,
            0 <= alpha <= 256,
    ;
    assert(from.g * (256 - alpha) + to.g * alpha <= 255 * 256) by (nonlinear_arith)
        requires
            from.g <= 255,
            to.g <= 255,
            0 <= alpha <= 256,
    ;
    assert(from.b * (256 - alpha) + to.b * alpha <= 255 * 256) by (nonlinear_arith)
        requires
            from.b <= 255,
            to.b <= 255,
            0 <= alpha <= 256,
    ;
}

fn blend_channel(from: u8, to: u8, alpha: u16, inv_alpha: u16) -> (c: u8)
    requires
        inv_alpha == inverse_alpha(alpha as int),
        from * inverse_alpha(alpha as int) + to * alpha <= 0xffff,
    ensures
        c == blend_channel_spec(from, to, alpha as int),
{
    let v: u16 = (from as u16) * inv_alpha + (to as u16) * alpha;
    assert(v >> 8 == v / 256) by (bit_vector);
    (v >> 8) as u8
}

/// Fixed-point interpolation between two colors: `alpha` 0 gives `from`,
/// 256 gives `to`.
pub fn blend_rgb(from: Rgb8, to: Rgb8, alpha: u16) -> (c: Rgb8)
    requires
        blend_fits(from, to, alpha as int),
    ensures
        c == blend_spec(from, to, alpha as int),
{
    let inv_alpha = 256u16.saturating_sub(alpha);
    Rgb8 {
        r: blend_channel(from.r, to.r, alpha, inv_alpha),
        g: blend_channel(from.g, to.g, alpha, inv_alpha),
        b: blend_channel(from.b, to.b, alpha, inv_alpha),
    }
}

/// The blend's end points: alpha 0 is the first color, alpha 256 the second.
pub proof fn lemma_blend_end_points(from: Rgb8, to: Rgb8)
    ensures
        blend_spec(from, to, 0) == from,
        blend_spec(from, to, 256) == to,
{
}

/// `step` of 0..=63 scaled to 0..=255.
pub open spec fn fade_spec(step: int) -> u8 {
    ((step * 255) / 63) as u8
}

pub fn fade(step: u16) -> (v: u8)
    requires
        step <= 63,
    ensures
        v == fade_spec(step as int),
{
    ((step * 255) / 63) as u8
}

/// Red - white - blue - white - red around the 256 positions of the wheel.
pub open spec fn patriotic_wheel_spec(pos: u8) -> Rgb8 {
    let section = pos / 64;
    let step = (pos % 64) as int;
    if section == 0 {
        fixed(255, fade_spec(step), fade_spec(step))
    } else if section == 1 {
        fixed(fade_spec(63 - step), fade_spec(63 - step), 255)
    } else if section == 2 {
        fixed(fade_spec(step), fade_spec(step), 255)
    } else {
        fixed(255, fade_spec(63 - step), fade_spec(63 - step))
    }
}

pub fn patriotic_wheel(pos: u8) -> (c: Rgb8)
    ensures
        c == patriotic_wheel_spec(pos),
{
    let section = pos / 64;
    let step = (pos % 64) as u16;
    match section {
        0 => {
            let v = fade(step);
            rgb_fixed(255, v, v)
        },
        1 => {
            let v = fade(63 - step);
            rgb_fixed(v, v, 255)
        },
        2 => {
            let v = fade(step);
            rgb_fixed(v, v, 255)
        },
        _ => {
            let v = fade(63 - step);
            rgb_fixed(255, v, v)
        },
    }
}

/// The classic rainbow wheel, running backwards.
pub open spec fn wheel_spec(pos: u8) -> Rgb8 {
    let p = 255 - pos;
    if p < 85 {
        fixed((255 - p * 3) as u8, 0, (p * 3) as u8)
    } else if p < 170 {
        fixed(0, ((p - 85) * 3) as u8, (255 - (p - 85) * 3) as u8)
    } else {
        fixed(((p - 170) * 3) as u8, (255 - (p - 170) * 3) as u8, 0)
    }
}

pub fn wheel(pos: u8) -> (c: Rgb8)
    ensures
        c == wheel_spec(pos),
{
    let pos = 255u8.wrapping_sub(pos);
    if pos < 85 {
        rgb_fixed(255u8.wrapping_sub(pos * 3), 0, pos * 3)
    } else if pos < 170 {
        let pos = pos - 85;
        rgb_fixed(0, pos * 3, 255u8.wrapping_sub(pos * 3))
    } else {
        let pos = pos - 170;
        rgb_fixed(pos * 3, 255u8.wrapping_sub(pos * 3), 0)
    }
}

/// The base-layer color of a pixel.
pub open spec fn base_color(id: u8, offset: u8, params: DmxParams, meta: PixelMeta) -> Rgb8 {
    if !meta.is_valid {
        black()
    } else if id == 1 {
        patriotic_wheel_spec(meta.y.wrapping_add(offset))
    } else if id == 2 {
        wheel_spec(meta.x.wrapping_add(offset))
    } else if id == 3 {
        if (meta.index as u8).wrapping_mul(37).wrapping_add(offset) > 245 {
            fixed(params.r, params.g, params.b)
        } else {
            black()
        }
    } else if id == 4 {
        fixed(params.r, params.g, params.b)
    } else if id == 5 {
        if meta.letter_id == 0 || meta.letter_id == 5 {
            fixed(255, 0, 0)
        } else if meta.letter_id == 1 || meta.letter_id == 4 {
            fixed(255, 255, 255)
        } else if meta.letter_id == 2 || meta.letter_id == 3 {
            fixed(0, 0, 255)
        } else {
            black()
        }
    } else if id == 255 {
        if meta.index == params.speed as usize {
            fixed(255, 255, 255)
        } else {
            black()
        }
    } else {
        black()
    }
}

/// Base-layer color of a pixel for base effect `id` at animation `offset`:
/// 1 patriotic wheel over y, 2 rainbow wheel over x, 3 twinkle in the DMX
/// color, 4 solid DMX color, 5 fixed letter colors (red, white, blue,
/// mirrored), 255 lights only the pixel whose index is the speed value.
/// Unknown effects and invalid pixels are black.
pub fn render_base_effect(id: u8, offset: u8, params: &DmxParams, meta: &PixelMeta) -> (c: Rgb8)
    ensures
        c == base_color(id, offset, *params, *meta),
{
    if !meta.is_valid {
        return Rgb8 { r: 0, g: 0, b: 0 };
    }
    match id {
        1 => {
            let pos = meta.y.wrapping_add(offset);
            patriotic_wheel(pos)
        },
        2 => {
            let pos = meta.x.wrapping_add(offset);
            wheel(pos)
        },
        3 => {
            let pseudo_rand = (meta.index as u8).wrapping_mul(37).wrapping_add(offset);
            if pseudo_rand > 245 {
                rgb_fixed(params.r, params.g, params.b)
            } else {
                Rgb8 { r: 0, g: 0, b: 0 }
            }
        },
        4 => rgb_fixed(params.r, params.g, params.b),
        5 => match meta.letter_id {
            0 | 5 => rgb_fixed(255, 0, 0),
            1 | 4 => rgb_fixed(255, 255, 255),
            2 | 3 => rgb_fixed(0, 0, 255),
            _ => Rgb8 { r: 0, g: 0, b: 0 },
        },
        255 => {
            if meta.index == (params.speed as usize) {
                rgb_fixed(255, 255, 255)
            } else {
                Rgb8 { r: 0, g: 0, b: 0 }
            }
        },
        _ => Rgb8 { r: 0, g: 0, b: 0 },
    }
}

} // verus!

verus! {

/// Percentage of the background kept outside a beam.
pub const DIM_PERCENTAGE: u16 = 5;
/// Horizontal sweeps: full-brightness half-width, fade width, and the span
/// the beam center travels (it starts and ends off screen).
pub const HORIZ_BEAM_WIDTH: i32 = 25;
pub const HORIZ_FADE_RANGE: i32 = 20;
pub const HORIZ_MIN_X: i32 = -30;
pub const HORIZ_MAX_X: i32 = 285;
/// Vertical sweeps: full-brightness half-width and fade width.
pub const VERT_BEAM_WIDTH: i32 = 40;
pub const VERT_FADE_RANGE: i32 = 15;

pub open spec fn abs_spec(v: int) -> int {
    if v < 0 {
        -v
    } else {
        v
    }
}

/// The background kept at `DIM_PERCENTAGE` percent.
pub open spec fn dimmed_spec(bg: Rgb8) -> Rgb8 {
    Rgb8 {
        r: ((bg.r * 5) / 100) as u8,
        g: ((bg.g * 5) / 100) as u8,
        b: ((bg.b * 5) / 100) as u8,
    }
}

/// Position of the sweep beam's center at `frame`, spread over -30..=285.
pub open spec fn sweep_target(frame: u8) -> int {
    -30 + (frame * 315) / 255
}

/// A beam at distance `dist`: full color inside `width`, a fade over the
/// next `fade` positions, the dimmed background beyond.
pub open spec fn beam_color(bg: Rgb8, dist: int, width: int, fade: int) -> Rgb8 {
    if dist <= width {
        bg
    } else if dist <= width + fade {
        blend_spec(dimmed_spec(bg), bg, ((width + fade - dist) * 256) / fade)
    } else {
        dimmed_spec(bg)
    }
}

/// Letters lit at `step` of a letter chase: effect 8 runs outside-in, 9
/// inside-out; step 3 is a pause with no letter lit.
pub open spec fn chase_targeted(id: u8, step: int, letter: usize) -> bool {
    let outer = letter == 0 || letter == 5;
    let middle = letter == 1 || letter == 4;
    let inner = letter == 2 || letter == 3;
    if id == 8 {
        if step == 0 {
            outer
        } else if step == 1 {
            middle
        } else if step == 2 {
            inner
        } else {
            false
        }
    } else if id == 9 {
        if step == 0 {
            inner
        } else if step == 1 {
            middle
        } else if step == 2 {
            outer
        } else {
            false
        }
    } else {
        false
    }
}

/// Fade envelope inside one 64-frame chase step: ramp up over 25 frames,
/// hold, ramp down over the last 25.
pub open spec fn chase_time_fade(intra: int) -> int {
    if intra < 25 {
        (intra * 256) / 25
    } else if intra > 39 {
        ((64 - intra) * 256) / 25
    } else {
        256
    }
}

/// Blend weight of a targeted letter in a slow chase (speed below 50).
pub open spec fn chase_alpha(frame: u8, speed: u8) -> int {
    let speed_scalar = ((50 - speed) * 256) / 50;
    let a = (chase_time_fade((frame % 64) as int) * speed_scalar) / 256;
    if a < 0 {
        0
    } else if a > 255 {
        255
    } else {
        a
    }
}

/// The letter the strobe picks for the 16-frame period `tick`, from a
/// linear congruential generator.
pub open spec fn strobe_letter(tick: u8) -> u8 {
    let seed = (tick as u32).wrapping_add(1013904223u32).wrapping_mul(1664525u32).wrapping_add(
        1013904223u32,
    );
    (((seed >> 16u32) as u16) % 6) as u8
}

/// The top-layer color of a pixel over background `bg`.
pub open spec fn top_color(id: u8, frame: u8, bg: Rgb8, meta: PixelMeta, params: DmxParams) -> Rgb8 {
    let target = sweep_target(frame);
    let x = meta.x as int;
    let y = meta.y as int;
    if !meta.is_valid {
        black()
    } else if id == 1 {
        beam_color(bg, abs_spec(x - target), 25, 20)
    } else if id == 2 {
        beam_color(bg, abs_spec((255 - x) - target), 25, 20)
    } else if id == 3 {
        beam_color(bg, abs_spec(abs_spec(128 - x) - target), 25, 20)
    } else if id == 4 {
        beam_color(bg, abs_spec(abs_spec(x - 128) - target), 25, 20)
    } else if id == 5 {
        beam_color(bg, abs_spec(y - target), 40, 15)
    } else if id == 6 {
        beam_color(bg, abs_spec((255 - y) - target), 40, 15)
    } else if id == 7 {
        let tick = frame / 16;
        let is_match = meta.letter_id == strobe_letter(tick) as usize;
        let blackout = (frame / 8) % 2 != 0;
        let force_dark = params.speed > 120 && tick % 3 == 0;
        if is_match && !blackout && !force_dark {
            bg
        } else {
            black()
        }
    } else if id == 8 || id == 9 {
        let targeted = chase_targeted(id, (frame / 64) as int, meta.letter_id);
        if params.speed < 50 {
            if targeted {
                blend_spec(dimmed_spec(bg), bg, chase_alpha(frame, params.speed))
            } else {
                dimmed_spec(bg)
            }
        } else if targeted {
            bg
        } else {
            dimmed_spec(bg)
        }
    } else {
        bg
    }
}

fn abs_i32(v: i32) -> (a: i32)
    requires
        -1000 <= v <= 1000,
    ensures
        a == abs_spec(v as int),
{
    if v < 0 {
        -v
    } else {
        v
    }
}

fn beam(bg: Rgb8, dimmed_bg: Rgb8, dist: i32, width: i32, fade: i32) -> (c: Rgb8)
    requires
        dimmed_bg == dimmed_spec(bg),
        0 <= dist <= 1000,
        1 <= fade <= 100,
        0 <= width <= 100,
    ensures
        c == beam_color(bg, dist as int, width as int, fade as int),
{
    if dist <= width {
        bg
    } else if dist <= width + fade {
        let alpha = ((width + fade - dist) * 256) / fade;
        assert(0 <= alpha <= 256) by (nonlinear_arith)
            requires
                alpha as int == ((width + fade - dist) as int * 256) / (fade as int),
                1 <= fade,
                0 <= width + fade - dist < fade,
        ;
        proof {
            lemma_blend_fits(dimmed_bg, bg, alpha as int);
        }
        blend_rgb(dimmed_bg, bg, alpha as u16)
    } else {
        dimmed_bg
    }
}

fn strobe_pick(tick: u8) -> (letter: u8)
    ensures
        letter == strobe_letter(tick),
{
    let mut seed = (tick as u32).wrapping_add(1013904223);
    seed = seed.wrapping_mul(1664525).wrapping_add(1013904223);
    let random_val = (seed >> 16) as u16;
    (random_val % 6) as u8
}

fn targeted_letters(id: u8, step: u8, letter: usize) -> (b: bool)
    ensures
        b == chase_targeted(id, step as int, letter),
{
    match id {
        8 => match step {
            0 => letter == 0 || letter == 5,
            1 => letter == 1 || letter == 4,
            2 => letter == 2 || letter == 3,
            _ => false,
        },
        9 => match step {
            0 => letter == 2 || letter == 3,
            1 => letter == 1 || letter == 4,
            2 => letter == 0 || letter == 5,
            _ => false,
        },
        _ => false,
    }
}

fn chase_weight(frame: u8, speed: u8) -> (alpha: u16)
    requires
        speed < 50,
    ensures
        alpha == chase_alpha(frame, speed),
        alpha <= 255,
{
    let fade_threshold = 50u8;
    let intra_step = (frame % 64) as i32;
    let time_fade: i32 = if intra_step < 25 {
        (intra_step * 256) / 25
    } else if intra_step > 39 {
        ((64 - intra_step) * 256) / 25
    } else {
        256
    };
    assert(0 <= time_fade <= 256);
    let speed_scalar = (fade_threshold as i32 - speed as i32) * 256 / fade_threshold as i32;
    assert(0 <= speed_scalar <= 256);
    assert(0 <= time_fade * speed_scalar <= 256 * 256) by (nonlinear_arith)
        requires
            0 <= time_fade <= 256,
            0 <= speed_scalar <= 256,
    ;
    let product = time_fade * speed_scalar;
    assert(product >> 8 == product / 256) by (bit_vector)
        requires
            0 <= product,
    ;
    let scaled = product >> 8;
    let alpha = if scaled < 0 {
        0
    } else if scaled > 255 {
        255
    } else {
        scaled
    };
    alpha as u16
}

/// Top-layer color of a pixel for top effect `id` at `frame_counter`, drawn
/// over the base color `bg_color`: 1..=4 horizontal sweeps (left-right,
/// right-left, from the center out, toward the center), 5..=6 vertical
/// sweeps, 7 a random single-letter strobe, 8..=9 letter chases (outside-in
/// and inside-out, faded when `speed` is below 50). Outside a beam the
/// background stays at 5 percent. Other effects leave the background as it
/// is; invalid pixels are black.
pub fn apply_top_effect(
    id: u8,
    frame_counter: u8,
    bg_color: Rgb8,
    meta: &PixelMeta,
    params: &DmxParams,
) -> (c: Rgb8)
    ensures
        c == top_color(id, frame_counter, bg_color, *meta, *params),
{
    if !meta.is_valid {
        return Rgb8 { r: 0, g: 0, b: 0 };
    }
    let dim_percentage: u16 = DIM_PERCENTAGE;
    let dimmed_bg = Rgb8 {
        r: ((bg_color.r as u16 * dim_percentage) / 100) as u8,
        g: ((bg_color.g as u16 * dim_percentage) / 100) as u8,
        b: ((bg_color.b as u16 * dim_percentage) / 100) as u8,
    };
    let horiz_span = HORIZ_MAX_X - HORIZ_MIN_X;
    let target_pos = HORIZ_MIN_X + ((frame_counter as i32 * horiz_span) / 255);
    assert(-30 <= target_pos <= 285);
    match id {
        1 | 2 | 3 | 4 => {
            let x_val = meta.x as i32;
            let dist = match id {
                1 => abs_i32(x_val - target_pos),
                2 => abs_i32((255 - x_val) - target_pos),
                3 => abs_i32(abs_i32(128 - x_val) - target_pos),
                _ => abs_i32(abs_i32(x_val - 128) - target_pos),
            };
            beam(bg_color, dimmed_bg, dist, HORIZ_BEAM_WIDTH, HORIZ_FADE_RANGE)
        },
        5 | 6 => {
            let y_val = meta.y as i32;
            let dist = match id {
                5 => abs_i32(y_val - target_pos),
                _ => abs_i32((255 - y_val) - target_pos),
            };
            beam(bg_color, dimmed_bg, dist, VERT_BEAM_WIDTH, VERT_FADE_RANGE)
        },
        7 => {
            let ultra_slow_tick = frame_counter / 16;
            let target_letter = strobe_pick(ultra_slow_tick);
            let is_match = meta.letter_id == target_letter as usize;
            let is_blackout_interval = ((frame_counter / 8) % 2) != 0;
            let force_dark = if params.speed > 120 {
                (ultra_slow_tick % 3) == 0
            } else {
                false
            };
            if is_match && !is_blackout_interval && !force_dark {
                bg_color
            } else {
                Rgb8 { r: 0, g: 0, b: 0 }
            }
        },
        8 | 9 => {
            let fade_threshold = 50u8;
            let step = frame_counter / 64;
            let is_targeted = targeted_letters(id, step, meta.letter_id);
            if params.speed < fade_threshold {
                if is_targeted {
                    let alpha = chase_weight(frame_counter, params.speed);
                    proof {
                        lemma_blend_fits(dimmed_bg, bg_color, alpha as int);
                    }
                    blend_rgb(dimmed_bg, bg_color, alpha)
                } else {
                    dimmed_bg
                }
            } else {
                if is_targeted {
                    bg_color
                } else {
                    dimmed_bg
                }
            }
        },
        _ => bg_color,
    }
}

} // verus!

verus! {

/// How far letter `l` of the six is from the nearer end of the word: 0 for
/// the outer pair (0 and 5), 1 for the middle pair, 2 for the inner pair.
pub open spec fn edge_distance(l: int) -> int {
    if l <= 5 - l {
        l
    } else {
        5 - l
    }
}

/// Letter chases light one mirrored pair of letters per 64-frame step:
/// effect 8 from the outside in (step `k` lights the letters `k` away from
/// the ends), effect 9 from the inside out (step `k` lights the letters
/// `2 - k` away, what effect 8 lights at step `2 - k`), and step 3 lights
/// none. So each letter is lit in exactly one of steps 0 to 2.
pub proof fn lemma_chase_order(step: int, l: int)
    requires
        0 <= step < 4,
        0 <= l < 6,
    ensures
        0 <= edge_distance(l) <= 2,
        chase_targeted(8, step, l as usize) <==> step == edge_distance(l),
        chase_targeted(9, step, l as usize) <==> step == 2 - edge_distance(l),
        step < 3 ==> (chase_targeted(9, step, l as usize) <==> chase_targeted(8, 2 - step, l as usize)),
        chase_targeted(8, step, l as usize) == chase_targeted(8, step, (5 - l) as usize),
        chase_targeted(9, step, l as usize) == chase_targeted(9, step, (5 - l) as usize),
{
}

/// In a fast chase (speed 50 or more) a letter shows its full background
/// during the step that lights it, and 5 percent of it the rest of the
/// cycle: effect 8 lights it in step `edge_distance`, effect 9 in step
/// `2 - edge_distance`.
pub proof fn lemma_fast_chase_colors(frame: u8, bg: Rgb8, meta: PixelMeta, params: DmxParams)
    requires
        meta.is_valid,
        meta.letter_id < 6,
        params.speed >= 50,
    ensures
        top_color(8, frame, bg, meta, params) == if frame / 64 == edge_distance(
            meta.letter_id as int,
        ) {
            bg
        } else {
            dimmed_spec(bg)
        },
        top_color(9, frame, bg, meta, params) == if frame / 64 == 2 - edge_distance(
            meta.letter_id as int,
        ) {
            bg
        } else {
            dimmed_spec(bg)
        },
{
    lemma_chase_order((frame / 64) as int, meta.letter_id as int);
}

/// Base effect 5 colors every letter by its distance from the ends of the
/// word, so mirrored letters match and none is left dark: the outer pair
/// red, the middle pair white, the inner pair blue.
pub proof fn lemma_letter_colors(offset: u8, params: DmxParams, meta: PixelMeta)
    requires
        meta.is_valid,
        meta.letter_id < 6,
    ensures
        base_color(5, offset, params, meta) == if edge_distance(meta.letter_id as int) == 0 {
            fixed(255, 0, 0)
        } else if edge_distance(meta.letter_id as int) == 1 {
            fixed(255, 255, 255)
        } else {
            fixed(0, 0, 255)
        },
        base_color(5, offset, params, meta) == base_color(
            5,
            offset,
            params,
            PixelMeta { letter_id: (5 - meta.letter_id) as usize, ..meta },
        ),
        base_color(5, offset, params, meta) != black(),
{
}

} // verus!
