//! NeoPixel ports: how a port's frame is generated from DMX and how logical
//! RGBW pixels are reordered into the strip's wire order.

use vstd::prelude::*;

use crate::config::{color_order_perm, ColorOrder, EnabledPort, NeoMode, Port};
use crate::dmx::{read_channels, read_value, DmxMatrix};
use crate::effects::Rgb8;
use crate::MAX_PIXELS;

verus! {

/// One logical pixel: red, green, blue and white.
#[derive(Clone, Copy, PartialEq, Eq, Debug, Default)]
pub struct Rgbw8 {
    pub r: u8,
    pub g: u8,
    pub b: u8,
    pub w: u8,
}

/// A color order is a permutation of the logical channels: 3 or 4 distinct
/// indices, each naming one of the first `len` logical channels.
pub proof fn lemma_perm_is_permutation(order: ColorOrder)
    ensures
        color_order_perm(order).len() == 3 || color_order_perm(order).len() == 4,
        forall|i: int|
            0 <= i < color_order_perm(order).len() ==> color_order_perm(order)[i]
                < color_order_perm(order).len(),
        forall|i: int, j: int|
            0 <= i < j < color_order_perm(order).len() ==> color_order_perm(order)[i]
                != color_order_perm(order)[j],
{
}

/// The letters of a color order's name, in the order they are written.
pub open spec fn color_order_name(order: ColorOrder) -> Seq<char> {
    match order {
        ColorOrder::Rgb => seq!['R', 'G', 'B'],
        ColorOrder::Rbg => seq!['R', 'B', 'G'],
        ColorOrder::Grb => seq!['G', 'R', 'B'],
        ColorOrder::Gbr => seq!['G', 'B', 'R'],
        ColorOrder::Brg => seq!['B', 'R', 'G'],
        ColorOrder::Bgr => seq!['B', 'G', 'R'],
        ColorOrder::Rgbw => seq!['R', 'G', 'B', 'W'],
        ColorOrder::Grbw => seq!['G', 'R', 'B', 'W'],
    }
}

/// The logical channel a letter names: R red (0), G green (1), B blue (2),
/// W white (3).
pub open spec fn letter_channel(c: char) -> int {
    if c == 'R' {
        0
    } else if c == 'G' {
        1
    } else if c == 'B' {
        2
    } else {
        3
    }
}

/// A color order's wire bytes spell its name: wire byte `k` carries the
/// logical channel named by letter `k` of the order (so `Gbr` sends green,
/// blue, red), one byte per letter.
pub proof fn lemma_wire_order_spells_name(order: ColorOrder, led: Rgbw8)
    ensures
        color_order_perm(order).len() == color_order_name(order).len(),
        forall|k: int|
            0 <= k < color_order_name(order).len() ==> color_order_perm(order)[k] as int
                == letter_channel(#[trigger] color_order_name(order)[k]),
        wire_rgb_spec(led, order) == (Rgb8 {
            r: logical_channel(led, letter_channel(color_order_name(order)[0])),
            g: logical_channel(led, letter_channel(color_order_name(order)[1])),
            b: logical_channel(led, letter_channel(color_order_name(order)[2])),
        }),
        color_order_name(order).len() == 4 ==> wire_rgbw_spec(led, order) == (Rgbw8 {
            r: logical_channel(led, letter_channel(color_order_name(order)[0])),
            g: logical_channel(led, letter_channel(color_order_name(order)[1])),
            b: logical_channel(led, letter_channel(color_order_name(order)[2])),
            w: logical_channel(led, letter_channel(color_order_name(order)[3])),
        }),
{
}

/// Distinct color orders put the channels on the wire in distinct orders.
pub proof fn lemma_color_orders_distinct(a: ColorOrder, b: ColorOrder)
    requires
        a != b,
    ensures
        color_order_perm(a) != color_order_perm(b),
{
    let pa = color_order_perm(a);
    let pb = color_order_perm(b);
    if pa == pb {
        assert(pa.len() == pb.len());
        assert(pa[0] == pb[0] && pa[1] == pb[1] && pa[2] == pb[2]);
    }
}

/// Whether a port drives a 4-channel (RGBW) strip.
pub open spec fn four_channel_spec(port: Port) -> bool {
    match port {
        Port::Enabled(pc) => color_order_perm(pc.color_order).len() == 4,
        Port::Disabled { .. } => false,
    }
}

/// Whether a port drives a 4-channel (RGBW) strip: it does exactly when its
/// color order has four entries.
pub fn is_four_channel(port: Port) -> (b: bool)
    ensures
        b == four_channel_spec(port),
{
    match port {
        Port::Enabled(pc) => pc.color_order.perm().len() == 4,
        Port::Disabled { .. } => false,
    }
}

/// Logical channel `i` (0 = red, 1 = green, 2 = blue, 3 = white) of a pixel.
pub open spec fn logical_channel(led: Rgbw8, i: int) -> u8 {
    if i == 0 {
        led.r
    } else if i == 1 {
        led.g
    } else if i == 2 {
        led.b
    } else {
        led.w
    }
}

fn channel_of(led: Rgbw8, i: u8) -> (v: u8)
    ensures
        v == logical_channel(led, i as int),
{
    match i {
        0 => led.r,
        1 => led.g,
        2 => led.b,
        _ => led.w,
    }
}

/// The three wire bytes of a pixel on an RGB strip.
pub open spec fn wire_rgb_spec(led: Rgbw8, order: ColorOrder) -> Rgb8 {
    let p = color_order_perm(order);
    Rgb8 {
        r: logical_channel(led, p[0] as int),
        g: logical_channel(led, p[1] as int),
        b: logical_channel(led, p[2] as int),
    }
}

/// The four wire bytes of a pixel on an RGBW strip.
pub open spec fn wire_rgbw_spec(led: Rgbw8, order: ColorOrder) -> Rgbw8 {
    let p = color_order_perm(order);
    Rgbw8 {
        r: logical_channel(led, p[0] as int),
        g: logical_channel(led, p[1] as int),
        b: logical_channel(led, p[2] as int),
        w: logical_channel(led, p[3] as int),
    }
}

/// Reorders a logical pixel into the wire order of an RGB strip.
pub fn wire_rgb(led: Rgbw8, order: ColorOrder) -> (c: Rgb8)
    ensures
        c == wire_rgb_spec(led, order),
{
    let p = order.perm();
    Rgb8 { r: channel_of(led, p[0]), g: channel_of(led, p[1]), b: channel_of(led, p[2]) }
}

/// Reorders a logical pixel into the wire order of an RGBW strip.
pub fn wire_rgbw(led: Rgbw8, order: ColorOrder) -> (c: Rgbw8)
    requires
        color_order_perm(order).len() == 4,
    ensures
        c == wire_rgbw_spec(led, order),
{
    let p = order.perm();
    Rgbw8 {
        r: channel_of(led, p[0]),
        g: channel_of(led, p[1]),
        b: channel_of(led, p[2]),
        w: channel_of(led, p[3]),
    }
}

/// A whole frame in the wire order of an RGB strip.
pub fn wire_frame_rgb(leds: &[Rgbw8; MAX_PIXELS], order: ColorOrder) -> (out: [Rgb8; MAX_PIXELS])
    ensures
        forall|i: int| 0 <= i < MAX_PIXELS ==> out[i] == wire_rgb_spec(leds[i], order),
{
    let mut out = [Rgb8 { r: 0, g: 0, b: 0 }; MAX_PIXELS];
    let mut i: usize = 0;
    while i < MAX_PIXELS
        invariant
            i <= MAX_PIXELS,
            forall|j: int| 0 <= j < i ==> out[j] == wire_rgb_spec(leds[j], order),
        decreases MAX_PIXELS - i,
    {
        out[i] = wire_rgb(leds[i], order);
        i = i + 1;
    }
    out
}

/// A whole frame in the wire order of an RGBW strip.
pub fn wire_frame_rgbw(leds: &[Rgbw8; MAX_PIXELS], order: ColorOrder) -> (out: [Rgbw8; MAX_PIXELS])
    requires
        color_order_perm(order).len() == 4,
    ensures
        forall|i: int| 0 <= i < MAX_PIXELS ==> out[i] == wire_rgbw_spec(leds[i], order),
{
    let mut out = [Rgbw8 { r: 0, g: 0, b: 0, w: 0 }; MAX_PIXELS];
    let mut i: usize = 0;
    while i < MAX_PIXELS
        invariant
            i <= MAX_PIXELS,
            color_order_perm(order).len() == 4,
            forall|j: int| 0 <= j < i ==> out[j] == wire_rgbw_spec(leds[j], order),
        decreases MAX_PIXELS - i,
    {
        out[i] = wire_rgbw(leds[i], order);
        i = i + 1;
    }
    out
}

/// DMX address (universe, channel) of the `i`-th pixel of a raw port: pixels
/// take `bpp` consecutive channels and run on into the next universe past
/// channel 512.
pub open spec fn raw_pixel_address(universe: int, channel: int, bpp: int, i: nat) -> (int, int)
    decreases i,
{
    if i == 0 {
        (universe, channel)
    } else {
        let prev = raw_pixel_address(universe, channel, bpp, (i - 1) as nat);
        let next = prev.1 + bpp;
        if next > 512 {
            (prev.0 + 1, next - 512)
        } else {
            (prev.0, next)
        }
    }
}

/// The color a port's pixel `i` gets from the DMX store (solid and raw modes).
pub open spec fn dmx_pixel(m: DmxMatrix, port: EnabledPort, i: int) -> Rgbw8 {
    match port.mode {
        NeoMode::Raw => {
            let bpp = color_order_perm(port.color_order).len() as int;
            let a = raw_pixel_address(port.universe as int, port.start_channel as int, bpp, i as nat);
            Rgbw8 {
                r: read_value(m, a.0, a.1, 0),
                g: read_value(m, a.0, a.1, 1),
                b: read_value(m, a.0, a.1, 2),
                w: if bpp >= 4 {
                    read_value(m, a.0, a.1, 3)
                } else {
                    0
                },
            }
        },
        _ => {
            let (u, c) = (port.universe as int, port.start_channel as int);
            Rgbw8 {
                r: read_value(m, u, c, 0),
                g: read_value(m, u, c, 1),
                b: read_value(m, u, c, 2),
                w: read_value(m, u, c, 3),
            }
        },
    }
}

/// Number of pixels of a port that are generated.
pub open spec fn pixel_limit(port: EnabledPort) -> int {
    if port.pixel_count < MAX_PIXELS {
        port.pixel_count as int
    } else {
        MAX_PIXELS as int
    }
}

/// Fills the first `pixel_count` pixels (at most `MAX_PIXELS`) of a port's
/// frame from DMX, as logical RGBW: solid mode paints them all with the four
/// channels at the start address; raw mode reads each pixel from its own
/// channels (3 or 4 per pixel, by color order; white is 0 on 3-channel
/// strips). Pixels past the count keep their values, and so does the whole
/// frame of a port in 2D-generator mode, which is not drawn from DMX.
pub fn generate_from_dmx(port: EnabledPort, matrix: &DmxMatrix, leds: &mut [Rgbw8; MAX_PIXELS])
    ensures
        forall|i: int|
            0 <= i < MAX_PIXELS ==> final(leds)[i] == if port.mode != NeoMode::Generator2D && i
                < pixel_limit(port) {
                dmx_pixel(*matrix, port, i)
            } else {
                old(leds)[i]
            },
{
    let count = if port.pixel_count < MAX_PIXELS {
        port.pixel_count
    } else {
        MAX_PIXELS
    };
    match port.mode {
        NeoMode::Raw => {
            let bytes_per_pixel = port.color_order.perm().len();
            let mut universe = port.universe as usize;
            let mut channel = port.start_channel as usize;
            let mut i: usize = 0;
            while i < count
                invariant
                    count == pixel_limit(port),
                    count <= MAX_PIXELS,
                    port.mode == NeoMode::Raw,
                    bytes_per_pixel == color_order_perm(port.color_order).len(),
                    bytes_per_pixel <= 4,
                    i <= count,
                    universe <= port.universe + i,
                    channel <= 0xffff + 4,
                    (universe as int, channel as int) == raw_pixel_address(
                        port.universe as int,
                        port.start_channel as int,
                        bytes_per_pixel as int,
                        i as nat,
                    ),
                    forall|j: int|
                        0 <= j < MAX_PIXELS ==> leds[j] == if j < i {
                            dmx_pixel(*matrix, port, j)
                        } else {
                            old(leds)[j]
                        },
                decreases count - i,
            {
                let px: [u8; 4] = read_channels::<4>(matrix, universe, channel);
                leds[i] = Rgbw8 {
                    r: px[0],
                    g: px[1],
                    b: px[2],
                    w: if bytes_per_pixel >= 4 {
                        px[3]
                    } else {
                        0
                    },
                };
                channel = channel + bytes_per_pixel;
                if channel > 512 {
                    channel = channel - 512;
                    universe = universe + 1;
                }
                i = i + 1;
            }
        },
        NeoMode::Generator2D => {},
        NeoMode::SolidColor => {
            let ch: [u8; 4] = read_channels::<4>(
                matrix,
                port.universe as usize,
                port.start_channel as usize,
            );
            let color = Rgbw8 { r: ch[0], g: ch[1], b: ch[2], w: ch[3] };
            let mut i: usize = 0;
            while i < count
                invariant
                    count == pixel_limit(port),
                    count <= MAX_PIXELS,
                    port.mode == NeoMode::SolidColor,
                    color == dmx_pixel(*matrix, port, 0),
                    i <= count,
                    forall|j: int|
                        0 <= j < MAX_PIXELS ==> leds[j] == if j < i {
                            dmx_pixel(*matrix, port, j)
                        } else {
                            old(leds)[j]
                        },
                decreases count - i,
            {
                leds[i] = color;
                i = i + 1;
            }
        },
    }
}

} // verus!
