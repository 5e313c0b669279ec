use vstd::prelude::*;

verus! {

use crate::driver::{Pcd8544Backend, Pcd8544Driver};
use crate::numeric::{bit_of, div_floor, lemma_pack_bits, tdiv};
use crate::trig::{SINE_MAX, dist_of_sq, distance, lemma_sin_bounds, sin, spec_sin};

/// One full frame in the buffer's native layout: for each of the 84 columns,
/// its six row bytes in order (column-major, vertical strips).
pub type Buffer = [u8; 504];

/// A frame with every pixel off.
pub fn empty_buffer() -> (r: Buffer)
    ensures
        forall|i: int| 0 <= i < 504 ==> r@[i] == 0u8,
{
    [0u8; 504]
}

/// Radial deformation shader: a sine- and time-driven scale factor remaps
/// each pixel, and the pixel is lit by a checkerboard test on one low bit of
/// the remapped coordinates.
pub open spec fn spec_deform(px: i32, py: i32, t: i32) -> bool {
    let r2: int = 1 + (((0x1400000 + spec_sin(90 + 4 * t)) / 8192) * (px * px + py * py)) / 256;
    let x: int = tdiv(px * 65536, r2) + 4 * t;
    let y: int = tdiv(py * 65536, r2) + 4 * t;
    (((x as i32) & 0x80) + ((y as i32) & 0x80)) as i32 & 0x80 > 0
}

/// Pulsing lens-like distortion over time.
pub fn deform_1_z(px: i32, py: i32, t: i32) -> (r: bool)
    requires
        -42 <= px < 42,
        -24 <= py < 24,
        -100000000 <= t <= 100000000,
    ensures
        r == spec_deform(px, py, t),
{
    proof {
        lemma_sin_bounds(90 + 4 * t);
        assert(0 <= px * px <= 1764) by (nonlinear_arith)
            requires
                -42 <= px < 42,
        ;
        assert(0 <= py * py <= 576) by (nonlinear_arith)
            requires
                -24 <= py < 24,
        ;
    }
    let s: i32 = sin(90 + t * 4);
    let a: i32 = 0x1400000 + s;
    let q: i32 = a / 8192;
    let p2: i32 = px * px + py * py;
    proof {
        assert(0 <= q * p2 <= 4608 * 2340) by (nonlinear_arith)
            requires
                0 <= q <= 4608,
                0 <= p2 <= 2340,
        ;
    }
    let scaled: i32 = q * p2 / 256;
    let r2: i32 = 1 + scaled;
    let x: i32 = px * 65536 / r2 + t * 4;
    let y: i32 = py * 65536 / r2 + t * 4;
    let xa: i32 = x & 0x80;
    let ya: i32 = y & 0x80;
    proof {
        assert(x & 0x80 == 0 || x & 0x80 == 0x80) by (bit_vector);
        assert(y & 0x80 == 0 || y & 0x80 == 0x80) by (bit_vector);
    }
    ((xa + ya) & 0x80) > 0
}

/// Two-source interference shader: two sine-driven moving sources, a
/// quantized ring index around each, and a pixel lit where the ring
/// parities differ.
pub open spec fn spec_interference(px: i32, py: i32, t: i32) -> bool {
    let x1: int = spec_sin(13 * t + 49) / 1048576;
    let y1: int = (5 * spec_sin(7 * t - 15)) / 4194304;
    let x2: int = (-3 * spec_sin(11 * t + 120)) / 2097152;
    let y2: int = -y1;
    let c1: bool = dist_of_sq((px - x1) * (px - x1) + (py - y1) * (py - y1)) / 8 % 2 == 0;
    let c2: bool = dist_of_sq((px - x2) * (px - x2) + (py - y2) * (py - y2)) / 8 % 2 == 0;
    c1 != c2
}

/// Moving interference fringes.
#[verifier::rlimit(100)]
pub fn interference(px: i32, py: i32, t: i32) -> (r: bool)
    requires
        -42 <= px < 42,
        -24 <= py < 24,
        -100000000 <= t <= 100000000,
    ensures
        r == spec_interference(px, py, t),
{
    proof {
        lemma_sin_bounds(13 * t + 49);
        lemma_sin_bounds(7 * t - 15);
        lemma_sin_bounds(11 * t + 120);
    }
    let x1: i32 = div_floor(sin(13 * t + 49), 1048576);
    let y1: i32 = div_floor(5 * sin(7 * t - 15), 4194304);
    let x2: i32 = div_floor(-3 * sin(11 * t + 120), 2097152);
    let y2: i32 = -y1;
    let d1: i32 = distance(px - x1, py - y1);
    let d2: i32 = distance(px - x2, py - y2);
    let c1: bool = d1 / 8 % 2 == 0;
    let c2: bool = d2 / 8 % 2 == 0;
    c1 != c2
}

/// The escape-time recurrence: `true` when the orbit stays within the escape
/// radius for another `n` steps.  Coordinates are fixed point with 8
/// fractional bits; the squaring step's right shifts round toward negative
/// infinity, as the hardware shift does.
pub open spec fn spec_mandel_iter(x: int, y: int, cx: int, cy: int, n: nat) -> bool
    decreases n,
{
    if n == 0 {
        true
    } else if x * x + y * y > 262144 {
        false
    } else {
        spec_mandel_iter((x * x - y * y) / 256 + cx, (2 * x * y) / 256 + cy, cx, cy, (n - 1) as nat)
    }
}

/// Iteration budget per time step: few iterations early, more as the zoom
/// deepens.
pub open spec fn spec_mandel_iters(t: int) -> nat {
    if 0 <= t <= 6 {
        15
    } else if 8 <= t <= 26 {
        (10 + t) as nat
    } else {
        50
    }
}

/// Escape-time classification of one pixel at one time step: past the last
/// step everything counts as inside; otherwise the pixel maps to a
/// fixed-point point in the plane, the two largest bulbs are recognized by
/// closed-form inequalities, and the rest iterate under the time-dependent
/// budget.
pub open spec fn spec_mandel(px: int, py: int, t: int) -> bool {
    if t >= 32 {
        true
    } else {
        let zoom: int = 32 - t;
        let cx: int = tdiv(zoom * px, 2) - 280;
        let cy: int = tdiv(zoom * py, 2);
        let q: int = (cx - 64) * (cx - 64) + cy * cy;
        if q == 0 || tdiv(q, 256) + cx - 64 < tdiv(64 * cy * cy, q) {
            true
        } else if (cx + 256) * (cx + 256) + cy * cy < 4096 {
            true
        } else {
            spec_mandel_iter(0, 0, cx, cy, spec_mandel_iters(t))
        }
    }
}

/// On the final frame (the maximum time step) every pixel is inside: the
/// defined boundary behaviour of the zoom's last step.
pub proof fn lemma_mandel_last_frame(px: int, py: int)
    ensures
        spec_mandel(px, py, 32),
{
}

/// Escape-time test for one pixel of the zooming fractal.
pub fn mandelbrot_zoom(px: i32, py: i32, t: i32) -> (r: bool)
    requires
        t >= 32 || (0 <= t && -64 <= px <= 64 && 0 <= py <= 32),
    ensures
        r == spec_mandel(px as int, py as int, t as int),
{
    let max_t: i32 = 32;
    if t >= max_t {
        return true;
    }
    let zoom: i32 = max_t - t;
    proof {
        assert(-2048 <= zoom * px <= 2048) by (nonlinear_arith)
            requires
                1 <= zoom <= 32,
                -64 <= px <= 64,
        ;
        assert(0 <= zoom * py <= 1024) by (nonlinear_arith)
            requires
                1 <= zoom <= 32,
                0 <= py <= 32,
        ;
    }
    let cx: i32 = zoom * px / 2 - 280;
    let cy: i32 = zoom * py / 2;
    let qa: i32 = cx - 64;
    proof {
        assert(0 <= qa * qa <= 1871424) by (nonlinear_arith)
            requires
                -1368 <= qa <= 680,
        ;
        assert(0 <= cy * cy <= 262144) by (nonlinear_arith)
            requires
                0 <= cy <= 512,
        ;
        assert(0 <= 64 * cy * cy <= 16777216) by (nonlinear_arith)
            requires
                0 <= cy <= 512,
        ;
    }
    let q: i32 = qa * qa + cy * cy;
    if q == 0 || q / 256 + cx - 64 < 64 * cy * cy / q {
        return true;
    }
    let qb: i32 = cx + 256;
    proof {
        assert(0 <= qb * qb <= 1098304) by (nonlinear_arith)
            requires
                -1048 <= qb <= 1000,
        ;
    }
    if qb * qb + cy * cy < 4096 {
        return true;
    }
    let iterations: i32 = if t <= 6 {
        15
    } else if 8 <= t && t <= 26 {
        10 + t
    } else {
        50
    };
    let ghost n0: nat = spec_mandel_iters(t as int);
    let mut x: i32 = 0;
    let mut y: i32 = 0;
    let mut i: i32 = 0;
    while i < iterations
        invariant
            0 <= i <= iterations,
            iterations == n0,
            -2500 <= x <= 2500,
            -2500 <= y <= 2500,
            -1304 <= cx <= 744,
            0 <= cy <= 512,
            spec_mandel(px as int, py as int, t as int) == spec_mandel_iter(
                x as int,
                y as int,
                cx as int,
                cy as int,
                (n0 - i) as nat,
            ),
        decreases iterations - i,
    {
        proof {
            assert(0 <= x * x <= 6250000 && 0 <= y * y <= 6250000) by (nonlinear_arith)
                requires
                    -2500 <= x <= 2500,
                    -2500 <= y <= 2500,
            ;
        }
        if x * x + y * y > 262144 {
            proof {
                assert(spec_mandel_iter(x as int, y as int, cx as int, cy as int, (n0 - i) as nat)
                    == false);
            }
            return false;
        }
        proof {
            assert(x * x <= 262144 && y * y <= 262144 && -262144 <= 2 * x * y <= 262144)
                by (nonlinear_arith)
                requires
                    -2500 <= x <= 2500,
                    -2500 <= y <= 2500,
                    x * x + y * y <= 262144,
            ;
        }
        let ghost rem: nat = (n0 - i) as nat;
        let ghost xi: int = x as int;
        let ghost yi: int = y as int;
        let xtemp: i32 = div_floor(x * x - y * y, 256) + cx;
        y = div_floor(2 * x * y, 256) + cy;
        x = xtemp;
        i = i + 1;
        proof {
            assert(spec_mandel_iter(xi, yi, cx as int, cy as int, rem) == spec_mandel_iter(
                x as int,
                y as int,
                cx as int,
                cy as int,
                (rem - 1) as nat,
            ));
        }
    }
    proof {
        assert(spec_mandel_iter(x as int, y as int, cx as int, cy as int, (n0 - i) as nat)
            == true);
    }
    true
}


/// Packs eight pixel decisions into one byte, least significant bit first.
fn pack8(c0: bool, c1: bool, c2: bool, c3: bool, c4: bool, c5: bool, c6: bool, c7: bool) -> (b: u8)
    ensures
        bit_of(b, 0) == c0,
        bit_of(b, 1) == c1,
        bit_of(b, 2) == c2,
        bit_of(b, 3) == c3,
        bit_of(b, 4) == c4,
        bit_of(b, 5) == c5,
        bit_of(b, 6) == c6,
        bit_of(b, 7) == c7,
{
    let v0: u8 = if c0 { 1 } else { 0 };
    let v1: u8 = if c1 { 1 } else { 0 };
    let v2: u8 = if c2 { 1 } else { 0 };
    let v3: u8 = if c3 { 1 } else { 0 };
    let v4: u8 = if c4 { 1 } else { 0 };
    let v5: u8 = if c5 { 1 } else { 0 };
    let v6: u8 = if c6 { 1 } else { 0 };
    let v7: u8 = if c7 { 1 } else { 0 };
    let b: u8 = v0 + 2 * v1 + 4 * v2 + 8 * v3 + 16 * v4 + 32 * v5 + 64 * v6 + 128 * v7;
    proof {
        lemma_pack_bits(v0, v1, v2, v3, v4, v5, v6, v7);
    }
    b
}

/// The shader contract for one packed byte: bit `j` of the byte at
/// `6 * col + row` is a result the shader admits for the pixel at
/// `(col - 42, 8 * (row - 3) + j)`.
pub open spec fn shader_byte_ok<F: Fn(i32, i32, i32) -> bool>(
    f: F,
    t: i32,
    col: int,
    row: int,
    byte: u8,
) -> bool {
    shader_byte_ok_body(f, t, col, row, byte)
}

/// The shader contract for a whole packed frame, byte by byte.
pub open spec fn shader_frame_ok<F: Fn(i32, i32, i32) -> bool>(f: F, t: i32, buf: Seq<u8>) -> bool {
    forall|i: int| 0 <= i < 504 ==> shader_byte_ok(f, t, i / 6, i % 6, #[trigger] buf[i])
}

#[verifier::inline]
pub open spec fn shader_byte_ok_body<F: Fn(i32, i32, i32) -> bool>(
    f: F,
    t: i32,
    col: int,
    row: int,
    byte: u8,
) -> bool {
    forall|j: int|
        0 <= j < 8 ==> call_ensures(
            f,
            (((col - 42) as i32), ((8 * (row - 3) + j) as i32), t),
            #[trigger] bit_of(byte, j as u8),
        )
}

/// Evaluates a pixel shader over the whole 84x48 grid (centred coordinates,
/// `-42..42` across and `-24..24` down) and packs the result into a frame,
/// 8 vertical pixels per byte in the buffer's column-major layout.
pub fn apply_shader<F: Fn(i32, i32, i32) -> bool>(buffer: &mut Buffer, t: i32, f: F)
    requires
        forall|x: i32, y: i32|
            -42 <= x < 42 && -24 <= y < 24 ==> call_requires(f, (x, y, t)),
    ensures
        shader_frame_ok(f, t, final(buffer)@),
{
    let mut col: usize = 0;
    while col < 84
        invariant
            col <= 84,
            forall|x: i32, y: i32|
                -42 <= x < 42 && -24 <= y < 24 ==> call_requires(f, (x, y, t)),
            forall|i: int|
                0 <= i < 6 * col ==> shader_byte_ok(f, t, i / 6, i % 6, #[trigger] buffer@[i]),
        decreases 84 - col,
    {
        let x: i32 = col as i32 - 42;
        let mut row: usize = 0;
        while row < 6
            invariant
                col < 84,
                row <= 6,
                x == col - 42,
                forall|xq: i32, yq: i32|
                    -42 <= xq < 42 && -24 <= yq < 24 ==> call_requires(f, (xq, yq, t)),
                forall|i: int|
                    0 <= i < 6 * col + row ==> shader_byte_ok(
                        f,
                        t,
                        i / 6,
                        i % 6,
                        #[trigger] buffer@[i],
                    ),
            decreases 6 - row,
    {
            let yb: i32 = 8 * (row as i32 - 3);
            let c0: bool = f(x, yb + 0, t);
            let c1: bool = f(x, yb + 1, t);
            let c2: bool = f(x, yb + 2, t);
            let c3: bool = f(x, yb + 3, t);
            let c4: bool = f(x, yb + 4, t);
            let c5: bool = f(x, yb + 5, t);
            let c6: bool = f(x, yb + 6, t);
            let c7: bool = f(x, yb + 7, t);
            let byte: u8 = pack8(c0, c1, c2, c3, c4, c5, c6, c7);
            buffer[6 * col + row] = byte;
            proof {
                let k: int = 6 * (col as int) + row as int;
                assert(k / 6 == col as int && k % 6 == row as int) by (nonlinear_arith)
                    requires
                        0 <= row < 6,
                        0 <= col,
                        k == 6 * (col as int) + row as int,
                ;
                assert(shader_byte_ok(f, t, k / 6, k % 6, buffer@[k]));
            }
            row = row + 1;
        }
        col = col + 1;
    }
}

/// Runs a shader over a range of time steps, drawing every frame; the
/// returned buffer is the last frame drawn (all blank for an empty range).
pub fn run_shader<B: Pcd8544Backend, F: Fn(i32, i32, i32) -> bool + Copy>(
    pcd8544: &mut Pcd8544Driver<B>,
    t_range: core::ops::Range<i32>,
    f: F,
) -> (r: Buffer)
    requires
        old(pcd8544).wf(),
        forall|x: i32, y: i32, t: i32|
            -42 <= x < 42 && -24 <= y < 24 && t_range.start <= t < t_range.end ==> call_requires(
                f,
                (x, y, t),
            ),
    ensures
        final(pcd8544).wf(),
        final(pcd8544).contrast_cmd() == old(pcd8544).contrast_cmd(),
        t_range.start < t_range.end ==> {
            &&& final(pcd8544).shadow() == r@
            &&& final(pcd8544).col() == 0
            &&& final(pcd8544).row() == 0
            &&& shader_frame_ok(f, (t_range.end - 1) as i32, r@)
        },
        t_range.start >= t_range.end ==> {
            &&& final(pcd8544).shadow() == old(pcd8544).shadow()
            &&& final(pcd8544).col() == old(pcd8544).col()
            &&& final(pcd8544).row() == old(pcd8544).row()
            &&& (forall|i: int| 0 <= i < 504 ==> r@[i] == 0u8)
        },
{
    let mut buffer = empty_buffer();
    let start: i32 = t_range.start;
    let end: i32 = t_range.end;
    let mut t: i32 = start;
    while t < end
        invariant
            start <= t <= end || (t == start && start >= end),
            pcd8544.wf(),
            pcd8544.contrast_cmd() == old(pcd8544).contrast_cmd(),
            forall|x: i32, y: i32, tq: i32|
                -42 <= x < 42 && -24 <= y < 24 && start <= tq < end ==> call_requires(
                    f,
                    (x, y, tq),
                ),
            start < t ==> {
                &&& pcd8544.shadow() == buffer@
                &&& pcd8544.col() == 0
                &&& pcd8544.row() == 0
                &&& shader_frame_ok(f, (t - 1) as i32, buffer@)
            },
            t == start ==> {
                &&& pcd8544.shadow() == old(pcd8544).shadow()
                &&& pcd8544.col() == old(pcd8544).col()
                &&& pcd8544.row() == old(pcd8544).row()
                &&& (forall|i: int| 0 <= i < 504 ==> buffer@[i] == 0u8)
            },
        decreases end - t,
    {
        apply_shader(&mut buffer, t, f);
        pcd8544.draw_buffer(&buffer);
        t = t + 1;
    }
    buffer
}

/// Bit `j` of the fractal frame's byte at `(col, row)`.  Each column is
/// assembled from one 25-pixel strip computed for the lower half; the upper
/// band mirrors it through the set's symmetry about the real axis, with the
/// bit order reversed by the packing pass.
pub open spec fn mandel_bit(col: int, row: int, j: int, t: int) -> bool {
    if row < 3 {
        spec_mandel(col - 42, 1 + (2 - row) * 8 + (7 - j), t)
    } else {
        spec_mandel(col - 42, (row - 3) * 8 + j, t)
    }
}

/// The fractal frame's byte at `(col, row)`, its eight bits packed least
/// significant first.
pub open spec fn mandel_byte(col: int, row: int, t: int) -> u8 {
    ((if mandel_bit(col, row, 0, t) { 1int } else { 0int }) + (if mandel_bit(col, row, 1, t) {
        2int
    } else {
        0int
    }) + (if mandel_bit(col, row, 2, t) { 4int } else { 0int }) + (if mandel_bit(col, row, 3, t) {
        8int
    } else {
        0int
    }) + (if mandel_bit(col, row, 4, t) { 16int } else { 0int }) + (if mandel_bit(col, row, 5, t) {
        32int
    } else {
        0int
    }) + (if mandel_bit(col, row, 6, t) { 64int } else { 0int }) + (if mandel_bit(col, row, 7, t) {
        128int
    } else {
        0int
    })) as u8
}

/// The whole fractal frame at time step `t`, in the buffer's column-major
/// layout.
pub open spec fn mandel_frame(t: int) -> Seq<u8> {
    Seq::new(504, |i: int| mandel_byte(i / 6, i % 6, t))
}

/// One byte of the fractal frame equals the weighted sum of its bits.
proof fn lemma_mandel_byte_from_bits(col: int, row: int, t: int, byte: u8)
    requires
        forall|j: int| 0 <= j < 8 ==> bit_of(byte, j as u8) == mandel_bit(col, row, j, t),
    ensures
        byte == mandel_byte(col, row, t),
{
    crate::numeric::lemma_byte_from_bits(byte);
    assert(bit_of(byte, 0) == mandel_bit(col, row, 0, t));
    assert(bit_of(byte, 1) == mandel_bit(col, row, 1, t));
    assert(bit_of(byte, 2) == mandel_bit(col, row, 2, t));
    assert(bit_of(byte, 3) == mandel_bit(col, row, 3, t));
    assert(bit_of(byte, 4) == mandel_bit(col, row, 4, t));
    assert(bit_of(byte, 5) == mandel_bit(col, row, 5, t));
    assert(bit_of(byte, 6) == mandel_bit(col, row, 6, t));
    assert(bit_of(byte, 7) == mandel_bit(col, row, 7, t));
}

/// Runs the fractal zoom over its 32 time steps, drawing every frame; the
/// last frame (time step 31) is what remains on the screen and in the
/// shadow buffer.
pub fn run_optimized_mandelbrot<B: Pcd8544Backend>(pcd8544: &mut Pcd8544Driver<B>)
    requires
        old(pcd8544).wf(),
    ensures
        final(pcd8544).wf(),
        final(pcd8544).contrast_cmd() == old(pcd8544).contrast_cmd(),
        final(pcd8544).shadow() == mandel_frame(31),
        final(pcd8544).col() == 0,
        final(pcd8544).row() == 0,
{
    let mut buffer = empty_buffer();
    let mut t: i32 = 0;
    while t < 32
        invariant
            0 <= t <= 32,
            pcd8544.wf(),
            pcd8544.contrast_cmd() == old(pcd8544).contrast_cmd(),
            t > 0 ==> {
                &&& pcd8544.shadow() == mandel_frame(t - 1)
                &&& pcd8544.col() == 0
                &&& pcd8544.row() == 0
            },
        decreases 32 - t,
    {
        let mut col: usize = 0;
        while col < 84
            invariant
                col <= 84,
                0 <= t < 32,
                forall|i: int|
                    0 <= i < 6 * col ==> #[trigger] buffer@[i] == mandel_byte(
                        i / 6,
                        i % 6,
                        t as int,
                    ),
            decreases 84 - col,
        {
            let x: i32 = col as i32 - 42;
            let mut pixels: [bool; 25] = [false; 25];
            let mut yy: usize = 0;
            while yy < 25
                invariant
                    yy <= 25,
                    col < 84,
                    x == col - 42,
                    0 <= t < 32,
                    forall|k: int|
                        0 <= k < yy ==> #[trigger] pixels@[k] == spec_mandel(
                            x as int,
                            k,
                            t as int,
                        ),
                decreases 25 - yy,
            {
                let p: bool = mandelbrot_zoom(x, yy as i32, t);
                pixels[yy] = p;
                yy = yy + 1;
            }
            // the upper three rows: mirrored strip, reversed bit order
            let mut row: usize = 0;
            while row < 3
                invariant
                    row <= 3,
                    col < 84,
                    x == col - 42,
                    0 <= t < 32,
                    forall|k: int|
                        0 <= k < 25 ==> #[trigger] pixels@[k] == spec_mandel(x as int, k, t as int),
                    forall|i: int|
                        0 <= i < 6 * col ==> #[trigger] buffer@[i] == mandel_byte(
                            i / 6,
                            i % 6,
                            t as int,
                        ),
                    forall|i: int|
                        6 * col <= i < 6 * col + row ==> #[trigger] buffer@[i] == mandel_byte(
                            i / 6,
                            i % 6,
                            t as int,
                        ),
                decreases 3 - row,
            {
                let base: usize = 1 + (2 - row) * 8;
                let byte: u8 = pack8(
                    pixels[base + 7],
                    pixels[base + 6],
                    pixels[base + 5],
                    pixels[base + 4],
                    pixels[base + 3],
                    pixels[base + 2],
                    pixels[base + 1],
                    pixels[base],
                );
                buffer[6 * col + row] = byte;
                proof {
                    let k: int = 6 * (col as int) + row as int;
                    assert(k / 6 == col as int && k % 6 == row as int) by (nonlinear_arith)
                        requires
                            0 <= row < 6,
                            0 <= col,
                            k == 6 * (col as int) + row as int,
                    ;
                    lemma_mandel_byte_from_bits(col as int, row as int, t as int, byte);
                }
                row = row + 1;
            }
            // the lower three rows: direct strip, natural bit order
            let mut row: usize = 3;
            while row < 6
                invariant
                    3 <= row <= 6,
                    col < 84,
                    x == col - 42,
                    0 <= t < 32,
                    forall|k: int|
                        0 <= k < 25 ==> #[trigger] pixels@[k] == spec_mandel(x as int, k, t as int),
                    forall|i: int|
                        0 <= i < 6 * col ==> #[trigger] buffer@[i] == mandel_byte(
                            i / 6,
                            i % 6,
                            t as int,
                        ),
                    forall|i: int|
                        6 * col <= i < 6 * col + row ==> #[trigger] buffer@[i] == mandel_byte(
                            i / 6,
                            i % 6,
                            t as int,
                        ),
                decreases 6 - row,
            {
                let base: usize = (row - 3) * 8;
                let byte: u8 = pack8(
                    pixels[base],
                    pixels[base + 1],
                    pixels[base + 2],
                    pixels[base + 3],
                    pixels[base + 4],
                    pixels[base + 5],
                    pixels[base + 6],
                    pixels[base + 7],
                );
                buffer[6 * col + row] = byte;
                proof {
                    let k: int = 6 * (col as int) + row as int;
                    assert(k / 6 == col as int && k % 6 == row as int) by (nonlinear_arith)
                        requires
                            0 <= row < 6,
                            0 <= col,
                            k == 6 * (col as int) + row as int,
                    ;
                    lemma_mandel_byte_from_bits(col as int, row as int, t as int, byte);
                }
                row = row + 1;
            }
            col = col + 1;
        }
        proof {
            assert(buffer@ =~= mandel_frame(t as int));
        }
        pcd8544.draw_buffer(&buffer);
        t = t + 1;
    }
}

/// Holds the given still frame on the screen for a stretch of draw calls,
/// the interlude between two animations.
fn hold_frame<B: Pcd8544Backend>(pcd8544: &mut Pcd8544Driver<B>, frame: &Buffer)
    requires
        old(pcd8544).wf(),
    ensures
        final(pcd8544).wf(),
        final(pcd8544).contrast_cmd() == old(pcd8544).contrast_cmd(),
        final(pcd8544).shadow() == frame@,
        final(pcd8544).col() == 0,
        final(pcd8544).row() == 0,
{
    let mut j: u32 = 0;
    while j < 24
        invariant
            pcd8544.wf(),
            pcd8544.contrast_cmd() == old(pcd8544).contrast_cmd(),
        decreases 24 - j,
    {
        pcd8544.draw_buffer(frame);
        j = j + 1;
    }
    pcd8544.draw_buffer(frame);
}

/// Cycles the three animations — the radial deformation, the fractal zoom,
/// and the interference fringes — the given number of times, holding the
/// caller's still frame between them, each step feeding full frames to the
/// display.  After at least one cycle the screen shows the interference
/// run's last frame (its final time step is 49) and the cursor is home;
/// with zero cycles nothing changes.
pub fn demo<B: Pcd8544Backend>(pcd8544: &mut Pcd8544Driver<B>, logo: &Buffer, cycles: u32)
    requires
        old(pcd8544).wf(),
    ensures
        final(pcd8544).wf(),
        final(pcd8544).contrast_cmd() == old(pcd8544).contrast_cmd(),
        cycles == 0 ==> final(pcd8544).text_state() == old(pcd8544).text_state(),
        cycles > 0 ==> final(pcd8544).col() == 0 && final(pcd8544).row() == 0
            && shader_frame_ok(interference, 49i32, final(pcd8544).shadow()),
{
    let mut k: u32 = 0;
    while k < cycles
        invariant
            k <= cycles,
            pcd8544.wf(),
            pcd8544.contrast_cmd() == old(pcd8544).contrast_cmd(),
            k == 0 ==> pcd8544.text_state() == old(pcd8544).text_state(),
            k > 0 ==> pcd8544.col() == 0 && pcd8544.row() == 0 && shader_frame_ok(
                interference,
                49i32,
                pcd8544.shadow(),
            ),
        decreases cycles - k,
    {
        hold_frame(pcd8544, logo);
        run_shader(pcd8544, 0i32..75i32, deform_1_z);
        hold_frame(pcd8544, logo);
        run_optimized_mandelbrot(pcd8544);
        hold_frame(pcd8544, logo);
        run_shader(pcd8544, 0i32..50i32, interference);
        k = k + 1;
    }
}

} // verus!
