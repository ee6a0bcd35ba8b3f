//! Arithmetic of injected clicks and screen captures: the normalised
//! coordinates of an injected click, the packed position of a posted mouse
//! message, whether a window covers the virtual screen, the
//! conversion of captured pixels, and wide strings for the system calls.
use vstd::prelude::*;

verus! {

/// The rectangle spanned by all monitors: origin and size in physical
/// pixels. The origin is negative where a monitor lies left of or above
/// the primary one.
#[derive(Clone, Copy, PartialEq, Eq, Debug, Structural)]
pub struct VirtualScreen {
    pub x: i32,
    pub y: i32,
    pub w: i32,
    pub h: i32,
}

/// A window's rectangle in screen coordinates.
#[derive(Clone, Copy, PartialEq, Eq, Debug, Structural)]
pub struct WindowRect {
    pub left: i32,
    pub top: i32,
    pub right: i32,
    pub bottom: i32,
}

/// The largest normalised coordinate of an injected absolute mouse event.
pub const ABSOLUTE_MAX: i64 = 65535;

/// `a - b` as 32-bit arithmetic that wraps on overflow.
pub open spec fn wrapped_diff(a: i32, b: i32) -> int {
    let d = a - b;
    if d > i32::MAX {
        d - 0x1_0000_0000
    } else if d < i32::MIN {
        d + 0x1_0000_0000
    } else {
        d
    }
}

/// Division that rounds toward zero, for a positive divisor.
pub open spec fn trunc_div(a: int, b: int) -> int {
    if a >= 0 {
        a / b
    } else {
        -((-a) / b)
    }
}

/// The normalised coordinate, before it is narrowed to 32 bits, of screen
/// position `p` on an axis of the virtual screen that starts at `origin`
/// and spans `size` pixels: the offset scaled so that the span maps onto
/// `0..=65535`.
pub open spec fn absolute_axis(p: i32, origin: i32, size: i32) -> int {
    trunc_div(wrapped_diff(p, origin) * ABSOLUTE_MAX, size - 1)
}

fn wrapping_diff(a: i32, b: i32) -> (r: i64)
    ensures
        r == wrapped_diff(a, b),
{
    let d = a as i64 - b as i64;
    if d > i32::MAX as i64 {
        d - 0x1_0000_0000
    } else if d < i32::MIN as i64 {
        d + 0x1_0000_0000
    } else {
        d
    }
}

fn absolute_coordinate(p: i32, origin: i32, size: i32) -> (r: i32)
    requires
        size > 1,
    ensures
        r == absolute_axis(p, origin, size) as i32,
{
    let num = wrapping_diff(p, origin) * ABSOLUTE_MAX;
    let den = size as i64 - 1;
    let q = if num >= 0 {
        num / den
    } else {
        -((-num) / den)
    };
    q as i32
}

/// The normalised absolute coordinates of an injected click at screen
/// point `(x, y)`. There are none where the virtual screen is not wider
/// and taller than one pixel.
pub fn absolute_position(x: i32, y: i32, vs: VirtualScreen) -> (r: Option<(i32, i32)>)
    ensures
        r is Some <==> vs.w > 1 && vs.h > 1,
        r matches Some(p) ==> p.0 == absolute_axis(x, vs.x, vs.w) as i32 && p.1 == absolute_axis(
            y,
            vs.y,
            vs.h,
        ) as i32,
{
    if vs.w <= 1 || vs.h <= 1 {
        return None;
    }
    Some((absolute_coordinate(x, vs.x, vs.w), absolute_coordinate(y, vs.y, vs.h)))
}

/// A click on the virtual screen lands inside the normalised range: a
/// point inside the screen maps into `0..=65535`, its first pixel to 0 and
/// its last pixel to 65535.
pub proof fn lemma_absolute_axis_in_range(p: i32, origin: i32, size: i32)
    requires
        size > 1,
        origin <= p < origin + size,
    ensures
        0 <= absolute_axis(p, origin, size) <= ABSOLUTE_MAX,
        p == origin ==> absolute_axis(p, origin, size) == 0,
        p == origin + size - 1 ==> absolute_axis(p, origin, size) == ABSOLUTE_MAX,
{
    let d = p - origin;
    assert(wrapped_diff(p, origin) == d);
    let m = size - 1;
    assert(0 <= d * ABSOLUTE_MAX / m <= ABSOLUTE_MAX) by (nonlinear_arith)
        requires
            0 <= d <= m,
            m >= 1,
    ;
    assert(d == m ==> d * ABSOLUTE_MAX / m == ABSOLUTE_MAX) by (nonlinear_arith)
        requires
            m >= 1,
    ;
}

/// The 32-bit word of a posted mouse message's position: the low 16 bits
/// of `y` above the low 16 bits of `x`.
pub open spec fn lparam_word(x: i32, y: i32) -> int {
    (y as int % 65536) * 65536 + (x as int % 65536)
}

/// The position argument of a posted mouse message for client point
/// `(x, y)`.
pub fn make_lparam(x: i32, y: i32) -> (r: isize)
    ensures
        r == lparam_word(x, y) as isize,
{
    let lo = low_word(x);
    let hi = low_word(y);
    let w: i64 = hi * 65536 + lo;
    w as isize
}

/// The low 16 bits of a 32-bit value, as a non-negative number.
fn low_word(v: i32) -> (r: i64)
    ensures
        r == v as int % 65536,
        0 <= r < 65536,
{
    let vi = v as i64;
    if vi >= 0 {
        vi % 65536
    } else {
        let m = (-vi) % 65536;
        if m == 0 {
            0
        } else {
            65536 - m
        }
    }
}

/// The signed value of a 16-bit word.
pub open spec fn signed16(w: int) -> int {
    if w >= 32768 {
        w - 65536
    } else {
        w
    }
}

/// The packed position gives the point back: its low word is `x` and its
/// high word is `y`, each modulo 2^16, and read as signed words they are
/// `x` and `y` themselves wherever these fit 16 bits.
pub proof fn lemma_lparam_round_trip(x: i32, y: i32)
    ensures
        0 <= lparam_word(x, y) < 0x1_0000_0000,
        lparam_word(x, y) % 65536 == x as int % 65536,
        lparam_word(x, y) / 65536 == y as int % 65536,
        -32768 <= x < 32768 ==> signed16(lparam_word(x, y) % 65536) == x,
        -32768 <= y < 32768 ==> signed16(lparam_word(x, y) / 65536) == y,
{
    let a = y as int % 65536;
    let b = x as int % 65536;
    assert(0 <= a < 65536);
    assert(0 <= b < 65536);
    assert((a * 65536 + b) % 65536 == b) by (nonlinear_arith)
        requires
            0 <= b < 65536,
    ;
    assert((a * 65536 + b) / 65536 == a) by (nonlinear_arith)
        requires
            0 <= b < 65536,
    ;
    assert(0 <= a * 65536 + b < 0x1_0000_0000) by (nonlinear_arith)
        requires
            0 <= a < 65536,
            0 <= b < 65536,
    ;
}

/// Whether a window already covers exactly the virtual screen (its width
/// and height taken with 32-bit wrapping arithmetic).
pub fn covers_virtual_screen(rc: WindowRect, vs: VirtualScreen) -> (r: bool)
    ensures
        r == (rc.left == vs.x && rc.top == vs.y && wrapped_diff(rc.right, rc.left) == vs.w
            && wrapped_diff(rc.bottom, rc.top) == vs.h),
{
    rc.left == vs.x && rc.top == vs.y && wrapping_diff(rc.right, rc.left) == vs.w as i64
        && wrapping_diff(rc.bottom, rc.top) == vs.h as i64
}

/// The pixels of a capture in blue-green-red-unused order, converted to
/// opaque red-green-blue-alpha: each whole group of four bytes gives one
/// pixel; a trailing partial group is dropped.
pub open spec fn rgba_of_bgrx(src: Seq<u8>, out: Seq<u8>) -> bool {
    &&& out.len() == 4 * (src.len() / 4)
    &&& forall|i: int|
        0 <= i < src.len() / 4 ==> {
            &&& #[trigger] out[4 * i] == src[4 * i + 2]
            &&& out[4 * i + 1] == src[4 * i + 1]
            &&& out[4 * i + 2] == src[4 * i]
            &&& out[4 * i + 3] == 255
        }
}

/// Converts captured pixels from blue-green-red-unused to opaque RGBA.
pub fn bgrx_to_rgba(src: &[u8]) -> (out: Vec<u8>)
    ensures
        rgba_of_bgrx(src@, out@),
{
    let n = src.len() / 4;
    let mut out: Vec<u8> = Vec::new();
    let mut i: usize = 0;
    while i < n
        invariant
            n == src@.len() / 4,
            4 * n <= src.len(),
            src.len() == src@.len(),
            i <= n,
            out@.len() == 4 * i,
            forall|k: int|
                0 <= k < i ==> {
                    &&& #[trigger] out@[4 * k] == src@[4 * k + 2]
                    &&& out@[4 * k + 1] == src@[4 * k + 1]
                    &&& out@[4 * k + 2] == src@[4 * k]
                    &&& out@[4 * k + 3] == 255
                },
        decreases n - i,
    {
        let b = 4 * i;
        let ghost before = out@;
        out.push(src[b + 2]);
        out.push(src[b + 1]);
        out.push(src[b]);
        out.push(255);
        proof {
            assert forall|k: int| 0 <= k < i + 1 implies {
                &&& #[trigger] out@[4 * k] == src@[4 * k + 2]
                &&& out@[4 * k + 1] == src@[4 * k + 1]
                &&& out@[4 * k + 2] == src@[4 * k]
                &&& out@[4 * k + 3] == 255
            } by {
                if k < i {
                    assert(out@[4 * k] == before[4 * k]);
                    assert(out@[4 * k + 1] == before[4 * k + 1]);
                    assert(out@[4 * k + 2] == before[4 * k + 2]);
                    assert(out@[4 * k + 3] == before[4 * k + 3]);
                }
            }
        }
        i = i + 1;
    }
    assert(out@.len() == 4 * (src@.len() / 4));
    assert(forall|k: int|
        0 <= k < src@.len() / 4 ==> {
            &&& #[trigger] out@[4 * k] == src@[4 * k + 2]
            &&& out@[4 * k + 1] == src@[4 * k + 1]
            &&& out@[4 * k + 2] == src@[4 * k]
            &&& out@[4 * k + 3] == 255
        });
    out
}

/// The UTF-16 code units of one character.
pub open spec fn utf16_units(c: char) -> Seq<u16> {
    let u = c as u32;
    if u < 0x10000 {
        seq![u as u16]
    } else {
        let v = (u - 0x10000) as int;
        seq![(0xD800 + v / 0x400) as u16, (0xDC00 + v % 0x400) as u16]
    }
}

/// The UTF-16 encoding of a text.
pub open spec fn utf16(s: Seq<char>) -> Seq<u16>
    decreases s.len(),
{
    if s.len() == 0 {
        Seq::empty()
    } else {
        utf16(s.drop_last()) + utf16_units(s.last())
    }
}

/// A text as the zero-terminated UTF-16 string that the system calls take.
pub fn wide_nul(s: &str) -> (w: Vec<u16>)
    ensures
        w@ == utf16(s@).push(0),
{
    let n = s.unicode_len();
    let mut w: Vec<u16> = Vec::new();
    let mut i: usize = 0;
    while i < n
        invariant
            n == s@.len(),
            i <= n,
            w@ == utf16(s@.subrange(0, i as int)),
        decreases n - i,
    {
        let c = s.get_char(i);
        let u = c as u32;
        if u < 0x10000 {
            w.push(u as u16);
        } else {
            let v = u - 0x10000;
            w.push((0xD800 + v / 0x400) as u16);
            w.push((0xDC00 + v % 0x400) as u16);
        }
        proof {
            let p = s@.subrange(0, i + 1);
            assert(p.drop_last() =~= s@.subrange(0, i as int));
            assert(p.last() == c);
            assert(w@ =~= utf16(p));
        }
        i = i + 1;
    }
    assert(s@.subrange(0, n as int) =~= s@);
    w.push(0);
    w
}

} // verus!
