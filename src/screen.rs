//! The indexed-colour framebuffer, the sprite geometry and the blitter.
use vstd::prelude::*;
use vstd::arithmetic::div_mod::lemma_fundamental_div_mod_converse;
use crate::memory::{Memory, MEMORY_SIZE};

verus! {

pub const SCREEN_WIDTH: usize = 320;

pub const SCREEN_HEIGHT: usize = 240;

/// Number of pixels, one colour index each.
pub const SCREEN_PIXELS: usize = 76800;

/// The framebuffer as plain values: pixel (row, col) is `buffer[row * 320 + col]`.
pub struct ScreenState {
    pub buffer: Seq<u8>,
    /// Sprite width in bytes; each byte holds two pixels.
    pub spritew: u8,
    /// Sprite height in rows.
    pub spriteh: u8,
    /// Background colour index.
    pub bg: u8,
    pub vblank: bool,
    /// Drawn to since the last frame was handed off.
    pub dirty: bool,
}

impl ScreenState {
    /// The buffer covers the screen and holds colour indices only.
    pub open spec fn wf(self) -> bool {
        &&& self.buffer.len() == SCREEN_PIXELS
        &&& self.bg < 16
        &&& forall|k: int| 0 <= k < SCREEN_PIXELS ==> #[trigger] self.buffer[k] < 16
    }

    pub open spec fn pixel(self, row: int, col: int) -> u8 {
        self.buffer[row * SCREEN_WIDTH + col]
    }
}

/// The nibble of the sprite byte that a blit at (`x`, `y`) puts at (`row`, `col`).
pub open spec fn sprite_nibble(
    mem: Seq<u8>,
    x: i16,
    y: i16,
    src: u16,
    w: u8,
    row: int,
    col: int,
) -> u8 {
    let b = mem[src + (row - y) * w + (col - x) / 2];
    if (col - x) % 2 == 0 {
        b / 16
    } else {
        b % 16
    }
}

/// The colour index that a blit of the `w`-byte by `h`-row sprite at `src`, drawn at
/// (`x`, `y`), leaves at (`row`, `col`), where the pixel held `old`; only the part of the
/// sprite with `dy < rows`, or `dy == rows` and `dx < cols`, is drawn.
pub open spec fn blit_upto(
    old: u8,
    mem: Seq<u8>,
    x: i16,
    y: i16,
    src: u16,
    w: u8,
    h: u8,
    rows: int,
    cols: int,
    row: int,
    col: int,
) -> u8 {
    let dy = row - y;
    let dx = col - x;
    if 0 <= dy < h && 0 <= dx < 2 * w && (dy < rows || (dy == rows && dx < cols)) {
        let nibble = sprite_nibble(mem, x, y, src, w, row, col);
        if nibble == 0 {
            old
        } else {
            nibble
        }
    } else {
        old
    }
}

/// The colour index at (`row`, `col`) after the whole sprite is drawn: the sprite byte
/// for the pixel, high nibble on the left; a zero nibble is transparent.
pub open spec fn blit_pixel(
    old: u8,
    mem: Seq<u8>,
    x: i16,
    y: i16,
    src: u16,
    w: u8,
    h: u8,
    row: int,
    col: int,
) -> u8 {
    let dy = row - y;
    let dx = col - x;
    if 0 <= dy < h && 0 <= dx < 2 * w {
        let nibble = sprite_nibble(mem, x, y, src, w, row, col);
        if nibble == 0 {
            old
        } else {
            nibble
        }
    } else {
        old
    }
}

/// The buffer after a blit; pixels off the screen are clipped away.
pub open spec fn blit(buf: Seq<u8>, mem: Seq<u8>, x: i16, y: i16, src: u16, w: u8, h: u8) -> Seq<
    u8,
> {
    Seq::new(
        SCREEN_PIXELS as nat,
        |k: int| blit_pixel(buf[k], mem, x, y, src, w, h, k / 320, k % 320),
    )
}

/// A sprite lies inside the address space.
pub open spec fn sprite_in_memory(src: u16, w: u8, h: u8) -> bool {
    src + w * h <= MEMORY_SIZE
}

/// The pixel at (`row`, `col`) sits at `row * 320 + col`, and no other pixel does.
pub proof fn lemma_index(row: int, col: int)
    requires
        0 <= row < SCREEN_HEIGHT,
        0 <= col < SCREEN_WIDTH,
    ensures
        0 <= row * 320 + col < SCREEN_PIXELS,
        (row * 320 + col) / 320 == row,
        (row * 320 + col) % 320 == col,
{
    lemma_fundamental_div_mod_converse(row * 320 + col, 320, row, col);
}

/// Pixel `k` sits at row `k / 320`, column `k % 320`.
pub proof fn lemma_coords(k: int)
    requires
        0 <= k < SCREEN_PIXELS,
    ensures
        0 <= k / 320 < SCREEN_HEIGHT,
        0 <= k % 320 < SCREEN_WIDTH,
        k == (k / 320) * 320 + k % 320,
{
}

/// A blit never draws outside the screen: the buffer keeps its size, and a pixel that the
/// sprite's rectangle (placed at `x`, `y`) does not cover keeps its colour, whatever the
/// position, geometry and source.
pub proof fn lemma_blit_inside(
    buf: Seq<u8>,
    mem: Seq<u8>,
    x: i16,
    y: i16,
    src: u16,
    w: u8,
    h: u8,
    row: int,
    col: int,
)
    requires
        buf.len() == SCREEN_PIXELS,
        0 <= row < SCREEN_HEIGHT,
        0 <= col < SCREEN_WIDTH,
        !(y <= row < y + h && x <= col < x + 2 * w),
    ensures
        blit(buf, mem, x, y, src, w, h).len() == SCREEN_PIXELS,
        blit(buf, mem, x, y, src, w, h)[row * 320 + col] == buf[row * 320 + col],
{
    lemma_index(row, col);
}

/// A zero nibble is transparent: the pixel under it keeps its colour. A nonzero nibble
/// replaces it.
pub proof fn lemma_blit_transparent(
    buf: Seq<u8>,
    mem: Seq<u8>,
    x: i16,
    y: i16,
    src: u16,
    w: u8,
    h: u8,
    row: int,
    col: int,
)
    requires
        buf.len() == SCREEN_PIXELS,
        0 <= row < SCREEN_HEIGHT,
        0 <= col < SCREEN_WIDTH,
        y <= row < y + h,
        x <= col < x + 2 * w,
    ensures
        sprite_nibble(mem, x, y, src, w, row, col) == 0 ==> blit(buf, mem, x, y, src, w, h)[row
            * 320 + col] == buf[row * 320 + col],
        sprite_nibble(mem, x, y, src, w, row, col) != 0 ==> blit(buf, mem, x, y, src, w, h)[row
            * 320 + col] == sprite_nibble(mem, x, y, src, w, row, col),
{
    lemma_index(row, col);
}

/// The framebuffer with its sprite geometry, background, vblank and dirty flags.
pub struct Screen {
    buffer: [u8; SCREEN_PIXELS],
    spritew: u8,
    spriteh: u8,
    bg: u8,
    vblank: bool,
    updated: bool,
}

impl View for Screen {
    type V = ScreenState;

    closed spec fn view(&self) -> ScreenState {
        ScreenState {
            buffer: self.buffer@,
            spritew: self.spritew,
            spriteh: self.spriteh,
            bg: self.bg,
            vblank: self.vblank,
            dirty: self.updated,
        }
    }
}

impl Screen {
    pub open spec fn wf(&self) -> bool {
        self@.wf()
    }

    /// A cleared screen: all pixels 0, no sprite geometry, background 0, flags down.
    pub fn new() -> (r: Screen)
        ensures
            r.wf(),
            r@ == (ScreenState {
                buffer: Seq::new(SCREEN_PIXELS as nat, |k: int| 0u8),
                spritew: 0,
                spriteh: 0,
                bg: 0,
                vblank: false,
                dirty: false,
            }),
    {
        let r = Screen {
            buffer: [0u8; SCREEN_PIXELS],
            spritew: 0,
            spriteh: 0,
            bg: 0,
            vblank: false,
            updated: false,
        };
        assert(r@.buffer =~= Seq::new(SCREEN_PIXELS as nat, |k: int| 0u8));
        r
    }

    /// Readies the screen for the first frame: clears it.
    pub fn init(&mut self)
        requires
            old(self).wf(),
        ensures
            final(self).wf(),
            final(self)@ == (ScreenState {
                buffer: Seq::new(SCREEN_PIXELS as nat, |k: int| old(self)@.bg),
                dirty: true,
                ..old(self)@
            }),
    {
        self.cls();
    }

    pub fn set_vblank(&mut self)
        ensures
            final(self)@ == (ScreenState { vblank: true, ..old(self)@ }),
    {
        self.vblank = true;
    }

    pub fn clear_vblank(&mut self)
        ensures
            final(self)@ == (ScreenState { vblank: false, ..old(self)@ }),
    {
        self.vblank = false;
    }

    pub fn vblank(&self) -> (r: bool)
        ensures
            r == self@.vblank,
    {
        self.vblank
    }

    /// Ends a frame: raises vblank, and says whether the buffer was drawn to since the
    /// last frame and so must be presented.
    pub fn update_frame(&mut self) -> (present: bool)
        ensures
            present == old(self)@.dirty,
            final(self)@ == (ScreenState { vblank: true, dirty: false, ..old(self)@ }),
    {
        let present = self.updated;
        self.updated = false;
        self.set_vblank();
        present
    }

    /// Fills every pixel with the background colour.
    pub fn cls(&mut self)
        requires
            old(self).wf(),
        ensures
            final(self).wf(),
            final(self)@ == (ScreenState {
                buffer: Seq::new(SCREEN_PIXELS as nat, |k: int| old(self)@.bg),
                dirty: true,
                ..old(self)@
            }),
            forall|row: int, col: int|
                0 <= row < SCREEN_HEIGHT && 0 <= col < SCREEN_WIDTH ==> #[trigger] final(self)@.pixel(row, col) == old(self)@.bg,
    {
        self.buffer = [self.bg; SCREEN_PIXELS];
        self.updated = true;
        assert(self@.buffer =~= Seq::new(SCREEN_PIXELS as nat, |k: int| old(self)@.bg));
        assert forall|row: int, col: int|
            0 <= row < SCREEN_HEIGHT && 0 <= col < SCREEN_WIDTH implies #[trigger] self@.pixel(
                row,
                col,
            ) == old(self)@.bg by {
            lemma_index(row, col);
        }
    }

    /// Sets the sprite geometry: `w` bytes wide, `h` rows high.
    pub fn spr(&mut self, w: u8, h: u8)
        ensures
            final(self)@ == (ScreenState { spritew: w, spriteh: h, ..old(self)@ }),
    {
        self.spritew = w;
        self.spriteh = h;
    }

    /// Sets the background colour to the low nibble of `n`.
    pub fn bgc(&mut self, n: u8)
        ensures
            final(self)@ == (ScreenState { bg: n % 16, ..old(self)@ }),
    {
        assert(n & 0x0f == n % 16) by (bit_vector);
        self.bg = n & 0x0f;
    }

    pub fn bg(&self) -> (r: u8)
        ensures
            r == self@.bg,
    {
        self.bg
    }

    pub fn spritew(&self) -> (r: u8)
        ensures
            r == self@.spritew,
    {
        self.spritew
    }

    pub fn spriteh(&self) -> (r: u8)
        ensures
            r == self@.spriteh,
    {
        self.spriteh
    }

    /// Whether the current sprite, read from `src`, lies inside the address space.
    pub fn sprite_fits(&self, src: u16) -> (r: bool)
        ensures
            r == sprite_in_memory(src, self@.spritew, self@.spriteh),
    {
        let w = self.spritew as u32;
        let h = self.spriteh as u32;
        assert(w * h <= 255 * 255) by (nonlinear_arith)
            requires
                w <= 255,
                h <= 255,
        ;
        src as u32 + w * h <= MEMORY_SIZE as u32
    }

    /// The colour index at column `x`, row `y`.
    pub fn pixel(&self, x: usize, y: usize) -> (r: u8)
        requires
            x < SCREEN_WIDTH,
            y < SCREEN_HEIGHT,
        ensures
            r == self@.pixel(y as int, x as int),
    {
        proof {
            lemma_index(y as int, x as int);
        }
        self.buffer[y * SCREEN_WIDTH + x]
    }

    /// All pixels, row by row.
    pub fn buffer(&self) -> (r: &[u8; SCREEN_PIXELS])
        ensures
            r@ == self@.buffer,
    {
        &self.buffer
    }

    /// Draws the current sprite from `src` at column `x`, row `y` (both may be negative):
    /// each sprite byte gives two pixels, high nibble on the left; zero nibbles are
    /// transparent and pixels off the screen are clipped away.
    pub fn drw(&mut self, x: i16, y: i16, src: u16, mem: &Memory)
        requires
            old(self).wf(),
            sprite_in_memory(src, old(self)@.spritew, old(self)@.spriteh),
        ensures
            final(self).wf(),
            final(self)@ == (ScreenState {
                buffer: blit(
                    old(self)@.buffer,
                    mem@,
                    x,
                    y,
                    src,
                    old(self)@.spritew,
                    old(self)@.spriteh,
                ),
                dirty: true,
                ..old(self)@
            }),
    {
        proof {
            Memory::lemma_len(mem);
        }
        let w = self.spritew;
        let h = self.spriteh;
        self.updated = true;
        let mut r: u8 = 0;
        let mut addr: usize = src as usize;
        while r < h
            invariant
                self.wf(),
                self@ == (ScreenState { buffer: self@.buffer, dirty: true, ..old(self)@ }),
                old(self).wf(),
                w == old(self)@.spritew,
                h == old(self)@.spriteh,
                r <= h,
                addr == src + r * w,
                src + w * h <= MEMORY_SIZE,
                mem@.len() == MEMORY_SIZE,
                forall|row: int, col: int|
                    0 <= row < SCREEN_HEIGHT && 0 <= col < SCREEN_WIDTH ==> #[trigger] self@.pixel(
                        row,
                        col,
                    ) == blit_upto(
                        old(self)@.pixel(row, col),
                        mem@,
                        x,
                        y,
                        src,
                        w,
                        h,
                        r as int,
                        0,
                        row,
                        col,
                    ),
            decreases h - r,
        {
            let mut cb: u8 = 0;
            while cb < w
                invariant
                    self.wf(),
                    self@ == (ScreenState { buffer: self@.buffer, dirty: true, ..old(self)@ }),
                    old(self).wf(),
                    w == old(self)@.spritew,
                    h == old(self)@.spriteh,
                    r < h,
                    cb <= w,
                    addr == src + r * w + cb,
                    src + w * h <= MEMORY_SIZE,
                    mem@.len() == MEMORY_SIZE,
                    forall|row: int, col: int|
                        0 <= row < SCREEN_HEIGHT && 0 <= col < SCREEN_WIDTH
                            ==> #[trigger] self@.pixel(row, col) == blit_upto(
                            old(self)@.pixel(row, col),
                            mem@,
                            x,
                            y,
                            src,
                            w,
                            h,
                            r as int,
                            2 * cb,
                            row,
                            col,
                        ),
                decreases w - cb,
            {
                assert(r * w + cb < h * w) by (nonlinear_arith)
                    requires
                        r < h,
                        cb < w,
                ;
                let b = mem.read(addr);
                let row: i32 = y as i32 + r as i32;
                let col: i32 = x as i32 + 2 * (cb as i32);
                assert(b >> 4u8 == b / 16 && b & 0x0f == b % 16 && b / 16 < 16) by (bit_vector);
                let ghost before = self@;
                self.plot(row, col, b >> 4u8);
                assert forall|rr: int, cc: int|
                    0 <= rr < SCREEN_HEIGHT && 0 <= cc < SCREEN_WIDTH implies #[trigger] self@.pixel(
                        rr,
                        cc,
                    ) == blit_upto(
                        old(self)@.pixel(rr, cc),
                        mem@,
                        x,
                        y,
                        src,
                        w,
                        h,
                        r as int,
                        2 * cb + 1,
                        rr,
                        cc,
                    ) by {
                    if rr == row && cc == col {
                        assert((rr - y) * w == r * w);
                        assert(before.pixel(rr, cc) == old(self)@.pixel(rr, cc));
                    }
                }
                let ghost middle = self@;
                self.plot(row, col + 1, b & 0x0f);
                assert forall|rr: int, cc: int|
                    0 <= rr < SCREEN_HEIGHT && 0 <= cc < SCREEN_WIDTH implies #[trigger] self@.pixel(
                        rr,
                        cc,
                    ) == blit_upto(
                        old(self)@.pixel(rr, cc),
                        mem@,
                        x,
                        y,
                        src,
                        w,
                        h,
                        r as int,
                        2 * (cb + 1),
                        rr,
                        cc,
                    ) by {
                    if rr == row && cc == col + 1 {
                        assert((rr - y) * w == r * w);
                        assert(middle.pixel(rr, cc) == old(self)@.pixel(rr, cc));
                    }
                }
                cb += 1;
                addr += 1;
            }
            assert(src + r * w + w == src + (r + 1) * w) by (nonlinear_arith);
            r += 1;
        }
        assert forall|k: int| 0 <= k < SCREEN_PIXELS implies self@.buffer[k] == blit(
            old(self)@.buffer,
            mem@,
            x,
            y,
            src,
            w,
            h,
        )[k] by {
            lemma_coords(k);
            assert(self@.pixel(k / 320, k % 320) == self@.buffer[k]);
        }
        assert(self@.buffer =~= blit(old(self)@.buffer, mem@, x, y, src, w, h));
    }

    /// Writes colour `v` at (`row`, `col`) when that is on the screen and `v` is not 0.
    fn plot(&mut self, row: i32, col: i32, v: u8)
        requires
            old(self).wf(),
            v < 16,
        ensures
            final(self).wf(),
            final(self)@ == (ScreenState { buffer: final(self)@.buffer, ..old(self)@ }),
            forall|r: int, c: int|
                0 <= r < SCREEN_HEIGHT && 0 <= c < SCREEN_WIDTH ==> #[trigger] final(self)@.pixel(
                    r,
                    c,
                ) == if r == row && c == col && v != 0 {
                    v
                } else {
                    old(self)@.pixel(r, c)
                },
    {
        if 0 <= row && row < SCREEN_HEIGHT as i32 && 0 <= col && col < SCREEN_WIDTH as i32 && v
            != 0 {
            proof {
                lemma_index(row as int, col as int);
            }
            let k = row as usize * SCREEN_WIDTH + col as usize;
            self.buffer[k] = v;
            assert forall|r: int, c: int|
                0 <= r < SCREEN_HEIGHT && 0 <= c < SCREEN_WIDTH implies #[trigger] self@.pixel(
                    r,
                    c,
                ) == if r == row && c == col && v != 0 {
                    v
                } else {
                    old(self)@.pixel(r, c)
                } by {
                lemma_index(r, c);
            }
        }
    }
}

} // verus!
