//! The double-buffered framebuffer and the fixed master palette.
//!
//! The PPU writes one pixel per visible dot into the work buffer; hosts
//! read the draw buffer, which stays stable until the buffers are
//! switched at the end of a frame.

use vstd::prelude::*;

verus! {

/// One RGB pixel.
#[derive(Copy, Clone, Debug, PartialEq, Eq, Structural)]
pub struct Pixel {
    /// Red component.
    pub r: u8,
    /// Green component.
    pub g: u8,
    /// Blue component.
    pub b: u8,
}

impl Pixel {
    /// The pixel with the given components.
    pub fn new(r: u8, g: u8, b: u8) -> (p: Pixel)
        ensures
            p == (Pixel { r, g, b }),
    {
        Pixel { r, g, b }
    }

    /// Black.
    pub fn black() -> (p: Pixel)
        ensures
            p == (Pixel { r: 0u8, g: 0u8, b: 0u8 }),
    {
        Pixel { r: 0, g: 0, b: 0 }
    }
}

/// The 64 master colors of the console, indexed by the low six bits of
/// a palette-memory byte.
pub open spec fn spec_master_palette(index: int) -> Pixel {
    if index == 0 {
        Pixel { r: 84u8, g: 84u8, b: 84u8 }
    } else if index == 1 {
        Pixel { r: 0u8, g: 30u8, b: 116u8 }
    } else if index == 2 {
        Pixel { r: 8u8, g: 16u8, b: 144u8 }
    } else if index == 3 {
        Pixel { r: 48u8, g: 0u8, b: 136u8 }
    } else if index == 4 {
        Pixel { r: 68u8, g: 0u8, b: 100u8 }
    } else if index == 5 {
        Pixel { r: 92u8, g: 0u8, b: 48u8 }
    } else if index == 6 {
        Pixel { r: 84u8, g: 4u8, b: 0u8 }
    } else if index == 7 {
        Pixel { r: 60u8, g: 24u8, b: 0u8 }
    } else if index == 8 {
        Pixel { r: 32u8, g: 42u8, b: 0u8 }
    } else if index == 9 {
        Pixel { r: 8u8, g: 58u8, b: 0u8 }
    } else if index == 10 {
        Pixel { r: 0u8, g: 64u8, b: 0u8 }
    } else if index == 11 {
        Pixel { r: 0u8, g: 60u8, b: 0u8 }
    } else if index == 12 {
        Pixel { r: 0u8, g: 50u8, b: 60u8 }
    } else if index == 13 {
        Pixel { r: 0u8, g: 0u8, b: 0u8 }
    } else if index == 14 {
        Pixel { r: 0u8, g: 0u8, b: 0u8 }
    } else if index == 15 {
        Pixel { r: 0u8, g: 0u8, b: 0u8 }
    } else if index == 16 {
        Pixel { r: 152u8, g: 150u8, b: 152u8 }
    } else if index == 17 {
        Pixel { r: 8u8, g: 76u8, b: 196u8 }
    } else if index == 18 {
        Pixel { r: 48u8, g: 50u8, b: 236u8 }
    } else if index == 19 {
        Pixel { r: 92u8, g: 30u8, b: 228u8 }
    } else if index == 20 {
        Pixel { r: 136u8, g: 20u8, b: 176u8 }
    } else if index == 21 {
        Pixel { r: 160u8, g: 20u8, b: 100u8 }
    } else if index == 22 {
        Pixel { r: 152u8, g: 34u8, b: 32u8 }
    } else if index == 23 {
        Pixel { r: 120u8, g: 60u8, b: 0u8 }
    } else if index == 24 {
        Pixel { r: 84u8, g: 90u8, b: 0u8 }
    } else if index == 25 {
        Pixel { r: 40u8, g: 114u8, b: 0u8 }
    } else if index == 26 {
        Pixel { r: 8u8, g: 124u8, b: 0u8 }
    } else if index == 27 {
        Pixel { r: 0u8, g: 118u8, b: 40u8 }
    } else if index == 28 {
        Pixel { r: 0u8, g: 102u8, b: 120u8 }
    } else if index == 29 {
        Pixel { r: 0u8, g: 0u8, b: 0u8 }
    } else if index == 30 {
        Pixel { r: 0u8, g: 0u8, b: 0u8 }
    } else if index == 31 {
        Pixel { r: 0u8, g: 0u8, b: 0u8 }
    } else if index == 32 {
        Pixel { r: 236u8, g: 238u8, b: 236u8 }
    } else if index == 33 {
        Pixel { r: 76u8, g: 154u8, b: 236u8 }
    } else if index == 34 {
        Pixel { r: 120u8, g: 124u8, b: 236u8 }
    } else if index == 35 {
        Pixel { r: 176u8, g: 98u8, b: 236u8 }
    } else if index == 36 {
        Pixel { r: 228u8, g: 84u8, b: 236u8 }
    } else if index == 37 {
        Pixel { r: 236u8, g: 88u8, b: 180u8 }
    } else if index == 38 {
        Pixel { r: 236u8, g: 106u8, b: 100u8 }
    } else if index == 39 {
        Pixel { r: 212u8, g: 136u8, b: 32u8 }
    } else if index == 40 {
        Pixel { r: 160u8, g: 170u8, b: 0u8 }
    } else if index == 41 {
        Pixel { r: 116u8, g: 196u8, b: 0u8 }
    } else if index == 42 {
        Pixel { r: 76u8, g: 208u8, b: 32u8 }
    } else if index == 43 {
        Pixel { r: 56u8, g: 204u8, b: 108u8 }
    } else if index == 44 {
        Pixel { r: 56u8, g: 180u8, b: 204u8 }
    } else if index == 45 {
        Pixel { r: 60u8, g: 60u8, b: 60u8 }
    } else if index == 46 {
        Pixel { r: 0u8, g: 0u8, b: 0u8 }
    } else if index == 47 {
        Pixel { r: 0u8, g: 0u8, b: 0u8 }
    } else if index == 48 {
        Pixel { r: 236u8, g: 238u8, b: 236u8 }
    } else if index == 49 {
        Pixel { r: 168u8, g: 204u8, b: 236u8 }
    } else if index == 50 {
        Pixel { r: 188u8, g: 188u8, b: 236u8 }
    } else if index == 51 {
        Pixel { r: 212u8, g: 178u8, b: 236u8 }
    } else if index == 52 {
        Pixel { r: 236u8, g: 174u8, b: 236u8 }
    } else if index == 53 {
        Pixel { r: 236u8, g: 174u8, b: 212u8 }
    } else if index == 54 {
        Pixel { r: 236u8, g: 180u8, b: 176u8 }
    } else if index == 55 {
        Pixel { r: 228u8, g: 196u8, b: 144u8 }
    } else if index == 56 {
        Pixel { r: 204u8, g: 210u8, b: 120u8 }
    } else if index == 57 {
        Pixel { r: 180u8, g: 222u8, b: 120u8 }
    } else if index == 58 {
        Pixel { r: 168u8, g: 226u8, b: 144u8 }
    } else if index == 59 {
        Pixel { r: 152u8, g: 226u8, b: 180u8 }
    } else if index == 60 {
        Pixel { r: 160u8, g: 214u8, b: 228u8 }
    } else if index == 61 {
        Pixel { r: 160u8, g: 162u8, b: 160u8 }
    } else {
        Pixel { r: 0u8, g: 0u8, b: 0u8 }
    }
}

/// The 64 master colors of the console, indexed by the low six bits of
/// a palette-memory byte.
pub fn master_palette(index: u8) -> (p: Pixel)
    requires
        index < 64,
    ensures
        p == spec_master_palette(index as int),
{
    match index {
        0 => Pixel { r: 84, g: 84, b: 84 },
        1 => Pixel { r: 0, g: 30, b: 116 },
        2 => Pixel { r: 8, g: 16, b: 144 },
        3 => Pixel { r: 48, g: 0, b: 136 },
        4 => Pixel { r: 68, g: 0, b: 100 },
        5 => Pixel { r: 92, g: 0, b: 48 },
        6 => Pixel { r: 84, g: 4, b: 0 },
        7 => Pixel { r: 60, g: 24, b: 0 },
        8 => Pixel { r: 32, g: 42, b: 0 },
        9 => Pixel { r: 8, g: 58, b: 0 },
        10 => Pixel { r: 0, g: 64, b: 0 },
        11 => Pixel { r: 0, g: 60, b: 0 },
        12 => Pixel { r: 0, g: 50, b: 60 },
        13 => Pixel { r: 0, g: 0, b: 0 },
        14 => Pixel { r: 0, g: 0, b: 0 },
        15 => Pixel { r: 0, g: 0, b: 0 },
        16 => Pixel { r: 152, g: 150, b: 152 },
        17 => Pixel { r: 8, g: 76, b: 196 },
        18 => Pixel { r: 48, g: 50, b: 236 },
        19 => Pixel { r: 92, g: 30, b: 228 },
        20 => Pixel { r: 136, g: 20, b: 176 },
        21 => Pixel { r: 160, g: 20, b: 100 },
        22 => Pixel { r: 152, g: 34, b: 32 },
        23 => Pixel { r: 120, g: 60, b: 0 },
        24 => Pixel { r: 84, g: 90, b: 0 },
        25 => Pixel { r: 40, g: 114, b: 0 },
        26 => Pixel { r: 8, g: 124, b: 0 },
        27 => Pixel { r: 0, g: 118, b: 40 },
        28 => Pixel { r: 0, g: 102, b: 120 },
        29 => Pixel { r: 0, g: 0, b: 0 },
        30 => Pixel { r: 0, g: 0, b: 0 },
        31 => Pixel { r: 0, g: 0, b: 0 },
        32 => Pixel { r: 236, g: 238, b: 236 },
        33 => Pixel { r: 76, g: 154, b: 236 },
        34 => Pixel { r: 120, g: 124, b: 236 },
        35 => Pixel { r: 176, g: 98, b: 236 },
        36 => Pixel { r: 228, g: 84, b: 236 },
        37 => Pixel { r: 236, g: 88, b: 180 },
        38 => Pixel { r: 236, g: 106, b: 100 },
        39 => Pixel { r: 212, g: 136, b: 32 },
        40 => Pixel { r: 160, g: 170, b: 0 },
        41 => Pixel { r: 116, g: 196, b: 0 },
        42 => Pixel { r: 76, g: 208, b: 32 },
        43 => Pixel { r: 56, g: 204, b: 108 },
        44 => Pixel { r: 56, g: 180, b: 204 },
        45 => Pixel { r: 60, g: 60, b: 60 },
        46 => Pixel { r: 0, g: 0, b: 0 },
        47 => Pixel { r: 0, g: 0, b: 0 },
        48 => Pixel { r: 236, g: 238, b: 236 },
        49 => Pixel { r: 168, g: 204, b: 236 },
        50 => Pixel { r: 188, g: 188, b: 236 },
        51 => Pixel { r: 212, g: 178, b: 236 },
        52 => Pixel { r: 236, g: 174, b: 236 },
        53 => Pixel { r: 236, g: 174, b: 212 },
        54 => Pixel { r: 236, g: 180, b: 176 },
        55 => Pixel { r: 228, g: 196, b: 144 },
        56 => Pixel { r: 204, g: 210, b: 120 },
        57 => Pixel { r: 180, g: 222, b: 120 },
        58 => Pixel { r: 168, g: 226, b: 144 },
        59 => Pixel { r: 152, g: 226, b: 180 },
        60 => Pixel { r: 160, g: 214, b: 228 },
        61 => Pixel { r: 160, g: 162, b: 160 },
        _ => Pixel { r: 0, g: 0, b: 0 },
    }
}

/// A doubly buffered pixel grid.
///
/// `set_pixel` writes the work buffer, `get_pixel` reads the draw
/// buffer; `switch_buffer` exchanges the two roles.
#[derive(Clone, Debug)]
pub struct Screen {
    width: usize,
    height: usize,
    buffer1: Vec<Pixel>,
    buffer2: Vec<Pixel>,
    /// True while `buffer1` is the work buffer.
    work_is_first: bool,
}

/// The mathematical state of a screen: its two pixel grids, stored row
/// by row, and which of them is being written.
pub struct ScreenView {
    /// Columns per row.
    pub width: nat,
    /// Rows.
    pub height: nat,
    /// First pixel grid.
    pub buffer1: Seq<Pixel>,
    /// Second pixel grid.
    pub buffer2: Seq<Pixel>,
    /// True while the first grid is the work buffer.
    pub work_is_first: bool,
}

impl ScreenView {
    /// The grid currently written by the PPU.
    pub open spec fn work(&self) -> Seq<Pixel> {
        if self.work_is_first {
            self.buffer1
        } else {
            self.buffer2
        }
    }

    /// The grid currently shown to the host.
    pub open spec fn draw(&self) -> Seq<Pixel> {
        if self.work_is_first {
            self.buffer2
        } else {
            self.buffer1
        }
    }
}

impl View for Screen {
    type V = ScreenView;

    closed spec fn view(&self) -> ScreenView {
        ScreenView {
            width: self.width as nat,
            height: self.height as nat,
            buffer1: self.buffer1@,
            buffer2: self.buffer2@,
            work_is_first: self.work_is_first,
        }
    }
}

/// A position inside the grid indexes inside the flat buffer.
proof fn lemma_pos_index(x: int, y: int, w: int, h: int)
    requires
        0 <= x < h,
        0 <= y < w,
    ensures
        0 <= x * w + y < h * w,
{
    assert(0 <= x * w + y < h * w) by (nonlinear_arith)
        requires
            0 <= x < h,
            0 <= y < w,
    ;
}

impl Screen {
    /// Whether both buffers hold exactly `width * height` pixels.
    pub open spec fn inv(&self) -> bool {
        &&& self@.buffer1.len() == self@.width * self@.height
        &&& self@.buffer2.len() == self@.width * self@.height
    }

    /// A screen of the given size with both buffers black.
    pub fn new(width: usize, height: usize) -> (r: Screen)
        requires
            width * height <= usize::MAX,
        ensures
            r.inv(),
            r@.width == width,
            r@.height == height,
            r@.work_is_first,
            r@.buffer1 == Seq::<Pixel>::new((width * height) as nat, |i: int| Pixel { r: 0u8, g: 0u8, b: 0u8 }),
            r@.buffer2 == Seq::<Pixel>::new((width * height) as nat, |i: int| Pixel { r: 0u8, g: 0u8, b: 0u8 }),
    {
        let n: usize = width * height;
        let mut buffer1: Vec<Pixel> = Vec::new();
        let mut i: usize = 0;
        while i < n
            invariant
                i <= n,
                buffer1@ =~= Seq::<Pixel>::new(i as nat, |j: int| Pixel { r: 0u8, g: 0u8, b: 0u8 }),
            decreases n - i,
        {
            buffer1.push(Pixel { r: 0, g: 0, b: 0 });
            i = i + 1;
        }
        let mut buffer2: Vec<Pixel> = Vec::new();
        let mut k: usize = 0;
        while k < n
            invariant
                k <= n,
                buffer2@ =~= Seq::<Pixel>::new(k as nat, |j: int| Pixel { r: 0u8, g: 0u8, b: 0u8 }),
            decreases n - k,
        {
            buffer2.push(Pixel { r: 0, g: 0, b: 0 });
            k = k + 1;
        }
        proof {
            assert(buffer1@ =~= Seq::<Pixel>::new(n as nat, |i: int| Pixel { r: 0u8, g: 0u8, b: 0u8 }));
            assert(buffer2@ =~= Seq::<Pixel>::new(n as nat, |i: int| Pixel { r: 0u8, g: 0u8, b: 0u8 }));
        }
        Screen { width, height, buffer1, buffer2, work_is_first: true }
    }

    /// The pixel at row `x`, column `y` of the draw buffer, or black
    /// when the position is out of bounds.
    pub fn get_pixel(&self, pos: (usize, usize)) -> (p: Pixel)
        requires
            self.inv(),
        ensures
            pos.0 < self@.height && pos.1 < self@.width ==> p == self@.draw()[pos.0 * self@.width
                + pos.1],
            !(pos.0 < self@.height && pos.1 < self@.width) ==> p == (Pixel { r: 0u8, g: 0u8, b: 0u8 }),
    {
        let (x, y) = pos;
        if x < self.height && y < self.width {
            let n: usize = self.buffer1.len();
            proof {
                lemma_pos_index(x as int, y as int, self@.width as int, self@.height as int);
                vstd::arithmetic::mul::lemma_mul_is_commutative(
                    self@.height as int,
                    self@.width as int,
                );
                assert((x as int) * (self@.width as int) + (y as int) < (n as int));
            }
            let idx: usize = x * self.width + y;
            if self.work_is_first {
                self.buffer2[idx]
            } else {
                self.buffer1[idx]
            }
        } else {
            Pixel { r: 0, g: 0, b: 0 }
        }
    }

    /// Write `pixel` at row `x`, column `y` of the work buffer; writes
    /// out of bounds are ignored.
    pub fn set_pixel(&mut self, pos: (usize, usize), pixel: Pixel)
        requires
            old(self).inv(),
        ensures
            final(self).inv(),
            final(self)@.width == old(self)@.width,
            final(self)@.height == old(self)@.height,
            final(self)@.work_is_first == old(self)@.work_is_first,
            final(self)@.draw() == old(self)@.draw(),
            pos.0 < old(self)@.height && pos.1 < old(self)@.width ==> final(self)@.work()
                == old(self)@.work().update(pos.0 * old(self)@.width + pos.1, pixel),
            !(pos.0 < old(self)@.height && pos.1 < old(self)@.width) ==> final(self)@.work()
                == old(self)@.work(),
    {
        let (x, y) = pos;
        if x < self.height && y < self.width {
            let n: usize = self.buffer1.len();
            proof {
                lemma_pos_index(x as int, y as int, self@.width as int, self@.height as int);
                vstd::arithmetic::mul::lemma_mul_is_commutative(
                    self@.height as int,
                    self@.width as int,
                );
                assert((x as int) * (self@.width as int) + (y as int) < (n as int));
            }
            let idx: usize = x * self.width + y;
            if self.work_is_first {
                self.buffer1.set(idx, pixel);
            } else {
                self.buffer2.set(idx, pixel);
            }
        }
    }

    /// The buffer currently shown to the host, row by row.
    pub fn draw_buffer(&self) -> (r: &Vec<Pixel>)
        ensures
            r@ == self@.draw(),
    {
        if self.work_is_first {
            &self.buffer2
        } else {
            &self.buffer1
        }
    }

    /// The pixels currently shown to the host, row by row.
    pub fn pixels(&self) -> (r: &Vec<Pixel>)
        ensures
            r@ == self@.draw(),
    {
        self.draw_buffer()
    }

    /// The draw buffer paired with the position of each pixel.
    pub fn enumerate(&self) -> (r: Vec<((usize, usize), Pixel)>)
        requires
            self.inv(),
        ensures
            r@.len() == self@.draw().len(),
    {
        let buf = self.draw_buffer();
        let mut out: Vec<((usize, usize), Pixel)> = Vec::new();
        let mut i: usize = 0;
        let n = buf.len();
        while i < n
            invariant
                i <= n,
                n == self@.draw().len(),
                buf@.len() == n,
                out@.len() == i,
                self.inv(),
            decreases n - i,
        {
            let x = if self.width == 0 {
                0
            } else {
                i / self.width
            };
            let y = if self.width == 0 {
                0
            } else {
                i % self.width
            };
            out.push(((x, y), buf[i]));
            i = i + 1;
        }
        out
    }

    /// A copy of the draw buffer as a flat row-by-row vector.
    pub fn flatten(&self) -> (r: Vec<Pixel>)
        ensures
            r@ == self@.draw(),
    {
        self.draw_buffer().clone()
    }

    /// Exchange the work and draw buffers.
    pub fn switch_buffer(&mut self)
        ensures
            final(self)@.width == old(self)@.width,
            final(self)@.height == old(self)@.height,
            final(self)@.buffer1 == old(self)@.buffer1,
            final(self)@.buffer2 == old(self)@.buffer2,
            final(self)@.work_is_first == !old(self)@.work_is_first,
            old(self).inv() ==> final(self).inv(),
    {
        self.work_is_first = !self.work_is_first;
    }
}

} // verus!
