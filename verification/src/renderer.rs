//! Recording drawing backend.
//!
//! The GPU core forwards triangles, quads, the draw offset and the
//! end-of-vblank present point to a renderer. This one records the calls in
//! protocol order, which is exactly the interface contract the core relies
//! on; a host-side rasterizer consumes the same stream.

use vstd::prelude::*;

verus! {

/// A vertex position in VRAM coordinates.
#[derive(Clone, Copy, PartialEq, Eq, Structural, Debug)]
pub struct Position {
    pub x: i16,
    pub y: i16,
}

/// Sign extension of an 11-bit field to a signed value.
pub open spec fn sext11(v: int) -> int {
    if v % 0x800 >= 0x400 {
        v % 0x800 - 0x800
    } else {
        v % 0x800
    }
}

/// The x component packed in a GP0 position word.
pub open spec fn gp0_pos_x(word: int) -> int {
    sext11(word)
}

/// The y component packed in a GP0 position word.
pub open spec fn gp0_pos_y(word: int) -> int {
    sext11(word / 0x10000)
}

impl Position {
    /// Decodes a position from a GP0 parameter word: x in the low halfword,
    /// y in the high halfword, each sign-extended from 11 bits.
    pub fn from_gp0(word: u32) -> (r: Position)
        ensures
            r.x == gp0_pos_x(word as int),
            r.y == gp0_pos_y(word as int),
    {
        let xf: u32 = word % 0x800;
        let yf: u32 = (word / 0x10000) % 0x800;
        let x: i16 = if xf >= 0x400 {
            (xf as i32 - 0x800) as i16
        } else {
            xf as i16
        };
        let y: i16 = if yf >= 0x400 {
            (yf as i32 - 0x800) as i16
        } else {
            yf as i16
        };
        Position { x, y }
    }
}

/// An 8-bit-per-component RGB color.
#[derive(Clone, Copy, PartialEq, Eq, Structural, Debug)]
pub struct Color {
    pub r: u8,
    pub g: u8,
    pub b: u8,
}

/// The red component packed in a GP0 color word.
pub open spec fn gp0_col_r(word: int) -> int {
    word % 0x100
}

/// The green component packed in a GP0 color word.
pub open spec fn gp0_col_g(word: int) -> int {
    (word / 0x100) % 0x100
}

/// The blue component packed in a GP0 color word.
pub open spec fn gp0_col_b(word: int) -> int {
    (word / 0x10000) % 0x100
}

impl Color {
    /// Decodes a color from a GP0 word: red, green and blue in the three
    /// low bytes.
    pub fn from_gp0(word: u32) -> (r: Color)
        ensures
            r.r == gp0_col_r(word as int),
            r.g == gp0_col_g(word as int),
            r.b == gp0_col_b(word as int),
    {
        Color {
            r: (word % 0x100) as u8,
            g: ((word / 0x100) % 0x100) as u8,
            b: ((word / 0x10000) % 0x100) as u8,
        }
    }
}

/// One call received by the renderer.
#[derive(Clone, Copy, PartialEq, Debug)]
pub enum RendererCall {
    PushTriangle { positions: [Position; 3], colors: [Color; 3] },
    PushQuad { positions: [Position; 4], colors: [Color; 4] },
    SetDrawOffset { x: i16, y: i16 },
    Display,
}

/// The recording renderer; its view is the sequence of calls received.
pub struct Renderer {
    calls: Vec<RendererCall>,
}

impl View for Renderer {
    type V = Seq<RendererCall>;

    closed spec fn view(&self) -> Seq<RendererCall> {
        self.calls@
    }
}

impl Renderer {
    /// Creates a renderer with an empty call log.
    pub fn new() -> (r: Renderer)
        ensures
            r@ == Seq::<RendererCall>::empty(),
    {
        Renderer { calls: Vec::new() }
    }

    /// Receives an opaque triangle.
    pub fn push_triangle(&mut self, positions: [Position; 3], colors: [Color; 3])
        ensures
            final(self)@ == old(self)@.push(RendererCall::PushTriangle { positions, colors }),
    {
        self.calls.push(RendererCall::PushTriangle { positions, colors });
    }

    /// Receives an opaque quadrilateral.
    pub fn push_quad(&mut self, positions: [Position; 4], colors: [Color; 4])
        ensures
            final(self)@ == old(self)@.push(RendererCall::PushQuad { positions, colors }),
    {
        self.calls.push(RendererCall::PushQuad { positions, colors });
    }

    /// Receives the drawing offset applied to subsequent primitives.
    pub fn set_draw_offset(&mut self, x: i16, y: i16)
        ensures
            final(self)@ == old(self)@.push(RendererCall::SetDrawOffset { x, y }),
    {
        self.calls.push(RendererCall::SetDrawOffset { x, y });
    }

    /// Presents the frame; called at the end of each vertical blanking.
    pub fn display(&mut self)
        ensures
            final(self)@ == old(self)@.push(RendererCall::Display),
    {
        self.calls.push(RendererCall::Display);
    }

    /// Number of calls received so far.
    pub fn len(&self) -> (r: usize)
        ensures
            r == self@.len(),
    {
        self.calls.len()
    }

    /// The `i`-th call received.
    pub fn get(&self, i: usize) -> (r: RendererCall)
        requires
            i < self@.len(),
        ensures
            r == self@[i as int],
    {
        self.calls[i]
    }
}

} // verus!
