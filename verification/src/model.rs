//! Mathematical model of the GPU core.
//!
//! Every externally visible transition of the GPU — a GP0 word, a GP1
//! command, a synchronization step — is defined here as a function on
//! [`GpuView`], the ghost projection of the machine state. The executable
//! code in [`crate::gpu`] is proved to follow these functions exactly.

use crate::renderer::RendererCall;
use crate::renderer::Position;
use crate::renderer::Color;
use crate::renderer::sext11;
use crate::renderer::gp0_pos_x;
use crate::renderer::gp0_pos_y;
use crate::renderer::gp0_col_r;
use crate::renderer::gp0_col_g;
use crate::renderer::gp0_col_b;
use crate::timing::VMode;
use crate::timing::VerticalRes;
use crate::timing::DisplayDepth;
use crate::timing::Field;
use crate::timing::field_bit;
use crate::timing::ticks_per_line;
use crate::timing::lines_per_frame;
use crate::timing::ratio_fp;
use crate::HardwareType;
use vstd::prelude::*;

verus! {

/// Texture page color depth.
#[derive(Clone, Copy, PartialEq, Eq, Structural, Debug)]
pub enum TextureDepth {
    T4Bit,
    T8Bit,
    T15Bit,
}

/// Status-word code of a texture depth.
pub open spec fn texture_depth_code(d: TextureDepth) -> int {
    match d {
        TextureDepth::T4Bit => 0,
        TextureDepth::T8Bit => 1,
        TextureDepth::T15Bit => 2,
    }
}

/// Requested DMA direction.
#[derive(Clone, Copy, PartialEq, Eq, Structural, Debug)]
pub enum DmaDirection {
    Off,
    Fifo,
    CpuToGp0,
    VRamToCpu,
}

/// Status-word code of a DMA direction (bits 29 and 30).
pub open spec fn dma_direction_code(d: DmaDirection) -> int {
    match d {
        DmaDirection::Off => 0,
        DmaDirection::Fifo => 1,
        DmaDirection::CpuToGp0 => 2,
        DmaDirection::VRamToCpu => 3,
    }
}

/// The DMA-request signal (status bit 25). The ready flags it mirrors for
/// the two transfer directions are hard-wired to 1.
pub open spec fn dma_request_bit(d: DmaDirection) -> int {
    match d {
        DmaDirection::Off => 0,
        DmaDirection::Fifo => 1,
        DmaDirection::CpuToGp0 => 1,
        DmaDirection::VRamToCpu => 1,
    }
}

/// Mode of the GP0 register.
#[derive(Clone, Copy, PartialEq, Eq, Structural, Debug)]
pub enum Gp0Mode {
    /// Assembling and executing commands.
    Command,
    /// Consuming the pixel words of an image load.
    ImageLoad,
}

/// The GP0 command selected by the opcode byte.
#[derive(Clone, Copy, PartialEq, Eq, Structural, Debug)]
pub enum Gp0Op {
    Nop,
    ClearCache,
    FillRect,
    TriangleMonoOpaque,
    QuadMonoOpaque,
    QuadTextureBlendOpaque,
    QuadTextureRawOpaque,
    TriangleShadedOpaque,
    QuadShadedOpaque,
    RectOpaque,
    RectTextureBlendOpaque,
    RectTextureRawOpaque,
    ImageLoad,
    ImageStore,
    DrawMode,
    TextureWindow,
    DrawingAreaTopLeft,
    DrawingAreaBottomRight,
    DrawingOffset,
    MaskBitSetting,
}

/// Opcode byte of a GP0 or GP1 word.
pub open spec fn opcode(word: u32) -> int {
    word as int / 0x1000000
}

/// Whether the GP0 opcode byte is in the dispatch table.
pub open spec fn gp0_known(op: int) -> bool {
    gp0_decode(op) is Some
}

/// The dispatch table: command and total packet length (command word
/// included) for each supported GP0 opcode byte.
pub open spec fn gp0_decode(op: int) -> Option<(Gp0Op, int)> {
    if op == 0x00 {
        Some((Gp0Op::Nop, 1))
    } else if op == 0x01 {
        Some((Gp0Op::ClearCache, 1))
    } else if op == 0x02 {
        Some((Gp0Op::FillRect, 3))
    } else if op == 0x20 {
        Some((Gp0Op::TriangleMonoOpaque, 4))
    } else if op == 0x28 {
        Some((Gp0Op::QuadMonoOpaque, 5))
    } else if op == 0x2c || op == 0x2f {
        Some((Gp0Op::QuadTextureBlendOpaque, 9))
    } else if op == 0x2d {
        Some((Gp0Op::QuadTextureRawOpaque, 9))
    } else if op == 0x30 {
        Some((Gp0Op::TriangleShadedOpaque, 6))
    } else if op == 0x38 {
        Some((Gp0Op::QuadShadedOpaque, 8))
    } else if op == 0x60 {
        Some((Gp0Op::RectOpaque, 3))
    } else if op == 0x64 {
        Some((Gp0Op::RectTextureBlendOpaque, 4))
    } else if op == 0x65 {
        Some((Gp0Op::RectTextureRawOpaque, 4))
    } else if op == 0xa0 {
        Some((Gp0Op::ImageLoad, 3))
    } else if op == 0xc0 {
        Some((Gp0Op::ImageStore, 3))
    } else if op == 0xe1 {
        Some((Gp0Op::DrawMode, 1))
    } else if op == 0xe2 {
        Some((Gp0Op::TextureWindow, 1))
    } else if op == 0xe3 {
        Some((Gp0Op::DrawingAreaTopLeft, 1))
    } else if op == 0xe4 {
        Some((Gp0Op::DrawingAreaBottomRight, 1))
    } else if op == 0xe5 {
        Some((Gp0Op::DrawingOffset, 1))
    } else if op == 0xe6 {
        Some((Gp0Op::MaskBitSetting, 1))
    } else {
        None
    }
}

/// Total packet length of a GP0 command, command word included.
pub open spec fn gp0_op_len(op: Gp0Op) -> int {
    match op {
        Gp0Op::Nop => 1,
        Gp0Op::ClearCache => 1,
        Gp0Op::FillRect => 3,
        Gp0Op::TriangleMonoOpaque => 4,
        Gp0Op::QuadMonoOpaque => 5,
        Gp0Op::QuadTextureBlendOpaque => 9,
        Gp0Op::QuadTextureRawOpaque => 9,
        Gp0Op::TriangleShadedOpaque => 6,
        Gp0Op::QuadShadedOpaque => 8,
        Gp0Op::RectOpaque => 3,
        Gp0Op::RectTextureBlendOpaque => 4,
        Gp0Op::RectTextureRawOpaque => 4,
        Gp0Op::ImageLoad => 3,
        Gp0Op::ImageStore => 3,
        Gp0Op::DrawMode => 1,
        Gp0Op::TextureWindow => 1,
        Gp0Op::DrawingAreaTopLeft => 1,
        Gp0Op::DrawingAreaBottomRight => 1,
        Gp0Op::DrawingOffset => 1,
        Gp0Op::MaskBitSetting => 1,
    }
}

/// 0 or 1 as an integer.
pub open spec fn bit(b: bool) -> int {
    if b {
        1
    } else {
        0
    }
}

/// Texture page, texture window, drawing area and mask-bit
/// configuration: the state GP0(0xE1) to GP0(0xE6) write.
#[verifier::ext_equal]
pub ghost struct DrawingConfig {
    pub page_base_x: int,
    pub page_base_y: int,
    pub rectangle_texture_x_flip: bool,
    pub rectangle_texture_y_flip: bool,
    pub semi_transparency: int,
    pub texture_depth: TextureDepth,
    pub texture_window_x_mask: int,
    pub texture_window_y_mask: int,
    pub texture_window_x_offset: int,
    pub texture_window_y_offset: int,
    pub dithering: bool,
    pub draw_to_display: bool,
    pub force_set_mask_bit: bool,
    pub preserve_masked_pixels: bool,
    pub drawing_area_left: int,
    pub drawing_area_top: int,
    pub drawing_area_right: int,
    pub drawing_area_bottom: int,
    pub drawing_offset_x: int,
    pub drawing_offset_y: int,
    pub texture_disable: bool,
}

impl DrawingConfig {
    /// Every field holds a value its bit field can represent.
    pub open spec fn wf(self) -> bool {
        &&& 0 <= self.page_base_x < 0x10
        &&& 0 <= self.page_base_y < 2
        &&& 0 <= self.semi_transparency < 4
        &&& 0 <= self.texture_window_x_mask < 0x20
        &&& 0 <= self.texture_window_y_mask < 0x20
        &&& 0 <= self.texture_window_x_offset < 0x20
        &&& 0 <= self.texture_window_y_offset < 0x20
        &&& 0 <= self.drawing_area_left < 0x400
        &&& 0 <= self.drawing_area_top < 0x400
        &&& 0 <= self.drawing_area_right < 0x400
        &&& 0 <= self.drawing_area_bottom < 0x400
        &&& -0x400 <= self.drawing_offset_x < 0x400
        &&& -0x400 <= self.drawing_offset_y < 0x400
    }

    /// The cleared configuration of the boot state and the soft reset.
    pub open spec fn reset() -> DrawingConfig {
        DrawingConfig {
            page_base_x: 0,
            page_base_y: 0,
            rectangle_texture_x_flip: false,
            rectangle_texture_y_flip: false,
            semi_transparency: 0,
            texture_depth: TextureDepth::T4Bit,
            texture_window_x_mask: 0,
            texture_window_y_mask: 0,
            texture_window_x_offset: 0,
            texture_window_y_offset: 0,
            dithering: false,
            draw_to_display: false,
            force_set_mask_bit: false,
            preserve_masked_pixels: false,
            drawing_area_left: 0,
            drawing_area_top: 0,
            drawing_area_right: 0,
            drawing_area_bottom: 0,
            drawing_offset_x: 0,
            drawing_offset_y: 0,
            texture_disable: false,
        }
    }
}

/// Display geometry and bus configuration: the state GP1 writes.
#[verifier::ext_equal]
pub ghost struct DisplayConfig {
    pub hres: int,
    pub vres: VerticalRes,
    pub vmode: VMode,
    pub display_depth: DisplayDepth,
    pub interlaced: bool,
    pub display_disabled: bool,
    pub display_vram_x_start: int,
    pub display_vram_y_start: int,
    pub display_horiz_start: int,
    pub display_horiz_end: int,
    pub display_line_start: int,
    pub display_line_end: int,
    pub dma_direction: DmaDirection,
}

impl DisplayConfig {
    /// Every field holds a value its bit field can represent.
    pub open spec fn wf(self) -> bool {
        &&& 0 <= self.hres < 8
        &&& 0 <= self.display_vram_x_start < 0x400
        &&& 0 <= self.display_vram_y_start < 0x200
        &&& 0 <= self.display_horiz_start < 0x1000
        &&& 0 <= self.display_horiz_end < 0x1000
        &&& 0 <= self.display_line_start < 0x400
        &&& 0 <= self.display_line_end < 0x400
    }

    /// The deadline prediction never underflows: either the leading
    /// blanking is at least one line long, or its trailing-blanking
    /// branch is unreachable because the end line lies past the last
    /// frame line.
    pub open spec fn sync_safe(self) -> bool {
        self.display_line_start >= 1 || self.display_line_end > lines_per_frame(self.vmode)
    }

    /// The boot configuration; the soft reset restores it too (though
    /// with interlaced output selected).
    pub open spec fn reset() -> DisplayConfig {
        DisplayConfig {
            hres: 0,
            vres: VerticalRes::Y240Lines,
            vmode: VMode::Ntsc,
            display_depth: DisplayDepth::D15Bits,
            interlaced: false,
            display_disabled: true,
            display_vram_x_start: 0,
            display_vram_y_start: 0,
            display_horiz_start: 0x200,
            display_horiz_end: 0xc00,
            display_line_start: 0x10,
            display_line_end: 0x100,
            dma_direction: DmaDirection::Off,
        }
    }
}

/// The GP0 packet-assembly machine.
#[verifier::ext_equal]
pub ghost struct Gp0State {
    /// Parameter words collected for the current packet.
    pub buffer: Seq<u32>,
    /// Words still to fetch for the current packet.
    pub words_remaining: int,
    /// The command the current packet belongs to.
    pub op: Gp0Op,
    /// Whether GP0 collects commands or consumes image-load pixel data.
    pub mode: Gp0Mode,
    /// True when the GP0 interrupt has been requested.
    pub interrupt: bool,
}

impl Gp0State {
    /// The buffer fits its storage, and while a packet is being
    /// collected the buffer and the outstanding words add up to the
    /// command's length.
    pub open spec fn wf(self) -> bool {
        &&& 0 <= self.words_remaining < 0x100000000
        &&& self.buffer.len() <= 12
        &&& (self.mode == Gp0Mode::Command && self.words_remaining > 0 ==> self.buffer.len()
            + self.words_remaining == gp0_op_len(self.op))
    }

    /// The idle machine: between packets, in command mode.
    pub open spec fn reset() -> Gp0State {
        Gp0State {
            buffer: Seq::empty(),
            words_remaining: 0,
            op: Gp0Op::Nop,
            mode: Gp0Mode::Command,
            interrupt: false,
        }
    }
}

/// The timing cursor and the sampled vblank level.
#[verifier::ext_equal]
pub ghost struct TimingState {
    /// Currently displayed field; always Top for progressive output.
    pub field: Field,
    /// VBlank level as of the most recent synchronization.
    pub vblank_interrupt: bool,
    /// Fractional GPU cycle carry of the clock conversion (Q16 low word).
    pub gpu_clock_phase: int,
    /// Currently displayed video output line.
    pub display_line: int,
    /// GPU clock tick within the current line.
    pub display_line_tick: int,
}

/// Ghost projection of the whole GPU state.
#[verifier::ext_equal]
pub ghost struct GpuView {
    /// Calls received by the renderer, in protocol order.
    pub renderer: Seq<RendererCall>,
    /// Texture page, window, drawing area and mask-bit configuration.
    pub draw: DrawingConfig,
    /// Display geometry and bus configuration.
    pub disp: DisplayConfig,
    /// The GP0 packet-assembly machine.
    pub gp0: Gp0State,
    /// The timing cursor.
    pub timing: TimingState,
    /// Hardware variant, fixed at construction.
    pub hardware: HardwareType,
    /// Next word returned by GPUREAD.
    pub read_word: int,
}

impl GpuView {
    /// Whether the current scanline is inside the vertical blanking.
    pub open spec fn in_vblank(self) -> bool {
        self.timing.display_line < self.disp.display_line_start || self.timing.display_line
            >= self.disp.display_line_end
    }

    /// Index of the VRAM line currently sent to the video output.
    pub open spec fn displayed_vram_line(self) -> int {
        let offset = if self.disp.interlaced {
            self.timing.display_line * 2 + field_bit(self.timing.field)
        } else {
            self.timing.display_line
        };
        (self.disp.display_vram_y_start + offset) % 0x200
    }

    /// Configuration registers hold representable values, the GP0
    /// bookkeeping is consistent, progressive output scans the top field,
    /// and the deadline prediction cannot underflow.
    pub open spec fn wf_regs(self) -> bool {
        &&& self.draw.wf()
        &&& self.disp.wf()
        &&& self.gp0.wf()
        &&& (!self.disp.interlaced ==> self.timing.field == Field::Top)
        &&& self.disp.sync_safe()
        &&& 0 <= self.read_word < 0x100000000
    }

    /// The timing cursor lies inside the current frame geometry.
    pub open spec fn wf_timing(self) -> bool {
        &&& 0 <= self.timing.gpu_clock_phase < 0x10000
        &&& 0 <= self.timing.display_line_tick < ticks_per_line(self.disp.vmode)
        &&& 0 <= self.timing.display_line <= lines_per_frame(self.disp.vmode)
    }

    /// Full well-formedness.
    pub open spec fn wf(self) -> bool {
        self.wf_regs() && self.wf_timing()
    }
}

/// Bits 0 to 15 of the status word: the texture page and drawing
/// configuration. Bit 14 is reserved.
pub open spec fn status_low_bits(s: GpuView) -> int {
    s.draw.page_base_x + s.draw.page_base_y * 0x10 + s.draw.semi_transparency * 0x20
        + texture_depth_code(s.draw.texture_depth) * 0x80 + bit(s.draw.dithering) * 0x200 + bit(
        s.draw.draw_to_display,
    ) * 0x400 + bit(s.draw.force_set_mask_bit) * 0x800 + bit(s.draw.preserve_masked_pixels)
        * 0x1000 + field_bit(s.timing.field) * 0x2000 + bit(s.draw.texture_disable) * 0x8000
}

/// Bits 16 to 25 of the status word: the display configuration and the
/// interrupt and DMA-request flags.
pub open spec fn status_display_bits(s: GpuView) -> int {
    s.disp.hres * 0x10000 + bit(s.disp.vres == VerticalRes::Y480Lines) * 0x80000 + bit(
        s.disp.vmode == VMode::Pal,
    ) * 0x100000 + bit(s.disp.display_depth == DisplayDepth::D24Bits) * 0x200000 + bit(
        s.disp.interlaced,
    ) * 0x400000 + bit(s.disp.display_disabled) * 0x800000 + bit(s.gp0.interrupt) * 0x1000000
        + dma_request_bit(s.disp.dma_direction) * 0x2000000
}

/// Bit 31 of the status word: the parity of the displayed VRAM line, and
/// 0 during the vertical blanking.
pub open spec fn status_parity_bit(s: GpuView) -> int {
    if !s.in_vblank() {
        s.displayed_vram_line() % 2
    } else {
        0
    }
}

/// The 32-bit status word as a live projection of the state.
///
/// Bit 14 is reserved, bits 26 to 28 (the three ready flags) are
/// hard-wired to 1, and bit 31 carries the parity of the displayed VRAM
/// line outside the vertical blanking.
pub open spec fn status_word(s: GpuView) -> int {
    status_low_bits(s) + status_display_bits(s) + 0x1C000000 + dma_direction_code(
        s.disp.dma_direction,
    ) * 0x20000000 + status_parity_bit(s) * 0x80000000
}

/// The timing advance of one synchronization with `delta` elapsed CPU
/// cycles: the Q16.16 phase accumulates, whole GPU ticks move the
/// scanline cursor, and frame wrap-around toggles the interlace field.
#[verifier::opaque]
pub open spec fn sync_timing(t: TimingState, delta: int, vmode: VMode, interlaced: bool, hw: HardwareType) -> TimingState {
    let acc = t.gpu_clock_phase + delta * ratio_fp(hw);
    let phase = acc % 0x10000;
    let delta_gpu = acc / 0x10000;
    let tpl = ticks_per_line(vmode);
    let lpf = lines_per_frame(vmode);
    let line_tick = t.display_line_tick + delta_gpu;
    let tick = line_tick % tpl;
    let line_raw = t.display_line + line_tick / tpl;
    let field = if line_raw > lpf && interlaced {
        if (line_raw / lpf + field_bit(t.field)) % 2 == 1 {
            Field::Top
        } else {
            Field::Bottom
        }
    } else {
        t.field
    };
    let line = if line_raw > lpf {
        line_raw % lpf
    } else {
        line_raw
    };
    TimingState {
        field: field,
        vblank_interrupt: t.vblank_interrupt,
        gpu_clock_phase: phase,
        display_line: line,
        display_line_tick: tick,
    }
}

/// The whole state under the timing advance alone.
pub open spec fn sync_timing_state(s: GpuView, delta: int) -> GpuView {
    GpuView {
        timing: sync_timing(s.timing, delta, s.disp.vmode, s.disp.interlaced, s.hardware),
        ..s
    }
}

/// State after one full synchronization: the timing advance followed by
/// re-sampling the vblank level, appending the end-of-vblank present call
/// on a falling edge.
#[verifier::opaque]
pub open spec fn sync_state(s: GpuView, delta: int) -> GpuView {
    let s1 = sync_timing_state(s, delta);
    let t1 = s1.timing;
    let vblank = s1.in_vblank();
    GpuView {
        timing: TimingState { vblank_interrupt: vblank, ..t1 },
        renderer: if s.timing.vblank_interrupt && !vblank {
            s.renderer.push(RendererCall::Display)
        } else {
            s.renderer
        },
        ..s
    }
}

/// How one synchronization decomposes: the timing advance, the re-sampled
/// vblank level, and the present call on a falling edge; nothing else
/// changes.
pub proof fn lemma_sync_state_parts(s: GpuView, delta: int)
    ensures
        ({
            let s1 = sync_timing_state(s, delta);
            let vb = s1.in_vblank();
            &&& sync_state(s, delta).timing == (TimingState { vblank_interrupt: vb, ..s1.timing })
            &&& sync_state(s, delta).renderer == (if s.timing.vblank_interrupt && !vb {
                s.renderer.push(RendererCall::Display)
            } else {
                s.renderer
            })
            &&& sync_state(s, delta).draw == s.draw
            &&& sync_state(s, delta).disp == s.disp
            &&& sync_state(s, delta).gp0 == s.gp0
            &&& sync_state(s, delta).hardware == s.hardware
            &&& sync_state(s, delta).read_word == s.read_word
            &&& sync_state(s, delta).in_vblank() == vb
        }),
{
    reveal(sync_state);
}

/// From any well-formed configuration and nonnegative cursor, one
/// synchronization lands the cursor inside the frame geometry and keeps
/// the registers well formed.
pub proof fn lemma_sync_state_wf(s: GpuView, delta: int)
    requires
        s.wf_regs(),
        delta >= 0,
        s.timing.gpu_clock_phase >= 0,
        s.timing.display_line >= 0,
        s.timing.display_line_tick >= 0,
    ensures
        sync_state(s, delta).wf_regs(),
        sync_state(s, delta).wf_timing(),
{
    reveal(sync_state);
    reveal(sync_timing);
    crate::timing::lemma_ratio_fp_bounds(s.hardware);
    let t = s.timing;
    let acc = t.gpu_clock_phase + delta * ratio_fp(s.hardware);
    let tpl = ticks_per_line(s.disp.vmode);
    let lpf = lines_per_frame(s.disp.vmode);
    vstd::arithmetic::mul::lemma_mul_nonnegative(delta, ratio_fp(s.hardware));
    vstd::arithmetic::div_mod::lemma_mod_bound(acc, 0x10000);
    vstd::arithmetic::div_mod::lemma_div_pos_is_pos(acc, 0x10000);
    let line_tick = t.display_line_tick + acc / 0x10000;
    vstd::arithmetic::div_mod::lemma_mod_bound(line_tick, tpl);
    vstd::arithmetic::div_mod::lemma_div_pos_is_pos(line_tick, tpl);
    let line_raw = t.display_line + line_tick / tpl;
    if line_raw > lpf {
        vstd::arithmetic::div_mod::lemma_mod_bound(line_raw, lpf);
    }
}

/// Whether the synchronization crosses into the vertical blanking, which
/// asserts the VBlank interrupt.
pub open spec fn sync_rising_edge(s: GpuView, delta: int) -> bool {
    !s.timing.vblank_interrupt && sync_state(s, delta).in_vblank()
}

/// GPU clock ticks from the timing cursor to the next deadline: the end of
/// the leading vertical blanking of this frame (or the next one when the
/// trailing blanking has begun), or the start of the trailing blanking
/// during active video.
#[verifier::opaque]
pub open spec fn predict_ticks(s: GpuView) -> int {
    let tpl = ticks_per_line(s.disp.vmode);
    let lpf = lines_per_frame(s.disp.vmode);
    let to_next_line = tpl - s.timing.display_line_tick;
    if s.timing.display_line >= s.disp.display_line_end {
        to_next_line + (lpf - s.timing.display_line) * tpl + (s.disp.display_line_start - 1) * tpl
    } else if s.timing.display_line < s.disp.display_line_start {
        to_next_line + (s.disp.display_line_start - 1 - s.timing.display_line) * tpl
    } else {
        to_next_line + (s.disp.display_line_end - 1 - s.timing.display_line) * tpl
    }
}

/// The deadline in CPU cycles: the tick count scaled by the clock ratio,
/// corrected by the running phase and rounded up so the emulator never
/// wakes early.
#[verifier::opaque]
pub open spec fn predict_delta(s: GpuView) -> int {
    let d = predict_ticks(s) * 0x10000 - s.timing.gpu_clock_phase;
    (d + ratio_fp(s.hardware) - 1) / ratio_fp(s.hardware)
}

/// Position decoded from a GP0 parameter word.
pub open spec fn word_position(w: int) -> Position {
    Position { x: gp0_pos_x(w) as i16, y: gp0_pos_y(w) as i16 }
}

/// Color decoded from a GP0 color word.
pub open spec fn word_color(w: int) -> Color {
    Color { r: gp0_col_r(w) as u8, g: gp0_col_g(w) as u8, b: gp0_col_b(w) as u8 }
}

/// The quad covering a rectangle: `color` word, `top_left` word, `size`
/// word, flat color at all four corners.
pub open spec fn rect_quad(color: int, top_left: int, size: int) -> RendererCall {
    let x = gp0_pos_x(top_left);
    let y = gp0_pos_y(top_left);
    let w = gp0_pos_x(size);
    let h = gp0_pos_y(size);
    RendererCall::PushQuad {
        positions: [
            Position { x: x as i16, y: y as i16 },
            Position { x: (x + w) as i16, y: y as i16 },
            Position { x: x as i16, y: (y + h) as i16 },
            Position { x: (x + w) as i16, y: (y + h) as i16 },
        ],
        colors: [word_color(color), word_color(color), word_color(color), word_color(color)],
    }
}

/// A monochrome triangle: one color word, three position words.
pub open spec fn mono_triangle(b: Seq<u32>) -> RendererCall {
    RendererCall::PushTriangle {
        positions: [
            word_position(b[1] as int),
            word_position(b[2] as int),
            word_position(b[3] as int),
        ],
        colors: [word_color(b[0] as int), word_color(b[0] as int), word_color(b[0] as int)],
    }
}

/// A monochrome quad: one color word, four position words.
pub open spec fn mono_quad(b: Seq<u32>) -> RendererCall {
    RendererCall::PushQuad {
        positions: [
            word_position(b[1] as int),
            word_position(b[2] as int),
            word_position(b[3] as int),
            word_position(b[4] as int),
        ],
        colors: [
            word_color(b[0] as int),
            word_color(b[0] as int),
            word_color(b[0] as int),
            word_color(b[0] as int),
        ],
    }
}

/// A shaded triangle: colors at the even positions, vertices at the odd.
pub open spec fn shaded_triangle(b: Seq<u32>) -> RendererCall {
    RendererCall::PushTriangle {
        positions: [
            word_position(b[1] as int),
            word_position(b[3] as int),
            word_position(b[5] as int),
        ],
        colors: [word_color(b[0] as int), word_color(b[2] as int), word_color(b[4] as int)],
    }
}

/// A shaded quad: colors at the even positions, vertices at the odd.
pub open spec fn shaded_quad(b: Seq<u32>) -> RendererCall {
    RendererCall::PushQuad {
        positions: [
            word_position(b[1] as int),
            word_position(b[3] as int),
            word_position(b[5] as int),
            word_position(b[7] as int),
        ],
        colors: [
            word_color(b[0] as int),
            word_color(b[2] as int),
            word_color(b[4] as int),
            word_color(b[6] as int),
        ],
    }
}

/// The solid fallback color a textured quad is drawn with while textures
/// are stubbed; vertices sit at the odd parameter positions.
pub open spec fn textured_quad_stub(b: Seq<u32>) -> RendererCall {
    RendererCall::PushQuad {
        positions: [
            word_position(b[1] as int),
            word_position(b[3] as int),
            word_position(b[5] as int),
            word_position(b[7] as int),
        ],
        colors: [
            Color { r: 0x80, g: 0, b: 0 },
            Color { r: 0x80, g: 0, b: 0 },
            Color { r: 0x80, g: 0, b: 0 },
            Color { r: 0x80, g: 0, b: 0 },
        ],
    }
}

/// The drawing configuration written by a GP0(0xE1) draw-mode word.
pub open spec fn draw_mode_config(d: DrawingConfig, v: int) -> DrawingConfig {
    DrawingConfig {
        page_base_x: v % 0x10,
        page_base_y: (v / 0x10) % 2,
        semi_transparency: (v / 0x20) % 4,
        texture_depth: if (v / 0x80) % 4 == 0 {
            TextureDepth::T4Bit
        } else if (v / 0x80) % 4 == 1 {
            TextureDepth::T8Bit
        } else {
            TextureDepth::T15Bit
        },
        dithering: (v / 0x200) % 2 == 1,
        draw_to_display: (v / 0x400) % 2 == 1,
        texture_disable: (v / 0x800) % 2 == 1,
        rectangle_texture_x_flip: (v / 0x1000) % 2 == 1,
        rectangle_texture_y_flip: (v / 0x2000) % 2 == 1,
        ..d
    }
}

/// Words of pixel data a GP0(0xA0) image load expects: the pixel count
/// rounded up to a whole number of 32-bit words.
pub open spec fn image_load_words(resolution: int) -> int {
    let pixels = (resolution % 0x10000) * (resolution / 0x10000);
    let padded = pixels + 1 - (pixels + 1) % 2;
    padded / 2
}

/// Effect of the command selected by `s.gp0.op` once its last parameter
/// word has been pushed, so that `s.gp0.buffer` holds the whole packet.
#[verifier::opaque]
pub open spec fn exec_gp0_command(s: GpuView) -> GpuView {
    let b = s.gp0.buffer;
    match s.gp0.op {
        Gp0Op::Nop => s,
        Gp0Op::ClearCache => s,
        Gp0Op::FillRect => GpuView {
            renderer: s.renderer.push(rect_quad(b[0] as int, b[1] as int, b[2] as int)),
            ..s
        },
        Gp0Op::TriangleMonoOpaque => GpuView { renderer: s.renderer.push(mono_triangle(b)), ..s },
        Gp0Op::QuadMonoOpaque => GpuView { renderer: s.renderer.push(mono_quad(b)), ..s },
        Gp0Op::QuadTextureBlendOpaque => GpuView {
            renderer: s.renderer.push(textured_quad_stub(b)),
            ..s
        },
        Gp0Op::QuadTextureRawOpaque => GpuView {
            renderer: s.renderer.push(textured_quad_stub(b)),
            ..s
        },
        Gp0Op::TriangleShadedOpaque => GpuView { renderer: s.renderer.push(shaded_triangle(b)), ..s },
        Gp0Op::QuadShadedOpaque => GpuView { renderer: s.renderer.push(shaded_quad(b)), ..s },
        Gp0Op::RectOpaque => GpuView {
            renderer: s.renderer.push(rect_quad(b[0] as int, b[1] as int, b[2] as int)),
            ..s
        },
        Gp0Op::RectTextureBlendOpaque => GpuView {
            renderer: s.renderer.push(rect_quad(b[0] as int, b[1] as int, b[3] as int)),
            ..s
        },
        Gp0Op::RectTextureRawOpaque => GpuView {
            renderer: s.renderer.push(rect_quad(b[0] as int, b[1] as int, b[3] as int)),
            ..s
        },
        Gp0Op::ImageLoad => GpuView {
            gp0: Gp0State {
                words_remaining: image_load_words(b[2] as int),
                mode: Gp0Mode::ImageLoad,
                ..s.gp0
            },
            ..s
        },
        Gp0Op::ImageStore => s,
        Gp0Op::DrawMode => GpuView { draw: draw_mode_config(s.draw, b[0] as int), ..s },
        Gp0Op::TextureWindow => {
            let v = b[0] as int;
            GpuView {
                draw: DrawingConfig {
                    texture_window_x_mask: v % 0x20,
                    texture_window_y_mask: (v / 0x20) % 0x20,
                    texture_window_x_offset: (v / 0x400) % 0x20,
                    texture_window_y_offset: (v / 0x8000) % 0x20,
                    ..s.draw
                },
                ..s
            }
        },
        Gp0Op::DrawingAreaTopLeft => {
            let v = b[0] as int;
            GpuView {
                draw: DrawingConfig {
                    drawing_area_left: v % 0x400,
                    drawing_area_top: (v / 0x400) % 0x400,
                    ..s.draw
                },
                ..s
            }
        },
        Gp0Op::DrawingAreaBottomRight => {
            let v = b[0] as int;
            GpuView {
                draw: DrawingConfig {
                    drawing_area_right: v % 0x400,
                    drawing_area_bottom: (v / 0x400) % 0x400,
                    ..s.draw
                },
                ..s
            }
        },
        Gp0Op::DrawingOffset => {
            let v = b[0] as int;
            let x = sext11(v);
            let y = sext11(v / 0x800);
            GpuView {
                draw: DrawingConfig { drawing_offset_x: x, drawing_offset_y: y, ..s.draw },
                renderer: s.renderer.push(RendererCall::SetDrawOffset { x: x as i16, y: y as i16 }),
                ..s
            }
        },
        Gp0Op::MaskBitSetting => {
            let v = b[0] as int;
            GpuView {
                draw: DrawingConfig {
                    force_set_mask_bit: v % 2 == 1,
                    preserve_masked_pixels: (v / 2) % 2 == 1,
                    ..s.draw
                },
                ..s
            }
        },
    }
}

/// One GP0 word: when the machine is between packets the word's opcode
/// byte selects the command and its length; the word is then consumed
/// either as a packet parameter (running the command on the last one) or
/// as image-load pixel data.
#[verifier::opaque]
pub open spec fn gp0_step(s: GpuView, w: u32) -> GpuView {
    let s1 = if s.gp0.words_remaining == 0 {
        let (op, len) = gp0_decode(opcode(w)).unwrap();
        GpuView {
            gp0: Gp0State { op: op, words_remaining: len, buffer: Seq::empty(), ..s.gp0 },
            ..s
        }
    } else {
        s
    };
    let s2 = GpuView {
        gp0: Gp0State { words_remaining: s1.gp0.words_remaining - 1, ..s1.gp0 },
        ..s1
    };
    match s2.gp0.mode {
        Gp0Mode::Command => {
            let s3 = GpuView { gp0: Gp0State { buffer: s2.gp0.buffer.push(w), ..s2.gp0 }, ..s2 };
            if s3.gp0.words_remaining == 0 {
                exec_gp0_command(s3)
            } else {
                s3
            }
        },
        Gp0Mode::ImageLoad => {
            if s2.gp0.words_remaining == 0 {
                GpuView { gp0: Gp0State { mode: Gp0Mode::Command, ..s2.gp0 }, ..s2 }
            } else {
                s2
            }
        },
    }
}

/// Precondition of a GP0 write: a word that starts a packet must carry a
/// known opcode, and a draw-mode word must not name the reserved texture
/// depth.
pub open spec fn gp0_ok(s: GpuView, w: u32) -> bool {
    s.gp0.words_remaining == 0 ==> {
        &&& gp0_known(opcode(w))
        &&& (s.gp0.mode == Gp0Mode::Command && opcode(w) == 0xe1 ==> (w as int / 0x80) % 4 != 3)
    }
}

/// Boot state of the machine: every drawing and display register cleared
/// to the reset values, progressive NTSC output, display disabled.
pub open spec fn boot_state(renderer: Seq<RendererCall>, hardware: HardwareType) -> GpuView {
    GpuView {
        renderer: renderer,
        draw: DrawingConfig::reset(),
        disp: DisplayConfig::reset(),
        gp0: Gp0State::reset(),
        timing: TimingState {
            field: Field::Top,
            vblank_interrupt: false,
            gpu_clock_phase: 0,
            display_line: 0,
            display_line_tick: 0,
        },
        hardware: hardware,
        read_word: 0,
    }
}

/// State after the GP1 soft reset, before the synchronization that follows
/// it: the boot register values with interlaced output selected, the
/// command buffer reset, the interrupt acknowledged, and the draw offset
/// handed to the renderer. The clock phase, the sampled vblank level and
/// the staged GPUREAD value survive the reset.
pub open spec fn gp1_reset_state(s: GpuView) -> GpuView {
    GpuView {
        renderer: s.renderer.push(RendererCall::SetDrawOffset { x: 0, y: 0 }),
        draw: DrawingConfig::reset(),
        disp: DisplayConfig { interlaced: true, ..DisplayConfig::reset() },
        gp0: Gp0State::reset(),
        timing: TimingState {
            field: Field::Top,
            vblank_interrupt: s.timing.vblank_interrupt,
            gpu_clock_phase: s.timing.gpu_clock_phase,
            display_line: 0,
            display_line_tick: 0,
        },
        ..s
    }
}

/// DMA direction selected by the low two bits of a GP1(0x04) word.
pub open spec fn dma_direction_from(v: int) -> DmaDirection {
    if v % 4 == 0 {
        DmaDirection::Off
    } else if v % 4 == 1 {
        DmaDirection::Fifo
    } else if v % 4 == 2 {
        DmaDirection::CpuToGp0
    } else {
        DmaDirection::VRamToCpu
    }
}

/// The display configuration written by a GP1(0x08) display-mode word.
pub open spec fn display_mode_config(d: DisplayConfig, v: int) -> DisplayConfig {
    DisplayConfig {
        hres: (v / 0x40) % 2 + (v % 4) * 2,
        vres: if (v / 4) % 2 == 1 {
            VerticalRes::Y480Lines
        } else {
            VerticalRes::Y240Lines
        },
        vmode: if (v / 8) % 2 == 1 {
            VMode::Pal
        } else {
            VMode::Ntsc
        },
        display_depth: if (v / 0x10) % 2 == 1 {
            DisplayDepth::D15Bits
        } else {
            DisplayDepth::D24Bits
        },
        interlaced: (v / 0x20) % 2 == 1,
        ..d
    }
}

/// The value GP1(0x10) stages into the GPUREAD register.
pub open spec fn gp1_info_value(s: GpuView, v: int) -> int {
    if v % 16 == 3 {
        s.draw.drawing_area_left + s.draw.drawing_area_top * 0x400
    } else if v % 16 == 4 {
        s.draw.drawing_area_right + s.draw.drawing_area_bottom * 0x400
    } else if v % 16 == 5 {
        s.draw.drawing_offset_x % 0x800 + (s.draw.drawing_offset_y % 0x800) * 0x800
    } else {
        2
    }
}

/// The state a GP1 command's synchronization starts from: the soft reset,
/// or the vertical range or display mode already applied.
pub open spec fn gp1_pre_sync_state(s: GpuView, w: u32) -> GpuView {
    if opcode(w) == 0x00 {
        gp1_reset_state(s)
    } else if opcode(w) == 0x07 {
        GpuView {
            disp: DisplayConfig {
                display_line_start: w as int % 0x400,
                display_line_end: (w as int / 0x400) % 0x400,
                ..s.disp
            },
            ..s
        }
    } else {
        GpuView {
            disp: display_mode_config(s.disp, w as int),
            timing: TimingState { field: Field::Top, ..s.timing },
            ..s
        }
    }
}

/// One GP1 control word; `delta` is the CPU-cycle count handed back by the
/// time keeper for the synchronization the commands 0x00, 0x07 and 0x08
/// perform.
pub open spec fn gp1_step(s: GpuView, w: u32, delta: int) -> GpuView {
    let op = opcode(w);
    let v = w as int;
    if op == 0x00 || op == 0x07 || op == 0x08 {
        sync_state(gp1_pre_sync_state(s, w), delta)
    } else if op == 0x01 {
        GpuView {
            gp0: Gp0State {
                buffer: Seq::empty(),
                words_remaining: 0,
                mode: Gp0Mode::Command,
                ..s.gp0
            },
            ..s
        }
    } else if op == 0x02 {
        GpuView { gp0: Gp0State { interrupt: false, ..s.gp0 }, ..s }
    } else if op == 0x03 {
        GpuView { disp: DisplayConfig { display_disabled: v % 2 == 1, ..s.disp }, ..s }
    } else if op == 0x04 {
        GpuView { disp: DisplayConfig { dma_direction: dma_direction_from(v), ..s.disp }, ..s }
    } else if op == 0x05 {
        GpuView {
            disp: DisplayConfig {
                display_vram_x_start: (v % 0x400) / 2 * 2,
                display_vram_y_start: (v / 0x400) % 0x200,
                ..s.disp
            },
            ..s
        }
    } else if op == 0x06 {
        GpuView {
            disp: DisplayConfig {
                display_horiz_start: v % 0x1000,
                display_horiz_end: (v / 0x1000) % 0x1000,
                ..s.disp
            },
            ..s
        }
    } else {
        GpuView { read_word: gp1_info_value(s, v), ..s }
    }
}

/// Whether the GP1 command synchronizes the timing state.
pub open spec fn gp1_syncs(w: u32) -> bool {
    opcode(w) == 0x00 || opcode(w) == 0x07 || opcode(w) == 0x08
}

/// Whether the GP1 command changes the video geometry and so notifies the
/// hardware-timer subsystem.
pub open spec fn gp1_notifies(w: u32) -> bool {
    opcode(w) == 0x00 || opcode(w) == 0x08
}

/// One word-wide bus write: the synchronization that precedes every
/// access, then the GP0 or GP1 dispatch by register offset. A GP1 command
/// that synchronizes again does so with no further cycles elapsed.
pub open spec fn store_step(s: GpuView, w: u32, offset: int, delta: int) -> GpuView {
    let s1 = sync_state(s, delta);
    if offset == 0 {
        gp0_step(s1, w)
    } else {
        gp1_step(s1, w, 0)
    }
}

/// How many VBlank edges one bus write raises: one for the leading
/// synchronization, and one more when a synchronizing GP1 command crosses
/// into the blanking it has just configured.
pub open spec fn store_vblank_edges(s: GpuView, w: u32, offset: int, delta: int) -> int {
    bit(sync_rising_edge(s, delta)) + if offset == 4 && gp1_syncs(w) {
        bit(sync_rising_edge(gp1_pre_sync_state(sync_state(s, delta), w), 0))
    } else {
        0
    }
}

/// The value a word-wide bus read returns: the staged GPUREAD response at
/// offset 0, the status word at offset 4, both as of the synchronized
/// state.
pub open spec fn load_value(s: GpuView, offset: int, delta: int) -> int {
    if offset == 0 {
        sync_state(s, delta).read_word
    } else {
        status_word(sync_state(s, delta))
    }
}

/// Precondition of a GP1 write: the opcode must be in the dispatch table,
/// the reverse-flag of the display mode and the unsupported info selectors
/// are refused, and a vertical range that could underflow the deadline
/// prediction is ruled out.
pub open spec fn gp1_ok(s: GpuView, w: u32) -> bool {
    let op = opcode(w);
    let v = w as int;
    &&& (op == 0x00 || op == 0x01 || op == 0x02 || op == 0x03 || op == 0x04 || op == 0x05 || op
        == 0x06 || op == 0x07 || op == 0x08 || op == 0x10)
    &&& (op == 0x07 ==> v % 0x400 >= 1 || (v / 0x400) % 0x400 > lines_per_frame(s.disp.vmode))
    &&& (op == 0x08 ==> (v / 0x80) % 2 == 0 && (s.disp.display_line_start >= 1
        || s.disp.display_line_end > lines_per_frame(display_mode_config(s.disp, v).vmode)))
    &&& (op == 0x10 ==> v % 16 == 3 || v % 16 == 4 || v % 16 == 5 || v % 16 == 7)
}

} // verus!
