//! The GPU state machine.
//!
//! Owns every drawing and display register, dispatches GP0 and GP1 words,
//! advances the scanline counter on synchronization, raises the VBlank
//! interrupt, computes the next synchronization deadline and forwards
//! drawing primitives to the renderer. Each operation is proved equal to
//! its transition function in [`crate::model`].

use crate::command_buffer::CommandBuffer;
use crate::fixed::FracCycles;
use crate::interrupts::Interrupt;
use crate::interrupts::InterruptState;
use crate::model::DisplayConfig;
use crate::model::DmaDirection;
use crate::model::DrawingConfig;
use crate::model::Gp0Mode;
use crate::model::Gp0Op;
use crate::model::Gp0State;
use crate::model::GpuView;
use crate::model::TextureDepth;
use crate::model::TimingState;
use crate::model::boot_state;
use crate::model::status_word;
use crate::renderer::Color;
use crate::renderer::Position;
use crate::renderer::Renderer;
use crate::timekeeper::Peripheral;
use crate::timekeeper::TimeKeeper;
use crate::timing::DisplayDepth;
use crate::timing::Field;
use crate::timing::HorizontalRes;
use crate::timing::VMode;
use crate::timing::VerticalRes;
use crate::timing::field_bit;
use crate::timing::lemma_ratio_fp_bounds;
use crate::timing::lines_per_frame;
use crate::timing::ratio_fp;
use crate::timing::ticks_per_line;
use crate::HardwareType;
use crate::CPU_FREQ_HZ;
use vstd::prelude::*;

verus! {

/// Largest CPU-cycle delta one synchronization accepts; beyond it the
/// Q16.16 accumulator could overflow 64 bits.
pub const MAX_SYNC_DELTA: u64 = 0x4000_0000_0000;

/// The timing advance of one synchronization, on the bare cursor values:
/// returns the new clock phase, line tick, line and field after `delta_cpu`
/// elapsed CPU cycles.
#[verifier::rlimit(100)]
fn advance_cursor(
    phase: u16,
    tick: u16,
    line: u16,
    field: Field,
    vblank: bool,
    interlaced: bool,
    vmode: VMode,
    hardware: HardwareType,
    delta_cpu: u64,
) -> (r: (u16, u16, u16, Field))
    requires
        delta_cpu <= MAX_SYNC_DELTA,
    ensures
        ({
            let t = crate::model::sync_timing(
                (TimingState {
                    field: field,
                    vblank_interrupt: vblank,
                    gpu_clock_phase: phase as int,
                    display_line: line as int,
                    display_line_tick: tick as int,
                }),
                delta_cpu as int,
                vmode,
                interlaced,
                hardware,
            );
            &&& r.0 == t.gpu_clock_phase
            &&& r.1 == t.display_line_tick
            &&& r.2 == t.display_line
            &&& r.3 == t.field
            &&& t.vblank_interrupt == vblank
            &&& (!interlaced ==> t.field == field)
            &&& 0 <= t.display_line_tick < ticks_per_line(vmode)
            &&& 0 <= t.display_line <= lines_per_frame(vmode)
        }),
{
    proof {
        reveal(crate::model::sync_timing);
        lemma_ratio_fp_bounds(hardware);
        vstd::arithmetic::mul::lemma_mul_upper_bound(
            delta_cpu as int,
            MAX_SYNC_DELTA as int,
            ratio_fp(hardware),
            0x20000,
        );
    }
    let gpu_clock: u64 = match hardware {
        HardwareType::Ntsc => 53_690_000,
        HardwareType::Pal => 53_200_000,
    };
    let ratio = (gpu_clock * 0x10000) / CPU_FREQ_HZ;
    // Convert the delta to GPU time, keeping the fractional leftover from
    // last time; the 16 low bits are the new fractional part.
    let acc: u64 = phase as u64 + delta_cpu * ratio;
    let new_phase = (acc % 0x10000) as u16;
    let delta_gpu: u64 = acc / 0x10000;
    // Compute the current line and the position within the line.
    let tpl: u64 = match vmode {
        VMode::Ntsc => 3412,
        VMode::Pal => 3404,
    };
    let lpf: u64 = match vmode {
        VMode::Ntsc => 263,
        VMode::Pal => 314,
    };
    let line_tick: u64 = tick as u64 + delta_gpu;
    let raw_line: u64 = line as u64 + line_tick / tpl;
    let new_tick = (line_tick % tpl) as u16;
    if raw_line > lpf {
        // A new frame (or more) has elapsed.
        let new_field = if interlaced {
            let nframes = raw_line / lpf;
            let field_now: u64 = match field {
                Field::Top => 1,
                Field::Bottom => 0,
            };
            if (nframes + field_now) % 2 == 1 {
                Field::Top
            } else {
                Field::Bottom
            }
        } else {
            field
        };
        (new_phase, new_tick, (raw_line % lpf) as u16, new_field)
    } else {
        (new_phase, new_tick, raw_line as u16, field)
    }
}

/// The GPU core.
pub struct Gpu {
    /// Drawing backend receiving the primitives.
    renderer: Renderer,
    /// Texture page base X coordinate (4 bits, 64 halfword increment).
    page_base_x: u8,
    /// Texture page base Y coordinate (1 bit, 256 line increment).
    page_base_y: u8,
    /// Mirror textured rectangles along the x axis.
    rectangle_texture_x_flip: bool,
    /// Mirror textured rectangles along the y axis.
    rectangle_texture_y_flip: bool,
    /// Semi-transparency blending mode (2 bits).
    semi_transparency: u8,
    /// Texture page color depth.
    texture_depth: TextureDepth,
    /// Texture window x mask (8 pixel steps).
    texture_window_x_mask: u8,
    /// Texture window y mask (8 pixel steps).
    texture_window_y_mask: u8,
    /// Texture window x offset (8 pixel steps).
    texture_window_x_offset: u8,
    /// Texture window y offset (8 pixel steps).
    texture_window_y_offset: u8,
    /// Enable dithering from 24 to 15 bit RGB.
    dithering: bool,
    /// Allow drawing to the display area.
    draw_to_display: bool,
    /// Force the mask bit of every written pixel to 1.
    force_set_mask_bit: bool,
    /// Do not draw over pixels whose mask bit is set.
    preserve_masked_pixels: bool,
    /// Left-most column of the drawing area.
    drawing_area_left: u16,
    /// Top-most line of the drawing area.
    drawing_area_top: u16,
    /// Right-most column of the drawing area.
    drawing_area_right: u16,
    /// Bottom-most line of the drawing area.
    drawing_area_bottom: u16,
    /// Drawing offset in the framebuffer.
    drawing_offset: (i16, i16),
    /// Currently displayed field; always Top for progressive output.
    field: Field,
    /// When true all textures are disabled.
    texture_disable: bool,
    /// Video output horizontal resolution.
    hres: HorizontalRes,
    /// Video output vertical resolution.
    vres: VerticalRes,
    /// Video standard.
    vmode: VMode,
    /// Display color depth.
    display_depth: DisplayDepth,
    /// Output an interlaced video signal instead of a progressive one.
    interlaced: bool,
    /// Disable the display.
    display_disabled: bool,
    /// First column of the display area in VRAM.
    display_vram_x_start: u16,
    /// First line of the display area in VRAM.
    display_vram_y_start: u16,
    /// Display output horizontal start relative to HSYNC.
    display_horiz_start: u16,
    /// Display output horizontal end relative to HSYNC.
    display_horiz_end: u16,
    /// Display output first line relative to VSYNC.
    display_line_start: u16,
    /// Display output last line relative to VSYNC.
    display_line_end: u16,
    /// DMA request direction.
    dma_direction: DmaDirection,
    /// Buffer collecting the current GP0 command's parameters.
    gp0_command: CommandBuffer,
    /// Words still to fetch for the current GP0 packet.
    gp0_words_remaining: u32,
    /// The command the current GP0 packet belongs to.
    gp0_op: Gp0Op,
    /// Current mode of the GP0 register.
    gp0_mode: Gp0Mode,
    /// True when the GP0 interrupt has been requested.
    gp0_interrupt: bool,
    /// VBlank level as of the most recent synchronization.
    vblank_interrupt: bool,
    /// Fractional GPU cycle remainder of the clock conversion (Q16 low
    /// word).
    gpu_clock_phase: u16,
    /// Currently displayed video output line.
    display_line: u16,
    /// GPU clock tick within the current line.
    display_line_tick: u16,
    /// Hardware variant (NTSC or PAL), fixed at construction.
    hardware: HardwareType,
    /// Next word returned by GPUREAD.
    read_word: u32,
}

impl View for Gpu {
    type V = GpuView;

    closed spec fn view(&self) -> GpuView {
        GpuView {
            renderer: self.renderer@,
            draw: DrawingConfig {
                page_base_x: self.page_base_x as int,
                page_base_y: self.page_base_y as int,
                rectangle_texture_x_flip: self.rectangle_texture_x_flip,
                rectangle_texture_y_flip: self.rectangle_texture_y_flip,
                semi_transparency: self.semi_transparency as int,
                texture_depth: self.texture_depth,
                texture_window_x_mask: self.texture_window_x_mask as int,
                texture_window_y_mask: self.texture_window_y_mask as int,
                texture_window_x_offset: self.texture_window_x_offset as int,
                texture_window_y_offset: self.texture_window_y_offset as int,
                dithering: self.dithering,
                draw_to_display: self.draw_to_display,
                force_set_mask_bit: self.force_set_mask_bit,
                preserve_masked_pixels: self.preserve_masked_pixels,
                drawing_area_left: self.drawing_area_left as int,
                drawing_area_top: self.drawing_area_top as int,
                drawing_area_right: self.drawing_area_right as int,
                drawing_area_bottom: self.drawing_area_bottom as int,
                drawing_offset_x: self.drawing_offset.0 as int,
                drawing_offset_y: self.drawing_offset.1 as int,
                texture_disable: self.texture_disable,
            },
            disp: DisplayConfig {
                hres: self.hres.code(),
                vres: self.vres,
                vmode: self.vmode,
                display_depth: self.display_depth,
                interlaced: self.interlaced,
                display_disabled: self.display_disabled,
                display_vram_x_start: self.display_vram_x_start as int,
                display_vram_y_start: self.display_vram_y_start as int,
                display_horiz_start: self.display_horiz_start as int,
                display_horiz_end: self.display_horiz_end as int,
                display_line_start: self.display_line_start as int,
                display_line_end: self.display_line_end as int,
                dma_direction: self.dma_direction,
            },
            gp0: Gp0State {
                buffer: self.gp0_command@,
                words_remaining: self.gp0_words_remaining as int,
                op: self.gp0_op,
                mode: self.gp0_mode,
                interrupt: self.gp0_interrupt,
            },
            timing: TimingState {
                field: self.field,
                vblank_interrupt: self.vblank_interrupt,
                gpu_clock_phase: self.gpu_clock_phase as int,
                display_line: self.display_line as int,
                display_line_tick: self.display_line_tick as int,
            },
            hardware: self.hardware,
            read_word: self.read_word as int,
        }
    }
}

impl Gpu {
    /// Well-formedness of the machine state.
    pub open spec fn wf(self) -> bool {
        self@.wf()
    }

    /// Creates a GPU in the boot state, owning `renderer`.
    pub fn new(renderer: Renderer, hardware: HardwareType) -> (r: Gpu)
        ensures
            r@ == boot_state(renderer@, hardware),
            r.wf(),
    {
        Gpu {
            renderer: renderer,
            page_base_x: 0,
            page_base_y: 0,
            rectangle_texture_x_flip: false,
            rectangle_texture_y_flip: false,
            semi_transparency: 0,
            texture_depth: TextureDepth::T4Bit,
            texture_window_x_mask: 0,
            texture_window_y_mask: 0,
            texture_window_x_offset: 0,
            texture_window_y_offset: 0,
            dithering: false,
            draw_to_display: false,
            force_set_mask_bit: false,
            preserve_masked_pixels: false,
            drawing_area_left: 0,
            drawing_area_top: 0,
            drawing_area_right: 0,
            drawing_area_bottom: 0,
            drawing_offset: (0, 0),
            field: Field::Top,
            texture_disable: false,
            hres: HorizontalRes::from_fields(0, 0),
            vres: VerticalRes::Y240Lines,
            vmode: VMode::Ntsc,
            display_depth: DisplayDepth::D15Bits,
            interlaced: false,
            display_disabled: true,
            display_vram_x_start: 0,
            display_vram_y_start: 0,
            display_horiz_start: 0x200,
            display_horiz_end: 0xc00,
            display_line_start: 0x10,
            display_line_end: 0x100,
            dma_direction: DmaDirection::Off,
            gp0_command: CommandBuffer::new(),
            gp0_words_remaining: 0,
            gp0_op: Gp0Op::Nop,
            gp0_mode: Gp0Mode::Command,
            gp0_interrupt: false,
            vblank_interrupt: false,
            gpu_clock_phase: 0,
            display_line: 0,
            display_line_tick: 0,
            hardware: hardware,
            read_word: 0,
        }
    }

    /// GPU clock ticks per line and lines per frame of the configured
    /// video standard.
    fn vmode_timings(&self) -> (r: (u16, u16))
        ensures
            r.0 == ticks_per_line(self@.disp.vmode),
            r.1 == lines_per_frame(self@.disp.vmode),
    {
        match self.vmode {
            VMode::Ntsc => (3412, 263),
            VMode::Pal => (3404, 314),
        }
    }

    /// The GPU-to-CPU clock ratio as a Q16.16 value, computed with
    /// integer arithmetic so long runs stay bit-identical.
    fn gpu_to_cpu_clock_ratio(&self) -> (r: FracCycles)
        ensures
            r.fp() == ratio_fp(self@.hardware),
    {
        let gpu_clock: u64 = match self.hardware {
            HardwareType::Ntsc => 53_690_000,
            HardwareType::Pal => 53_200_000,
        };
        FracCycles::from_fp((gpu_clock * 0x10000) / CPU_FREQ_HZ)
    }

    /// The period of the dotclock in CPU clock periods.
    pub fn dotclock_period(&self) -> (r: FracCycles)
        ensures
            r.fp() == ratio_fp(self@.hardware) * crate::timing::spec_dotclock_divider(self@.disp.hres),
    {
        proof {
            lemma_ratio_fp_bounds(self.hardware);
        }
        let gpu_clock_period = self.gpu_to_cpu_clock_ratio();
        let dotclock_divider = self.hres.dotclock_divider();
        proof {
            vstd::arithmetic::mul::lemma_mul_upper_bound(
                gpu_clock_period.fp() as int,
                0x20000,
                dotclock_divider as int,
                0x100,
            );
        }
        // Dividing the clock frequency means multiplying its period.
        let period = gpu_clock_period.get_fp() * dotclock_divider as u64;
        FracCycles::from_fp(period)
    }

    /// The period of the HSYNC signal in CPU clock periods.
    pub fn hsync_period(&self) -> (r: FracCycles)
        ensures
            r.fp() == ticks_per_line(self@.disp.vmode) * 0x10000 * 0x10000 / ratio_fp(self@.hardware),
    {
        proof {
            lemma_ratio_fp_bounds(self.hardware);
        }
        let (ticks_per_line, _) = self.vmode_timings();
        let line_len = FracCycles::from_cycles(ticks_per_line as u64);
        // Convert from GPU cycles into CPU cycles.
        line_len.divide(self.gpu_to_cpu_clock_ratio())
    }

    /// The position within the current HSYNC line in CPU clock periods.
    pub fn hsync_phase(&self) -> (r: FracCycles)
        ensures
            r.fp() == (self@.timing.display_line_tick * 0x10000 + self@.timing.gpu_clock_phase) * ratio_fp(
                self@.hardware,
            ) / 0x10000,
    {
        proof {
            lemma_ratio_fp_bounds(self.hardware);
        }
        let phase = FracCycles::from_cycles(self.display_line_tick as u64);
        let clock_phase = FracCycles::from_fp(self.gpu_clock_phase as u64);
        let phase = phase.add(clock_phase);
        proof {
            vstd::arithmetic::mul::lemma_mul_upper_bound(
                phase.fp() as int,
                0x100000000,
                ratio_fp(self@.hardware),
                0x20000,
            );
        }
        // Convert the phase from GPU clock cycles into CPU clock cycles.
        phase.multiply(self.gpu_to_cpu_clock_ratio())
    }

    /// Whether the current scanline is inside the vertical blanking.
    pub fn in_vblank(&self) -> (r: bool)
        ensures
            r == self@.in_vblank(),
    {
        self.display_line < self.display_line_start || self.display_line >= self.display_line_end
    }

    /// Index of the VRAM line currently sent to the video output; VRAM
    /// wraps around at 512 lines.
    fn displayed_vram_line(&self) -> (r: u16)
        requires
            self@.wf_regs(),
            self@.timing.display_line <= 0x400,
        ensures
            r == self@.displayed_vram_line(),
    {
        let offset: u16 = if self.interlaced {
            self.display_line * 2 + match self.field {
                Field::Top => 1u16,
                Field::Bottom => 0u16,
            }
        } else {
            self.display_line
        };
        (self.display_vram_y_start + offset) % 0x200
    }

    /// Bits 0 to 15 of the status word. Bit 14 is reserved.
    #[verifier::rlimit(100)]
    fn status_low(&self) -> (r: u32)
        requires
            self@.wf_regs(),
        ensures
            r == crate::model::status_low_bits(self@),
            r < 0x10000,
    {
        let depth_bits: u32 = match self.texture_depth {
            TextureDepth::T4Bit => 0,
            TextureDepth::T8Bit => 1,
            TextureDepth::T15Bit => 2,
        };
        let field_bits: u32 = match self.field {
            Field::Top => 1,
            Field::Bottom => 0,
        };
        (self.page_base_x as u32) + (self.page_base_y as u32) * 0x10 + (self.semi_transparency
            as u32) * 0x20 + depth_bits * 0x80 + if self.dithering {
            0x200u32
        } else {
            0u32
        } + if self.draw_to_display {
            0x400u32
        } else {
            0u32
        } + if self.force_set_mask_bit {
            0x800u32
        } else {
            0u32
        } + if self.preserve_masked_pixels {
            0x1000u32
        } else {
            0u32
        } + field_bits * 0x2000 + if self.texture_disable {
            0x8000u32
        } else {
            0u32
        }
    }

    /// Bits 16 to 25 of the status word.
    fn status_display(&self) -> (r: u32)
        requires
            self@.wf_regs(),
        ensures
            r == crate::model::status_display_bits(self@),
            r < 0x4000000,
    {
        let vres_bit: u32 = match self.vres {
            VerticalRes::Y240Lines => 0,
            VerticalRes::Y480Lines => 1,
        };
        let vmode_bit: u32 = match self.vmode {
            VMode::Ntsc => 0,
            VMode::Pal => 1,
        };
        let display_depth_bit: u32 = match self.display_depth {
            DisplayDepth::D15Bits => 0,
            DisplayDepth::D24Bits => 1,
        };
        // The DMA-request signal mirrors ready flags that are hard-wired
        // to 1, so it is set for every direction but Off.
        let dma_request: u32 = match self.dma_direction {
            DmaDirection::Off => 0,
            DmaDirection::Fifo => 1,
            DmaDirection::CpuToGp0 => 1,
            DmaDirection::VRamToCpu => 1,
        };
        self.hres.into_status() + vres_bit * 0x80000 + vmode_bit * 0x100000 + display_depth_bit
            * 0x200000 + if self.interlaced {
            0x400000u32
        } else {
            0u32
        } + if self.display_disabled {
            0x800000u32
        } else {
            0u32
        } + if self.gp0_interrupt {
            0x1000000u32
        } else {
            0u32
        } + dma_request * 0x2000000
    }

    /// The status register: a bit-for-bit projection of the live state.
    pub fn status(&self) -> (r: u32)
        requires
            self@.wf_regs(),
            self@.timing.display_line <= 0x400,
        ensures
            r == status_word(self@),
    {
        let low = self.status_low();
        let display = self.status_display();
        let dma_bits: u32 = match self.dma_direction {
            DmaDirection::Off => 0,
            DmaDirection::Fifo => 1,
            DmaDirection::CpuToGp0 => 2,
            DmaDirection::VRamToCpu => 3,
        };
        // Bit 31: parity of the displayed VRAM line, 0 in the blanking.
        let parity: u32 = if !self.in_vblank() {
            (self.displayed_vram_line() % 2) as u32
        } else {
            0
        };
        // Bits 26 to 28 are the hard-wired ready flags.
        low + display + 0x1C000000 + dma_bits * 0x20000000 + parity * 0x80000000
    }

    /// Registers with the time keeper the CPU-cycle delay to the next
    /// event boundary: the next vblank edge the GPU must observe, rounded
    /// up so the emulator never wakes early.
    pub fn predict_next_sync(&self, tk: &mut TimeKeeper)
        requires
            old(tk).wf(),
            self@.disp.sync_safe(),
            self@.wf_timing(),
            0 <= self@.disp.display_line_start < 0x400,
            0 <= self@.disp.display_line_end < 0x400,
        ensures
            final(tk).wf(),
            final(tk)@.now == old(tk)@.now,
            final(tk)@.gpu_last_sync == old(tk)@.gpu_last_sync,
            final(tk)@.gpu_next_sync_delta == crate::model::predict_delta(self@),
    {
        proof {
            lemma_ratio_fp_bounds(self.hardware);
        }
        proof {
            reveal(crate::model::predict_ticks);
            reveal(crate::model::predict_delta);
        }
        let (tpl16, lpf16) = self.vmode_timings();
        let tpl = tpl16 as u64;
        let lpf = lpf16 as u64;
        let cur_line = self.display_line as u64;
        let line_start = self.display_line_start as u64;
        let line_end = self.display_line_end as u64;
        // Ticks to the start of the next line.
        let mut delta: u64 = tpl - self.display_line_tick as u64;
        // Counting starts at line 0, hence the various -1 below.
        if cur_line >= line_end {
            // In the trailing blanking: synchronize at the end of the
            // blanking at the beginning of the next frame.
            proof {
                vstd::arithmetic::mul::lemma_mul_upper_bound(
                    lpf - cur_line,
                    0x400,
                    tpl as int,
                    0x10000,
                );
                vstd::arithmetic::mul::lemma_mul_upper_bound(
                    line_start - 1,
                    0x400,
                    tpl as int,
                    0x10000,
                );
            }
            delta = delta + (lpf - cur_line) * tpl;
            delta = delta + (line_start - 1) * tpl;
        } else if cur_line < line_start {
            // In the leading blanking: synchronize at its end in the
            // current frame.
            proof {
                vstd::arithmetic::mul::lemma_mul_upper_bound(
                    line_start - 1 - cur_line,
                    0x400,
                    tpl as int,
                    0x10000,
                );
            }
            delta = delta + (line_start - 1 - cur_line) * tpl;
        } else {
            // In the active video: synchronize at the beginning of the
            // vertical blanking.
            proof {
                vstd::arithmetic::mul::lemma_mul_upper_bound(
                    line_end - 1 - cur_line,
                    0x400,
                    tpl as int,
                    0x10000,
                );
            }
            delta = delta + (line_end - 1 - cur_line) * tpl;
        }
        // Convert to CPU clock periods, removing the fractional cycle
        // already accumulated.
        let delta = delta * 0x10000 - self.gpu_clock_phase as u64;
        // Divide by the ratio, always rounding up so the deadline is
        // never early.
        let ratio = self.gpu_to_cpu_clock_ratio().get_fp();
        let delta = (delta + ratio - 1) / ratio;
        tk.set_next_sync_delta(Peripheral::Gpu, delta);
    }

    /// The timing advance of one synchronization: converts `delta_cpu`
    /// elapsed CPU cycles to GPU clock ticks through the Q16.16
    /// accumulator and moves the scanline cursor, toggling the interlace
    /// field on frame wrap-around.
    fn advance_timing(&mut self, delta_cpu: u64)
        requires
            delta_cpu <= MAX_SYNC_DELTA,
        ensures
            final(self)@ == crate::model::sync_timing_state(old(self)@, delta_cpu as int),
            final(self)@.wf_timing(),
            final(self)@.timing.vblank_interrupt == old(self)@.timing.vblank_interrupt,
            !old(self)@.disp.interlaced ==> final(self)@.timing.field == old(self)@.timing.field,
    {
        let (phase, tick, line, field) = advance_cursor(
            self.gpu_clock_phase,
            self.display_line_tick,
            self.display_line,
            self.field,
            self.vblank_interrupt,
            self.interlaced,
            self.vmode,
            self.hardware,
            delta_cpu,
        );
        self.gpu_clock_phase = phase;
        self.display_line_tick = tick;
        self.display_line = line;
        self.field = field;
        proof {
            assert(self@.timing == crate::model::sync_timing(
                old(self)@.timing,
                delta_cpu as int,
                old(self)@.disp.vmode,
                old(self)@.disp.interlaced,
                old(self)@.hardware,
            ));
        }
    }

    /// Brings the GPU up to date with the time keeper: converts the
    /// elapsed CPU cycles to GPU clock ticks through the Q16.16
    /// accumulator, advances the scanline cursor, samples the vblank level
    /// (asserting the VBlank interrupt on its rising edge and presenting
    /// the frame on its falling edge) and registers the next deadline.
    #[verifier::rlimit(100)]
    pub fn sync(&mut self, tk: &mut TimeKeeper, irq_state: &mut InterruptState)
        requires
            old(self)@.wf_regs(),
            old(tk).wf(),
            old(tk)@.gpu_elapsed() <= MAX_SYNC_DELTA,
            old(irq_state)@.vblank_count < u64::MAX,
        ensures
            final(self)@ == crate::model::sync_state(old(self)@, old(tk)@.gpu_elapsed()),
            final(self)@.wf_regs(),
            final(self)@.wf_timing(),
            final(tk).wf(),
            final(tk)@.now == old(tk)@.now,
            final(tk)@.gpu_last_sync == old(tk)@.now,
            final(tk)@.gpu_next_sync_delta == crate::model::predict_delta(final(self)@),
            final(irq_state)@.vblank_count == old(irq_state)@.vblank_count + (
            if crate::model::sync_rising_edge(old(self)@, old(tk)@.gpu_elapsed()) {
                1int
            } else {
                0int
            }),
            final(irq_state)@.vblank_pending == (
            if crate::model::sync_rising_edge(old(self)@, old(tk)@.gpu_elapsed()) {
                true
            } else {
                old(irq_state)@.vblank_pending
            }),
    {
        let delta_cpu = tk.sync(Peripheral::Gpu);
        self.sync_core(delta_cpu, irq_state);
        proof {
            let s0 = old(self)@;
            let d = delta_cpu as int;
            crate::model::lemma_sync_state_parts(s0, d);
            crate::model::lemma_sync_state_wf(s0, d);
            assert(self@ =~= crate::model::sync_state(s0, d));
        }
        self.predict_next_sync(tk);
    }

    /// The synchronization work proper: the timing advance and the vblank
    /// edge handling, for a known cycle delta.
    #[verifier::rlimit(100)]
    #[verifier::spinoff_prover]
    fn sync_core(&mut self, delta_cpu: u64, irq_state: &mut InterruptState)
        requires
            delta_cpu <= MAX_SYNC_DELTA,
            old(irq_state)@.vblank_count < u64::MAX,
        ensures
            final(self)@.timing == crate::model::sync_state(old(self)@, delta_cpu as int).timing,
            final(self)@.renderer == crate::model::sync_state(
                old(self)@,
                delta_cpu as int,
            ).renderer,
            final(self)@.disp == old(self)@.disp,
            final(self)@.draw == old(self)@.draw,
            final(self)@.gp0 == old(self)@.gp0,
            final(self)@.hardware == old(self)@.hardware,
            final(self)@.read_word == old(self)@.read_word,
            final(irq_state)@.vblank_count == old(irq_state)@.vblank_count + (
            if crate::model::sync_rising_edge(old(self)@, delta_cpu as int) {
                1int
            } else {
                0int
            }),
            final(irq_state)@.vblank_pending == (
            if crate::model::sync_rising_edge(old(self)@, delta_cpu as int) {
                true
            } else {
                old(irq_state)@.vblank_pending
            }),
    {
        self.advance_timing(delta_cpu);
        let vblank = self.in_vblank();
        let rising = !self.vblank_interrupt && vblank;
        let falling = self.vblank_interrupt && !vblank;
        if rising {
            // Rising edge of the vblank interrupt.
            irq_state.assert_irq(Interrupt::VBlank);
        }
        // End of the vertical blanking: the canonical present point.
        self.present_frame(falling);
        self.set_vblank_level(vblank);
        proof {
            crate::model::lemma_sync_state_parts(old(self)@, delta_cpu as int);
        }
    }

    /// Hands the frame to the renderer when the vertical blanking has just
    /// ended.
    fn present_frame(&mut self, falling: bool)
        ensures
            final(self)@ == (GpuView {
                renderer: if falling {
                    old(self)@.renderer.push(crate::renderer::RendererCall::Display)
                } else {
                    old(self)@.renderer
                },
                ..old(self)@
            }),
    {
        if falling {
            self.renderer.display();
        }
    }

    /// Stores the sampled vblank level.
    fn set_vblank_level(&mut self, vblank: bool)
        ensures
            final(self)@ == (GpuView {
                timing: (TimingState { vblank_interrupt: vblank, ..old(self)@.timing }),
                ..old(self)@
            }),
    {
        self.vblank_interrupt = vblank;
    }

    /// Decodes the opcode byte of a word that starts a GP0 packet: resets
    /// the buffer and sets the command and its outstanding word count.
    fn gp0_start_packet(&mut self, val: u32)
        requires
            crate::model::gp0_known(crate::model::opcode(val)),
        ensures
            final(self)@ == (GpuView {
                gp0: (Gp0State {
                    op: crate::model::gp0_decode(crate::model::opcode(val)).unwrap().0,
                    words_remaining: crate::model::gp0_decode(
                        crate::model::opcode(val),
                    ).unwrap().1,
                    buffer: Seq::empty(),
                    ..old(self)@.gp0
                }),
                ..old(self)@
            }),
    {
        let opcode = val / 0x1000000;
        let (len, op): (u32, Gp0Op) = if opcode == 0x00 {
            (1, Gp0Op::Nop)
        } else if opcode == 0x01 {
            (1, Gp0Op::ClearCache)
        } else if opcode == 0x02 {
            (3, Gp0Op::FillRect)
        } else if opcode == 0x20 {
            (4, Gp0Op::TriangleMonoOpaque)
        } else if opcode == 0x28 {
            (5, Gp0Op::QuadMonoOpaque)
        } else if opcode == 0x2c || opcode == 0x2f {
            (9, Gp0Op::QuadTextureBlendOpaque)
        } else if opcode == 0x2d {
            (9, Gp0Op::QuadTextureRawOpaque)
        } else if opcode == 0x30 {
            (6, Gp0Op::TriangleShadedOpaque)
        } else if opcode == 0x38 {
            (8, Gp0Op::QuadShadedOpaque)
        } else if opcode == 0x60 {
            (3, Gp0Op::RectOpaque)
        } else if opcode == 0x64 {
            (4, Gp0Op::RectTextureBlendOpaque)
        } else if opcode == 0x65 {
            (4, Gp0Op::RectTextureRawOpaque)
        } else if opcode == 0xa0 {
            (3, Gp0Op::ImageLoad)
        } else if opcode == 0xc0 {
            (3, Gp0Op::ImageStore)
        } else if opcode == 0xe1 {
            (1, Gp0Op::DrawMode)
        } else if opcode == 0xe2 {
            (1, Gp0Op::TextureWindow)
        } else if opcode == 0xe3 {
            (1, Gp0Op::DrawingAreaTopLeft)
        } else if opcode == 0xe4 {
            (1, Gp0Op::DrawingAreaBottomRight)
        } else if opcode == 0xe5 {
            (1, Gp0Op::DrawingOffset)
        } else {
            (1, Gp0Op::MaskBitSetting)
        };
        self.gp0_words_remaining = len;
        self.gp0_op = op;
        self.gp0_command.clear();
    }

    /// Runs the command whose whole packet sits in the buffer.
    #[verifier::rlimit(100)]
    #[verifier::spinoff_prover]
    fn run_gp0_command(&mut self)
        requires
            old(self)@.gp0.buffer.len() == crate::model::gp0_op_len(old(self)@.gp0.op),
        ensures
            final(self)@ == crate::model::exec_gp0_command(old(self)@),
            final(self)@.timing == old(self)@.timing,
            final(self)@.disp == old(self)@.disp,
            final(self)@.hardware == old(self)@.hardware,
            final(self)@.read_word == old(self)@.read_word,
            old(self)@.draw.wf() ==> final(self)@.draw.wf(),
            old(self)@.gp0.words_remaining == 0 ==> final(self)@.gp0.wf(),
    {
        proof {
            reveal(crate::model::exec_gp0_command);
        }
        match self.gp0_op {
            Gp0Op::Nop => (),
            Gp0Op::ClearCache => {
                // The texture cache is not modelled.
            },
            Gp0Op::FillRect => self.gp0_rect(1, 2),
            Gp0Op::TriangleMonoOpaque => self.gp0_triangle_mono_opaque(),
            Gp0Op::QuadMonoOpaque => self.gp0_quad_mono_opaque(),
            Gp0Op::QuadTextureBlendOpaque => self.gp0_quad_texture_stub(),
            Gp0Op::QuadTextureRawOpaque => self.gp0_quad_texture_stub(),
            Gp0Op::TriangleShadedOpaque => self.gp0_triangle_shaded_opaque(),
            Gp0Op::QuadShadedOpaque => self.gp0_quad_shaded_opaque(),
            Gp0Op::RectOpaque => self.gp0_rect(1, 2),
            Gp0Op::RectTextureBlendOpaque => self.gp0_rect(1, 3),
            Gp0Op::RectTextureRawOpaque => self.gp0_rect(1, 3),
            Gp0Op::ImageLoad => self.gp0_image_load(),
            Gp0Op::ImageStore => {
                // Parameters are parsed; the pixel stream is stubbed.
            },
            Gp0Op::DrawMode => self.gp0_draw_mode(),
            Gp0Op::TextureWindow => self.gp0_texture_window(),
            Gp0Op::DrawingAreaTopLeft => self.gp0_drawing_area_top_left(),
            Gp0Op::DrawingAreaBottomRight => self.gp0_drawing_area_bottom_right(),
            Gp0Op::DrawingOffset => self.gp0_drawing_offset(),
            Gp0Op::MaskBitSetting => self.gp0_mask_bit_setting(),
        }
    }

    /// A rectangle command: flat color, top-left corner, size at the given
    /// parameter index; emits the covering quad.
    fn gp0_rect(&mut self, pos_index: usize, size_index: usize)
        requires
            pos_index < old(self)@.gp0.buffer.len(),
            size_index < old(self)@.gp0.buffer.len(),
            0 < old(self)@.gp0.buffer.len(),
        ensures
            final(self)@ == (GpuView {
                renderer: old(self)@.renderer.push(
                    crate::model::rect_quad(
                        old(self)@.gp0.buffer[0] as int,
                        old(self)@.gp0.buffer[pos_index as int] as int,
                        old(self)@.gp0.buffer[size_index as int] as int,
                    ),
                ),
                ..old(self)@
            }),
    {
        let top_left = Position::from_gp0(self.gp0_command.index(pos_index));
        let size = Position::from_gp0(self.gp0_command.index(size_index));
        let positions = [
            top_left,
            Position { x: top_left.x + size.x, y: top_left.y },
            Position { x: top_left.x, y: top_left.y + size.y },
            Position { x: top_left.x + size.x, y: top_left.y + size.y },
        ];
        let color = Color::from_gp0(self.gp0_command.index(0));
        let colors = [color, color, color, color];
        self.renderer.push_quad(positions, colors);
    }

    /// GP0(0x20): monochrome opaque triangle.
    fn gp0_triangle_mono_opaque(&mut self)
        requires
            old(self)@.gp0.buffer.len() >= 4,
        ensures
            final(self)@ == (GpuView {
                renderer: old(self)@.renderer.push(
                    crate::model::mono_triangle(old(self)@.gp0.buffer),
                ),
                ..old(self)@
            }),
    {
        let positions = [
            Position::from_gp0(self.gp0_command.index(1)),
            Position::from_gp0(self.gp0_command.index(2)),
            Position::from_gp0(self.gp0_command.index(3)),
        ];
        let color = Color::from_gp0(self.gp0_command.index(0));
        let colors = [color, color, color];
        self.renderer.push_triangle(positions, colors);
    }

    /// GP0(0x28): monochrome opaque quadrilateral.
    fn gp0_quad_mono_opaque(&mut self)
        requires
            old(self)@.gp0.buffer.len() >= 5,
        ensures
            final(self)@ == (GpuView {
                renderer: old(self)@.renderer.push(crate::model::mono_quad(old(self)@.gp0.buffer)),
                ..old(self)@
            }),
    {
        let positions = [
            Position::from_gp0(self.gp0_command.index(1)),
            Position::from_gp0(self.gp0_command.index(2)),
            Position::from_gp0(self.gp0_command.index(3)),
            Position::from_gp0(self.gp0_command.index(4)),
        ];
        let color = Color::from_gp0(self.gp0_command.index(0));
        let colors = [color, color, color, color];
        self.renderer.push_quad(positions, colors);
    }

    /// GP0(0x2C/0x2F/0x2D): textured opaque quadrilateral. Textures are
    /// stubbed: a solid fallback color is emitted instead.
    fn gp0_quad_texture_stub(&mut self)
        requires
            old(self)@.gp0.buffer.len() >= 8,
        ensures
            final(self)@ == (GpuView {
                renderer: old(self)@.renderer.push(
                    crate::model::textured_quad_stub(old(self)@.gp0.buffer),
                ),
                ..old(self)@
            }),
    {
        let positions = [
            Position::from_gp0(self.gp0_command.index(1)),
            Position::from_gp0(self.gp0_command.index(3)),
            Position::from_gp0(self.gp0_command.index(5)),
            Position::from_gp0(self.gp0_command.index(7)),
        ];
        let color = Color { r: 0x80, g: 0, b: 0 };
        let colors = [color, color, color, color];
        self.renderer.push_quad(positions, colors);
    }

    /// GP0(0x30): shaded opaque triangle.
    fn gp0_triangle_shaded_opaque(&mut self)
        requires
            old(self)@.gp0.buffer.len() >= 6,
        ensures
            final(self)@ == (GpuView {
                renderer: old(self)@.renderer.push(
                    crate::model::shaded_triangle(old(self)@.gp0.buffer),
                ),
                ..old(self)@
            }),
    {
        let positions = [
            Position::from_gp0(self.gp0_command.index(1)),
            Position::from_gp0(self.gp0_command.index(3)),
            Position::from_gp0(self.gp0_command.index(5)),
        ];
        let colors = [
            Color::from_gp0(self.gp0_command.index(0)),
            Color::from_gp0(self.gp0_command.index(2)),
            Color::from_gp0(self.gp0_command.index(4)),
        ];
        self.renderer.push_triangle(positions, colors);
    }

    /// GP0(0x38): shaded opaque quadrilateral.
    fn gp0_quad_shaded_opaque(&mut self)
        requires
            old(self)@.gp0.buffer.len() >= 8,
        ensures
            final(self)@ == (GpuView {
                renderer: old(self)@.renderer.push(
                    crate::model::shaded_quad(old(self)@.gp0.buffer),
                ),
                ..old(self)@
            }),
    {
        let positions = [
            Position::from_gp0(self.gp0_command.index(1)),
            Position::from_gp0(self.gp0_command.index(3)),
            Position::from_gp0(self.gp0_command.index(5)),
            Position::from_gp0(self.gp0_command.index(7)),
        ];
        let colors = [
            Color::from_gp0(self.gp0_command.index(0)),
            Color::from_gp0(self.gp0_command.index(2)),
            Color::from_gp0(self.gp0_command.index(4)),
            Color::from_gp0(self.gp0_command.index(6)),
        ];
        self.renderer.push_quad(positions, colors);
    }

    /// GP0(0xA0): image load. The third word carries the resolution; the
    /// pixel count, padded to a whole number of words, is consumed in
    /// image-load mode.
    fn gp0_image_load(&mut self)
        requires
            old(self)@.gp0.buffer.len() >= 3,
        ensures
            final(self)@ == (GpuView {
                gp0: (Gp0State {
                    words_remaining: crate::model::image_load_words(
                        old(self)@.gp0.buffer[2] as int,
                    ),
                    mode: Gp0Mode::ImageLoad,
                    ..old(self)@.gp0
                }),
                ..old(self)@
            }),
    {
        let resolution = self.gp0_command.index(2);
        let width = resolution % 0x10000;
        let height = resolution / 0x10000;
        // Size of the image in 16-bit pixels; an odd count is padded to a
        // whole 32-bit word, so misalignment cannot cascade into the next
        // packet.
        proof {
            vstd::arithmetic::mul::lemma_mul_upper_bound(
                width as int,
                0xffff,
                height as int,
                0xffff,
            );
        }
        let pixels = width * height;
        let padded = pixels + 1 - (pixels + 1) % 2;
        self.gp0_words_remaining = padded / 2;
        self.gp0_mode = Gp0Mode::ImageLoad;
    }

    /// GP0(0xE1): draw mode setting. The reserved texture-depth code is
    /// kept out by the GP0 dispatcher's precondition.
    #[verifier::rlimit(100)]
    fn gp0_draw_mode(&mut self)
        requires
            old(self)@.gp0.buffer.len() >= 1,
        ensures
            final(self)@ == (GpuView {
                draw: crate::model::draw_mode_config(
                    old(self)@.draw,
                    old(self)@.gp0.buffer[0] as int,
                ),
                ..old(self)@
            }),
    {
        let val = self.gp0_command.index(0);
        self.page_base_x = (val % 0x10) as u8;
        self.page_base_y = ((val / 0x10) % 2) as u8;
        self.semi_transparency = ((val / 0x20) % 4) as u8;
        self.texture_depth = if (val / 0x80) % 4 == 0 {
            TextureDepth::T4Bit
        } else if (val / 0x80) % 4 == 1 {
            TextureDepth::T8Bit
        } else {
            TextureDepth::T15Bit
        };
        self.dithering = (val / 0x200) % 2 == 1;
        self.draw_to_display = (val / 0x400) % 2 == 1;
        self.texture_disable = (val / 0x800) % 2 == 1;
        self.rectangle_texture_x_flip = (val / 0x1000) % 2 == 1;
        self.rectangle_texture_y_flip = (val / 0x2000) % 2 == 1;
    }

    /// GP0(0xE2): texture window.
    fn gp0_texture_window(&mut self)
        requires
            old(self)@.gp0.buffer.len() >= 1,
        ensures
            final(self)@ == (GpuView {
                draw: (DrawingConfig {
                    texture_window_x_mask: old(self)@.gp0.buffer[0] as int % 0x20,
                    texture_window_y_mask: (old(self)@.gp0.buffer[0] as int / 0x20) % 0x20,
                    texture_window_x_offset: (old(self)@.gp0.buffer[0] as int / 0x400) % 0x20,
                    texture_window_y_offset: (old(self)@.gp0.buffer[0] as int / 0x8000) % 0x20,
                    ..old(self)@.draw
                }),
                ..old(self)@
            }),
    {
        let val = self.gp0_command.index(0);
        self.texture_window_x_mask = (val % 0x20) as u8;
        self.texture_window_y_mask = ((val / 0x20) % 0x20) as u8;
        self.texture_window_x_offset = ((val / 0x400) % 0x20) as u8;
        self.texture_window_y_offset = ((val / 0x8000) % 0x20) as u8;
    }

    /// GP0(0xE3): drawing area top left.
    fn gp0_drawing_area_top_left(&mut self)
        requires
            old(self)@.gp0.buffer.len() >= 1,
        ensures
            final(self)@ == (GpuView {
                draw: (DrawingConfig {
                    drawing_area_left: old(self)@.gp0.buffer[0] as int % 0x400,
                    drawing_area_top: (old(self)@.gp0.buffer[0] as int / 0x400) % 0x400,
                    ..old(self)@.draw
                }),
                ..old(self)@
            }),
    {
        let val = self.gp0_command.index(0);
        self.drawing_area_left = (val % 0x400) as u16;
        self.drawing_area_top = ((val / 0x400) % 0x400) as u16;
    }

    /// GP0(0xE4): drawing area bottom right.
    fn gp0_drawing_area_bottom_right(&mut self)
        requires
            old(self)@.gp0.buffer.len() >= 1,
        ensures
            final(self)@ == (GpuView {
                draw: (DrawingConfig {
                    drawing_area_right: old(self)@.gp0.buffer[0] as int % 0x400,
                    drawing_area_bottom: (old(self)@.gp0.buffer[0] as int / 0x400) % 0x400,
                    ..old(self)@.draw
                }),
                ..old(self)@
            }),
    {
        let val = self.gp0_command.index(0);
        self.drawing_area_right = (val % 0x400) as u16;
        self.drawing_area_bottom = ((val / 0x400) % 0x400) as u16;
    }

    /// GP0(0xE5): drawing offset, two 11-bit two's-complement coordinates,
    /// forwarded to the renderer.
    fn gp0_drawing_offset(&mut self)
        requires
            old(self)@.gp0.buffer.len() >= 1,
        ensures
            final(self)@ == (GpuView {
                draw: (DrawingConfig {
                    drawing_offset_x: crate::renderer::sext11(old(self)@.gp0.buffer[0] as int),
                    drawing_offset_y: crate::renderer::sext11(
                        old(self)@.gp0.buffer[0] as int / 0x800,
                    ),
                    ..old(self)@.draw
                }),
                renderer: old(self)@.renderer.push(
                    crate::renderer::RendererCall::SetDrawOffset {
                        x: crate::renderer::sext11(old(self)@.gp0.buffer[0] as int) as i16,
                        y: crate::renderer::sext11(old(self)@.gp0.buffer[0] as int / 0x800) as i16,
                    },
                ),
                ..old(self)@
            }),
    {
        let val = self.gp0_command.index(0);
        let xf: u32 = val % 0x800;
        let yf: u32 = (val / 0x800) % 0x800;
        // 11-bit two's-complement values, sign-extended.
        let x: i16 = if xf >= 0x400 {
            (xf as i32 - 0x800) as i16
        } else {
            xf as i16
        };
        let y: i16 = if yf >= 0x400 {
            (yf as i32 - 0x800) as i16
        } else {
            yf as i16
        };
        self.drawing_offset = (x, y);
        self.renderer.set_draw_offset(x, y);
    }

    /// GP0(0xE6): mask bit setting.
    fn gp0_mask_bit_setting(&mut self)
        requires
            old(self)@.gp0.buffer.len() >= 1,
        ensures
            final(self)@ == (GpuView {
                draw: (DrawingConfig {
                    force_set_mask_bit: old(self)@.gp0.buffer[0] as int % 2 == 1,
                    preserve_masked_pixels: (old(self)@.gp0.buffer[0] as int / 2) % 2 == 1,
                    ..old(self)@.draw
                }),
                ..old(self)@
            }),
    {
        let val = self.gp0_command.index(0);
        self.force_set_mask_bit = val % 2 == 1;
        self.preserve_masked_pixels = (val / 2) % 2 == 1;
    }

    /// Takes one word off the outstanding count of the current packet.
    fn gp0_take_word(&mut self)
        requires
            old(self)@.gp0.words_remaining >= 1,
        ensures
            final(self)@ == (GpuView {
                gp0: (Gp0State {
                    words_remaining: old(self)@.gp0.words_remaining - 1,
                    ..old(self)@.gp0
                }),
                ..old(self)@
            }),
    {
        self.gp0_words_remaining = self.gp0_words_remaining - 1;
    }

    /// Pushes one word into the packet buffer.
    fn gp0_buffer_word(&mut self, val: u32)
        requires
            old(self)@.gp0.buffer.len() < 12,
        ensures
            final(self)@ == (GpuView {
                gp0: (Gp0State { buffer: old(self)@.gp0.buffer.push(val), ..old(self)@.gp0 }),
                ..old(self)@
            }),
    {
        self.gp0_command.push_word(val);
    }

    /// Returns the GP0 register to command mode once an image load has
    /// consumed its last word.
    fn gp0_end_image_load(&mut self)
        ensures
            final(self)@ == (GpuView {
                gp0: (Gp0State { mode: Gp0Mode::Command, ..old(self)@.gp0 }),
                ..old(self)@
            }),
    {
        self.gp0_mode = Gp0Mode::Command;
    }

    /// Handles a write to the GP0 command register: assembles packets,
    /// runs each command when its last word arrives, and consumes
    /// image-load pixel data.
    #[verifier::rlimit(100)]
    pub fn gp0(&mut self, val: u32)
        requires
            old(self)@.wf_regs(),
            crate::model::gp0_ok(old(self)@, val),
        ensures
            final(self)@ == crate::model::gp0_step(old(self)@, val),
            final(self)@.wf_regs(),
            final(self)@.timing == old(self)@.timing,
            final(self)@.disp == old(self)@.disp,
            final(self)@.hardware == old(self)@.hardware,
    {
        proof {
            reveal(crate::model::gp0_step);
        }

        if self.gp0_words_remaining == 0 {
            // A new packet: decode the opcode byte.
            self.gp0_start_packet(val);
        }
        self.gp0_take_word();
        match self.gp0_mode {
            Gp0Mode::Command => {
                self.gp0_buffer_word(val);
                if self.gp0_words_remaining == 0 {
                    // The whole packet has arrived: run the command.
                    self.run_gp0_command();
                }
            },
            Gp0Mode::ImageLoad => {
                // Pixel data is consumed; the VRAM write path is stubbed.
                if self.gp0_words_remaining == 0 {
                    self.gp0_end_image_load();
                }
            },
        }
    }

    /// GP1(0x00): soft reset of every drawing and display register; the
    /// caller notifies the timer subsystem and synchronizes afterwards.
    fn gp1_reset(&mut self)
        ensures
            final(self)@ == crate::model::gp1_reset_state(old(self)@),
    {
        self.page_base_x = 0;
        self.page_base_y = 0;
        self.semi_transparency = 0;
        self.texture_depth = TextureDepth::T4Bit;
        self.texture_window_x_mask = 0;
        self.texture_window_y_mask = 0;
        self.texture_window_x_offset = 0;
        self.texture_window_y_offset = 0;
        self.dithering = false;
        self.draw_to_display = false;
        self.texture_disable = false;
        self.rectangle_texture_x_flip = false;
        self.rectangle_texture_y_flip = false;
        self.drawing_area_left = 0;
        self.drawing_area_top = 0;
        self.drawing_area_right = 0;
        self.drawing_area_bottom = 0;
        self.force_set_mask_bit = false;
        self.preserve_masked_pixels = false;
        self.dma_direction = DmaDirection::Off;
        self.display_disabled = true;
        self.display_vram_x_start = 0;
        self.display_vram_y_start = 0;
        self.hres = HorizontalRes::from_fields(0, 0);
        self.vres = VerticalRes::Y240Lines;
        self.field = Field::Top;
        self.vmode = VMode::Ntsc;
        self.interlaced = true;
        self.display_horiz_start = 0x200;
        self.display_horiz_end = 0xc00;
        self.display_line_start = 0x10;
        self.display_line_end = 0x100;
        self.display_depth = DisplayDepth::D15Bits;
        self.display_line = 0;
        self.display_line_tick = 0;
        self.renderer.set_draw_offset(0, 0);
        self.drawing_offset = (0, 0);
        self.gp1_reset_command_buffer();
        self.gp0_op = Gp0Op::Nop;
        self.gp1_acknowledge_irq();
    }

    /// GP1(0x01): reset the command buffer, discarding any in-flight GP0
    /// packet.
    fn gp1_reset_command_buffer(&mut self)
        ensures
            final(self)@ == (GpuView {
                gp0: (Gp0State {
                    buffer: Seq::empty(),
                    words_remaining: 0,
                    mode: Gp0Mode::Command,
                    ..old(self)@.gp0
                }),
                ..old(self)@
            }),
    {
        self.gp0_command.clear();
        self.gp0_words_remaining = 0;
        self.gp0_mode = Gp0Mode::Command;
    }

    /// GP1(0x02): acknowledge the GP0 interrupt.
    fn gp1_acknowledge_irq(&mut self)
        ensures
            final(self)@ == (GpuView {
                gp0: (Gp0State { interrupt: false, ..old(self)@.gp0 }),
                ..old(self)@
            }),
    {
        self.gp0_interrupt = false;
    }

    /// GP1(0x03): display enable.
    fn gp1_display_enable(&mut self, val: u32)
        ensures
            final(self)@ == (GpuView {
                disp: (DisplayConfig { display_disabled: val as int % 2 == 1, ..old(self)@.disp }),
                ..old(self)@
            }),
    {
        self.display_disabled = val % 2 == 1;
    }

    /// GP1(0x04): DMA direction.
    fn gp1_dma_direction(&mut self, val: u32)
        ensures
            final(self)@ == (GpuView {
                disp: (DisplayConfig {
                    dma_direction: crate::model::dma_direction_from(val as int),
                    ..old(self)@.disp
                }),
                ..old(self)@
            }),
    {
        self.dma_direction = if val % 4 == 0 {
            DmaDirection::Off
        } else if val % 4 == 1 {
            DmaDirection::Fifo
        } else if val % 4 == 2 {
            DmaDirection::CpuToGp0
        } else {
            DmaDirection::VRamToCpu
        };
    }

    /// GP1(0x05): display VRAM start; the column is halfword aligned.
    fn gp1_display_vram_start(&mut self, val: u32)
        ensures
            final(self)@ == (GpuView {
                disp: (DisplayConfig {
                    display_vram_x_start: (val as int % 0x400) / 2 * 2,
                    display_vram_y_start: (val as int / 0x400) % 0x200,
                    ..old(self)@.disp
                }),
                ..old(self)@
            }),
    {
        self.display_vram_x_start = ((val % 0x400) / 2 * 2) as u16;
        self.display_vram_y_start = ((val / 0x400) % 0x200) as u16;
    }

    /// GP1(0x06): display horizontal range.
    fn gp1_display_horizontal_range(&mut self, val: u32)
        ensures
            final(self)@ == (GpuView {
                disp: (DisplayConfig {
                    display_horiz_start: val as int % 0x1000,
                    display_horiz_end: (val as int / 0x1000) % 0x1000,
                    ..old(self)@.disp
                }),
                ..old(self)@
            }),
    {
        self.display_horiz_start = (val % 0x1000) as u16;
        self.display_horiz_end = ((val / 0x1000) % 0x1000) as u16;
    }

    /// GP1(0x07): display vertical range; the caller synchronizes
    /// afterwards.
    fn gp1_display_vertical_range(&mut self, val: u32)
        ensures
            final(self)@ == (GpuView {
                disp: (DisplayConfig {
                    display_line_start: val as int % 0x400,
                    display_line_end: (val as int / 0x400) % 0x400,
                    ..old(self)@.disp
                }),
                ..old(self)@
            }),
    {
        self.display_line_start = (val % 0x400) as u16;
        self.display_line_end = ((val / 0x400) % 0x400) as u16;
    }

    /// GP1(0x08): display mode; the caller notifies the timer subsystem
    /// and synchronizes afterwards.
    #[verifier::rlimit(100)]
    fn gp1_display_mode(&mut self, val: u32)
        requires
            (val as int / 0x80) % 2 == 0,
        ensures
            final(self)@ == (GpuView {
                disp: crate::model::display_mode_config(old(self)@.disp, val as int),
                timing: (TimingState { field: Field::Top, ..old(self)@.timing }),
                ..old(self)@
            }),
    {
        let hr1 = (val % 4) as u8;
        let hr2 = ((val / 0x40) % 2) as u8;
        self.hres = HorizontalRes::from_fields(hr1, hr2);
        self.vres = if (val / 4) % 2 == 1 {
            VerticalRes::Y480Lines
        } else {
            VerticalRes::Y240Lines
        };
        self.vmode = if (val / 8) % 2 == 1 {
            VMode::Pal
        } else {
            VMode::Ntsc
        };
        self.display_depth = if (val / 0x10) % 2 == 1 {
            DisplayDepth::D15Bits
        } else {
            DisplayDepth::D24Bits
        };
        self.interlaced = (val / 0x20) % 2 == 1;
        self.field = Field::Top;
    }

    /// GP1(0x10): stage state information into the GPUREAD register.
    fn gp1_get_info(&mut self, val: u32)
        requires
            old(self)@.wf_regs(),
            val as int % 16 == 3 || val as int % 16 == 4 || val as int % 16 == 5 || val as int % 16
                == 7,
        ensures
            final(self)@ == (GpuView {
                read_word: crate::model::gp1_info_value(old(self)@, val as int),
                ..old(self)@
            }),
    {
        let selector = val % 16;
        let v: u32 = if selector == 3 {
            self.drawing_area_left as u32 + (self.drawing_area_top as u32) * 0x400
        } else if selector == 4 {
            self.drawing_area_right as u32 + (self.drawing_area_bottom as u32) * 0x400
        } else if selector == 5 {
            let (x, y) = self.drawing_offset;
            let xf: u32 = if x >= 0 {
                x as u32 % 0x800
            } else {
                (x as i32 + 0x800) as u32 % 0x800
            };
            let yf: u32 = if y >= 0 {
                y as u32 % 0x800
            } else {
                (y as i32 + 0x800) as u32 % 0x800
            };
            xf + yf * 0x800
        } else {
            // GPU version.
            2
        };
        self.read_word = v;
    }

    /// Handles a write to the GP1 control register. The commands that
    /// change the video geometry notify the hardware-timer subsystem
    /// before the synchronization that follows them.
    #[verifier::rlimit(100)]
    #[verifier::spinoff_prover]
    pub fn gp1(
        &mut self,
        val: u32,
        tk: &mut TimeKeeper,
        timers: &mut crate::timers::Timers,
        irq_state: &mut InterruptState,
    )
        requires
            old(self)@.wf(),
            crate::model::gp1_ok(old(self)@, val),
            old(tk).wf(),
            old(tk)@.gpu_elapsed() <= MAX_SYNC_DELTA,
            old(irq_state)@.vblank_count < u64::MAX,
        ensures
            final(self)@ == crate::model::gp1_step(old(self)@, val, old(tk)@.gpu_elapsed()),
            final(self)@.wf(),
            final(tk).wf(),
            final(tk)@.now == old(tk)@.now,
            final(tk)@.gpu_last_sync == (if crate::model::gp1_syncs(val) {
                old(tk)@.now
            } else {
                old(tk)@.gpu_last_sync
            }),
            final(tk)@.gpu_next_sync_delta == (if crate::model::gp1_syncs(val) {
                crate::model::predict_delta(final(self)@)
            } else {
                old(tk)@.gpu_next_sync_delta as int
            }),
            final(irq_state)@.vblank_count == old(irq_state)@.vblank_count + (
            if crate::model::gp1_syncs(val) && crate::model::sync_rising_edge(
                crate::model::gp1_pre_sync_state(old(self)@, val),
                old(tk)@.gpu_elapsed(),
            ) {
                1int
            } else {
                0int
            }),
            crate::model::gp1_notifies(val) ==> final(timers)@.dotclock_fp == ratio_fp(
                final(self)@.hardware,
            ) * crate::timing::spec_dotclock_divider(final(self)@.disp.hres),
            crate::model::gp1_notifies(val) ==> final(timers)@.hsync_fp == ticks_per_line(
                final(self)@.disp.vmode,
            ) * 0x10000 * 0x10000 / ratio_fp(final(self)@.hardware),
            !crate::model::gp1_notifies(val) ==> final(timers)@ == old(timers)@,
    {
        let opcode = val / 0x1000000;
        if opcode == 0x00 || opcode == 0x07 || opcode == 0x08 {
            self.gp1_geometry(val, tk, timers, irq_state);
        } else {
            self.gp1_simple(val);
        }
    }

    /// The GP1 commands that change the video geometry or vertical range:
    /// soft reset, vertical range and display mode. Each re-synchronizes;
    /// the ones that alter the clock rates notify the timer subsystem
    /// first.
    #[verifier::rlimit(100)]
    #[verifier::spinoff_prover]
    fn gp1_geometry(
        &mut self,
        val: u32,
        tk: &mut TimeKeeper,
        timers: &mut crate::timers::Timers,
        irq_state: &mut InterruptState,
    )
        requires
            old(self)@.wf(),
            crate::model::gp1_ok(old(self)@, val),
            crate::model::gp1_syncs(val),
            old(tk).wf(),
            old(tk)@.gpu_elapsed() <= MAX_SYNC_DELTA,
            old(irq_state)@.vblank_count < u64::MAX,
        ensures
            final(self)@ == crate::model::gp1_step(old(self)@, val, old(tk)@.gpu_elapsed()),
            final(self)@.wf(),
            final(tk).wf(),
            final(tk)@.now == old(tk)@.now,
            final(tk)@.gpu_last_sync == old(tk)@.now,
            final(tk)@.gpu_next_sync_delta == crate::model::predict_delta(final(self)@),
            final(irq_state)@.vblank_count == old(irq_state)@.vblank_count + (
            if crate::model::sync_rising_edge(
                crate::model::gp1_pre_sync_state(old(self)@, val),
                old(tk)@.gpu_elapsed(),
            ) {
                1int
            } else {
                0int
            }),
            crate::model::gp1_notifies(val) ==> final(timers)@.dotclock_fp == ratio_fp(
                final(self)@.hardware,
            ) * crate::timing::spec_dotclock_divider(final(self)@.disp.hres),
            crate::model::gp1_notifies(val) ==> final(timers)@.hsync_fp == ticks_per_line(
                final(self)@.disp.vmode,
            ) * 0x10000 * 0x10000 / ratio_fp(final(self)@.hardware),
            !crate::model::gp1_notifies(val) ==> final(timers)@ == old(timers)@,
    {
        let opcode = val / 0x1000000;
        if opcode == 0x00 {
            self.gp1_do_reset(val, tk, timers, irq_state);
        } else if opcode == 0x07 {
            self.gp1_do_vertical_range(val, tk, irq_state);
        } else {
            self.gp1_do_display_mode(val, tk, timers, irq_state);
        }
    }

    /// GP1(0x00): the soft reset, the timer notification and the synchronization that follows.
    fn gp1_do_reset(
        &mut self,
        val: u32,
        tk: &mut TimeKeeper,
        timers: &mut crate::timers::Timers,
        irq_state: &mut InterruptState,
    )
        requires
            old(self)@.wf(),
            crate::model::gp1_ok(old(self)@, val),
            crate::model::opcode(val) == 0x00,
            old(tk).wf(),
            old(tk)@.gpu_elapsed() <= MAX_SYNC_DELTA,
            old(irq_state)@.vblank_count < u64::MAX,
        ensures
            final(self)@ == crate::model::sync_state(
                crate::model::gp1_pre_sync_state(old(self)@, val),
                old(tk)@.gpu_elapsed(),
            ),
            final(self)@.wf(),
            final(tk).wf(),
            final(tk)@.now == old(tk)@.now,
            final(tk)@.gpu_last_sync == old(tk)@.now,
            final(tk)@.gpu_next_sync_delta == crate::model::predict_delta(final(self)@),
            final(irq_state)@.vblank_count == old(irq_state)@.vblank_count + (
            if crate::model::sync_rising_edge(
                crate::model::gp1_pre_sync_state(old(self)@, val),
                old(tk)@.gpu_elapsed(),
            ) {
                1int
            } else {
                0int
            }),
            final(timers)@.dotclock_fp == ratio_fp(final(self)@.hardware)
                * crate::timing::spec_dotclock_divider(final(self)@.disp.hres),
            final(timers)@.hsync_fp == ticks_per_line(final(self)@.disp.vmode) * 0x10000 * 0x10000
                / ratio_fp(final(self)@.hardware),
    {
        self.gp1_reset();
        timers.video_timings_changed(self);
        self.sync(tk, irq_state);
        proof {
            crate::model::lemma_sync_state_parts(
                crate::model::gp1_pre_sync_state(old(self)@, val),
                old(tk)@.gpu_elapsed(),
            );
        }
    }

    /// GP1(0x07): the vertical range and the synchronization that follows.
    fn gp1_do_vertical_range(
        &mut self,
        val: u32,
        tk: &mut TimeKeeper,
        irq_state: &mut InterruptState,
    )
        requires
            old(self)@.wf(),
            crate::model::gp1_ok(old(self)@, val),
            crate::model::opcode(val) == 0x07,
            old(tk).wf(),
            old(tk)@.gpu_elapsed() <= MAX_SYNC_DELTA,
            old(irq_state)@.vblank_count < u64::MAX,
        ensures
            final(self)@ == crate::model::sync_state(
                crate::model::gp1_pre_sync_state(old(self)@, val),
                old(tk)@.gpu_elapsed(),
            ),
            final(self)@.wf(),
            final(tk).wf(),
            final(tk)@.now == old(tk)@.now,
            final(tk)@.gpu_last_sync == old(tk)@.now,
            final(tk)@.gpu_next_sync_delta == crate::model::predict_delta(final(self)@),
            final(irq_state)@.vblank_count == old(irq_state)@.vblank_count + (
            if crate::model::sync_rising_edge(
                crate::model::gp1_pre_sync_state(old(self)@, val),
                old(tk)@.gpu_elapsed(),
            ) {
                1int
            } else {
                0int
            }),
    {
        self.gp1_display_vertical_range(val);
        self.sync(tk, irq_state);
        proof {
            crate::model::lemma_sync_state_parts(
                crate::model::gp1_pre_sync_state(old(self)@, val),
                old(tk)@.gpu_elapsed(),
            );
        }
    }

    /// GP1(0x08): the display mode, the timer notification and the synchronization that follows.
    fn gp1_do_display_mode(
        &mut self,
        val: u32,
        tk: &mut TimeKeeper,
        timers: &mut crate::timers::Timers,
        irq_state: &mut InterruptState,
    )
        requires
            old(self)@.wf(),
            crate::model::gp1_ok(old(self)@, val),
            crate::model::opcode(val) == 0x08,
            old(tk).wf(),
            old(tk)@.gpu_elapsed() <= MAX_SYNC_DELTA,
            old(irq_state)@.vblank_count < u64::MAX,
        ensures
            final(self)@ == crate::model::sync_state(
                crate::model::gp1_pre_sync_state(old(self)@, val),
                old(tk)@.gpu_elapsed(),
            ),
            final(self)@.wf(),
            final(tk).wf(),
            final(tk)@.now == old(tk)@.now,
            final(tk)@.gpu_last_sync == old(tk)@.now,
            final(tk)@.gpu_next_sync_delta == crate::model::predict_delta(final(self)@),
            final(irq_state)@.vblank_count == old(irq_state)@.vblank_count + (
            if crate::model::sync_rising_edge(
                crate::model::gp1_pre_sync_state(old(self)@, val),
                old(tk)@.gpu_elapsed(),
            ) {
                1int
            } else {
                0int
            }),
            final(timers)@.dotclock_fp == ratio_fp(final(self)@.hardware)
                * crate::timing::spec_dotclock_divider(final(self)@.disp.hres),
            final(timers)@.hsync_fp == ticks_per_line(final(self)@.disp.vmode) * 0x10000 * 0x10000
                / ratio_fp(final(self)@.hardware),
    {
        self.gp1_display_mode(val);
        timers.video_timings_changed(self);
        self.sync(tk, irq_state);
        proof {
            crate::model::lemma_sync_state_parts(
                crate::model::gp1_pre_sync_state(old(self)@, val),
                old(tk)@.gpu_elapsed(),
            );
        }
    }


    /// The GP1 commands that neither synchronize nor change the clock
    /// rates: buffer reset, interrupt acknowledge, display enable, DMA
    /// direction, display VRAM start, horizontal range, and get-info.
    fn gp1_simple(&mut self, val: u32)
        requires
            old(self)@.wf_regs(),
            crate::model::gp1_ok(old(self)@, val),
            !crate::model::gp1_syncs(val),
        ensures
            final(self)@ == crate::model::gp1_step(old(self)@, val, 0),
            final(self)@.wf_regs(),
            final(self)@.timing == old(self)@.timing,
            final(self)@.hardware == old(self)@.hardware,
    {
        let opcode = val / 0x1000000;
        if opcode == 0x01 {
            self.gp1_reset_command_buffer();
        } else if opcode == 0x02 {
            self.gp1_acknowledge_irq();
        } else if opcode == 0x03 {
            self.gp1_display_enable(val);
        } else if opcode == 0x04 {
            self.gp1_dma_direction(val);
        } else if opcode == 0x05 {
            self.gp1_display_vram_start(val);
        } else if opcode == 0x06 {
            self.gp1_display_horizontal_range(val);
        } else {
            self.gp1_get_info(val);
        }
    }

    /// A word-wide read at one of the two GPU bus offsets: GPUREAD at 0,
    /// the status word at 4. The access synchronizes the GPU first.
    pub fn load<T: crate::bus::Addressable>(
        &mut self,
        tk: &mut TimeKeeper,
        irq_state: &mut InterruptState,
        offset: u32,
    ) -> (r: T)
        requires
            T::spec_width() == crate::bus::AccessWidth::Word,
            offset == 0 || offset == 4,
            old(self)@.wf(),
            old(tk).wf(),
            old(tk)@.gpu_elapsed() <= MAX_SYNC_DELTA,
            old(irq_state)@.vblank_count < u64::MAX,
        ensures
            final(self)@ == crate::model::sync_state(old(self)@, old(tk)@.gpu_elapsed()),
            final(self)@.wf(),
            r.value() == crate::model::load_value(
                old(self)@,
                offset as int,
                old(tk)@.gpu_elapsed(),
            ),
            final(tk).wf(),
            final(tk)@.gpu_last_sync == old(tk)@.now,
            final(tk)@.now == old(tk)@.now,
            final(irq_state)@.vblank_count == old(irq_state)@.vblank_count + (
            if crate::model::sync_rising_edge(old(self)@, old(tk)@.gpu_elapsed()) {
                1int
            } else {
                0int
            }),
    {
        self.sync(tk, irq_state);
        let v: u32 = if offset == 0 {
            self.read()
        } else {
            self.status()
        };
        T::from_u32(v)
    }

    /// A word-wide write at one of the two GPU bus offsets: a GP0 word at
    /// 0, a GP1 word at 4. The access synchronizes the GPU first.
    #[verifier::rlimit(100)]
    #[verifier::spinoff_prover]
    pub fn store<T: crate::bus::Addressable>(
        &mut self,
        tk: &mut TimeKeeper,
        timers: &mut crate::timers::Timers,
        irq_state: &mut InterruptState,
        offset: u32,
        val: T,
    )
        requires
            T::spec_width() == crate::bus::AccessWidth::Word,
            offset == 0 || offset == 4,
            old(self)@.wf(),
            old(tk).wf(),
            old(tk)@.gpu_elapsed() <= MAX_SYNC_DELTA,
            old(irq_state)@.vblank_count + 2 <= u64::MAX,
            offset == 0 ==> crate::model::gp0_ok(old(self)@, (val.value() as u32)),
            offset == 4 ==> crate::model::gp1_ok(
                crate::model::sync_state(old(self)@, old(tk)@.gpu_elapsed()),
                (val.value() as u32),
            ),
        ensures
            final(self)@ == crate::model::store_step(
                old(self)@,
                (val.value() as u32),
                offset as int,
                old(tk)@.gpu_elapsed(),
            ),
            final(self)@.wf(),
            final(irq_state)@.vblank_count == old(irq_state)@.vblank_count
                + crate::model::store_vblank_edges(
                old(self)@,
                (val.value() as u32),
                offset as int,
                old(tk)@.gpu_elapsed(),
            ),
            final(tk).wf(),
            final(tk)@.now == old(tk)@.now,
            final(tk)@.gpu_last_sync == old(tk)@.now,
    {
        proof {
            val.lemma_value_bounds();
            crate::model::lemma_sync_state_parts(old(self)@, old(tk)@.gpu_elapsed());
        }
        self.sync(tk, irq_state);
        let w = val.as_u32();
        if offset == 0 {
            self.gp0(w);
        } else {
            self.gp1(w, tk, timers, irq_state);
        }
    }

    /// The GPUREAD register: the last staged response word. Framebuffer
    /// reads are stubbed.
    pub fn read(&self) -> (r: u32)
        ensures
            r == self@.read_word,
    {
        self.read_word
    }

    /// The renderer and the call log it has received.
    pub fn renderer(&self) -> (r: &Renderer)
        ensures
            r@ == self@.renderer,
    {
        &self.renderer
    }

    /// Currently displayed video output line.
    pub fn display_line(&self) -> (r: u16)
        ensures
            r == self@.timing.display_line,
    {
        self.display_line
    }

    /// GPU clock tick within the current line.
    pub fn display_line_tick(&self) -> (r: u16)
        ensures
            r == self@.timing.display_line_tick,
    {
        self.display_line_tick
    }

    /// Fractional CPU-cycle carry of the clock conversion.
    pub fn gpu_clock_phase(&self) -> (r: u16)
        ensures
            r == self@.timing.gpu_clock_phase,
    {
        self.gpu_clock_phase
    }

    /// Words still to fetch for the current GP0 packet.
    pub fn gp0_words_remaining(&self) -> (r: u32)
        ensures
            r == self@.gp0.words_remaining,
    {
        self.gp0_words_remaining
    }

    /// Whether the GP0 register is consuming image-load pixel data.
    pub fn in_image_load(&self) -> (r: bool)
        ensures
            r == (self@.gp0.mode == Gp0Mode::ImageLoad),
    {
        match self.gp0_mode {
            Gp0Mode::Command => false,
            Gp0Mode::ImageLoad => true,
        }
    }
}

} // verus!
