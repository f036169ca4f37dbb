use psx_core::HardwareType;
use psx_core::fixed::FracCycles;
use psx_core::gpu::Gpu;
use psx_core::interrupts::Interrupt;
use psx_core::interrupts::InterruptState;
use psx_core::ram::Ram;
use psx_core::renderer::Color;
use psx_core::renderer::Position;
use psx_core::renderer::Renderer;
use psx_core::renderer::RendererCall;
use psx_core::timekeeper::Peripheral;
use psx_core::timekeeper::TimeKeeper;
use psx_core::timers::Timers;
use psx_core::timing::HorizontalRes;

fn boot_gpu() -> (Gpu, TimeKeeper, Timers, InterruptState) {
    (
        Gpu::new(Renderer::new(), HardwareType::Ntsc),
        TimeKeeper::new(),
        Timers::new(),
        InterruptState::new(),
    )
}

#[test]
fn boot_state_status() {
    let (mut gpu, mut tk, _timers, mut irq) = boot_gpu();
    let status: u32 = gpu.load(&mut tk, &mut irq, 4);
    assert_eq!(status, 0x1C802000);
}

#[test]
fn status_reads_are_pure() {
    let (mut gpu, mut tk, _timers, mut irq) = boot_gpu();
    let a: u32 = gpu.load(&mut tk, &mut irq, 4);
    let b: u32 = gpu.load(&mut tk, &mut irq, 4);
    assert_eq!(a, b);
}

#[test]
fn soft_reset_from_dirty_state() {
    let (mut gpu, mut tk, mut timers, mut irq) = boot_gpu();
    // page_base_x = 0xF and dithering on.
    gpu.store(&mut tk, &mut timers, &mut irq, 0, 0xE100020Fu32);
    // hres = (3, 0).
    gpu.store(&mut tk, &mut timers, &mut irq, 4, 0x08000003u32);
    let dirty: u32 = gpu.load(&mut tk, &mut irq, 4);
    assert_ne!(dirty, 0x1C802000);
    gpu.store(&mut tk, &mut timers, &mut irq, 4, 0x00000000u32);
    let status: u32 = gpu.load(&mut tk, &mut irq, 4);
    // Boot status with the interlace bit set.
    assert_eq!(status, 0x1C802000 | 0x400000);
}

#[test]
fn scanline_advance_ntsc() {
    let (mut gpu, mut tk, _timers, mut irq) = boot_gpu();
    // 4305 CPU cycles * ratio 103890 = 447246450, just past two NTSC
    // lines' worth of GPU ticks (6824 << 16 = 447217664).
    tk.tick(4305);
    gpu.sync(&mut tk, &mut irq);
    assert_eq!(gpu.display_line(), 2);
    assert_eq!(gpu.display_line_tick(), 0);
    assert_eq!(gpu.gpu_clock_phase(), 28786);
}

#[test]
fn vblank_edge_asserted_once() {
    let (mut gpu, mut tk, _timers, mut irq) = boot_gpu();
    // Land on line 255, inside the active video.
    tk.tick(548853);
    gpu.sync(&mut tk, &mut irq);
    assert_eq!(gpu.display_line(), 255);
    assert!(!gpu.in_vblank());
    assert_eq!(irq.count(Interrupt::VBlank), 0);
    // Cross into line 256 = display_line_end: the rising edge.
    tk.tick(2153);
    gpu.sync(&mut tk, &mut irq);
    assert_eq!(gpu.display_line(), 256);
    assert!(gpu.in_vblank());
    assert_eq!(irq.count(Interrupt::VBlank), 1);
    // Staying inside the blanking does not assert again.
    tk.tick(100);
    gpu.sync(&mut tk, &mut irq);
    assert!(gpu.in_vblank());
    assert_eq!(irq.count(Interrupt::VBlank), 1);
}

#[test]
fn display_called_on_vblank_end() {
    let (mut gpu, mut tk, _timers, mut irq) = boot_gpu();
    // Boot starts on line 0, inside the leading blanking, with the level
    // sampled low; the first sync inside the blanking raises it.
    tk.tick(10);
    gpu.sync(&mut tk, &mut irq);
    assert_eq!(irq.count(Interrupt::VBlank), 1);
    let before = gpu.renderer().len();
    // Advance into the active video: the falling edge presents the frame.
    tk.tick(548853);
    gpu.sync(&mut tk, &mut irq);
    assert!(!gpu.in_vblank());
    let after = gpu.renderer().len();
    assert_eq!(after, before + 1);
    assert_eq!(gpu.renderer().get(after - 1), RendererCall::Display);
}

#[test]
fn gp0_fill_rectangle() {
    let (mut gpu, mut tk, mut timers, mut irq) = boot_gpu();
    gpu.store(&mut tk, &mut timers, &mut irq, 0, 0x02804020u32);
    gpu.store(&mut tk, &mut timers, &mut irq, 0, 0x00100020u32);
    gpu.store(&mut tk, &mut timers, &mut irq, 0, 0x00300040u32);
    assert_eq!(gpu.renderer().len(), 1);
    match gpu.renderer().get(0) {
        RendererCall::PushQuad { positions, colors } => {
            assert_eq!(positions, [
                Position { x: 0x20, y: 0x10 },
                Position { x: 0x60, y: 0x10 },
                Position { x: 0x20, y: 0x40 },
                Position { x: 0x60, y: 0x40 },
            ]);
            assert_eq!(colors, [Color { r: 0x20, g: 0x40, b: 0x80 }; 4]);
        },
        other => panic!("expected a quad, got {:?}", other),
    }
}

#[test]
fn gp0_positions_sign_extend() {
    let (mut gpu, mut tk, mut timers, mut irq) = boot_gpu();
    // Monochrome triangle with an all-ones 11-bit coordinate pair.
    gpu.store(&mut tk, &mut timers, &mut irq, 0, 0x200000FFu32);
    gpu.store(&mut tk, &mut timers, &mut irq, 0, 0x07FF07FFu32);
    gpu.store(&mut tk, &mut timers, &mut irq, 0, 0x00000000u32);
    gpu.store(&mut tk, &mut timers, &mut irq, 0, 0x00200020u32);
    match gpu.renderer().get(0) {
        RendererCall::PushTriangle { positions, colors } => {
            assert_eq!(positions, [
                Position { x: -1, y: -1 },
                Position { x: 0, y: 0 },
                Position { x: 0x20, y: 0x20 },
            ]);
            assert_eq!(colors, [Color { r: 0xFF, g: 0, b: 0 }; 3]);
        },
        other => panic!("expected a triangle, got {:?}", other),
    }
}

#[test]
fn gp0_shaded_quad_packet() {
    let (mut gpu, mut tk, mut timers, mut irq) = boot_gpu();
    let words = [
        0x38000001u32,
        0x00000000,
        0x00000002,
        0x00100000,
        0x00000003,
        0x00100010,
        0x00000004,
        0x00000010,
    ];
    for w in words {
        gpu.store(&mut tk, &mut timers, &mut irq, 0, w);
    }
    assert_eq!(gpu.gp0_words_remaining(), 0);
    assert!(!gpu.in_image_load());
    match gpu.renderer().get(0) {
        RendererCall::PushQuad { positions, colors } => {
            assert_eq!(positions[1], Position { x: 0, y: 0x10 });
            assert_eq!(colors[0], Color { r: 1, g: 0, b: 0 });
            assert_eq!(colors[3], Color { r: 4, g: 0, b: 0 });
        },
        other => panic!("expected a quad, got {:?}", other),
    }
}

#[test]
fn image_load_framing() {
    let (mut gpu, mut tk, mut timers, mut irq) = boot_gpu();
    // width = 3, height = 4: 12 pixels, 6 words of data.
    gpu.store(&mut tk, &mut timers, &mut irq, 0, 0xA0000000u32);
    gpu.store(&mut tk, &mut timers, &mut irq, 0, 0x00000000u32);
    gpu.store(&mut tk, &mut timers, &mut irq, 0, 0x00040003u32);
    assert!(gpu.in_image_load());
    assert_eq!(gpu.gp0_words_remaining(), 6);
    for i in 0..6u32 {
        gpu.store(&mut tk, &mut timers, &mut irq, 0, 0xFFFF0000 | i);
    }
    assert!(!gpu.in_image_load());
    assert_eq!(gpu.gp0_words_remaining(), 0);
    // The next word decodes as a fresh opcode again.
    gpu.store(&mut tk, &mut timers, &mut irq, 0, 0x00000000u32);
    assert_eq!(gpu.gp0_words_remaining(), 0);
    // Pixel words are consumed silently: nothing reached the renderer.
    assert_eq!(gpu.renderer().len(), 0);
}

#[test]
fn gp1_reset_command_buffer_discards_packet() {
    let (mut gpu, mut tk, mut timers, mut irq) = boot_gpu();
    // Two words of a five-word monochrome quad.
    gpu.store(&mut tk, &mut timers, &mut irq, 0, 0x28FFFFFFu32);
    gpu.store(&mut tk, &mut timers, &mut irq, 0, 0x00000000u32);
    assert_eq!(gpu.gp0_words_remaining(), 3);
    gpu.store(&mut tk, &mut timers, &mut irq, 4, 0x01000000u32);
    assert_eq!(gpu.gp0_words_remaining(), 0);
    assert!(!gpu.in_image_load());
    // The next GP0 word starts a new command: a full fill rectangle runs.
    gpu.store(&mut tk, &mut timers, &mut irq, 0, 0x02804020u32);
    gpu.store(&mut tk, &mut timers, &mut irq, 0, 0x00100020u32);
    gpu.store(&mut tk, &mut timers, &mut irq, 0, 0x00300040u32);
    assert_eq!(gpu.renderer().len(), 1);
    assert!(matches!(gpu.renderer().get(0), RendererCall::PushQuad { .. }));
}

#[test]
fn gp1_get_info_staging() {
    let (mut gpu, mut tk, mut timers, mut irq) = boot_gpu();
    // Drawing area top-left: left = 5, top = 7.
    gpu.store(&mut tk, &mut timers, &mut irq, 0, 0xE3001C05u32);
    gpu.store(&mut tk, &mut timers, &mut irq, 4, 0x10000003u32);
    let read: u32 = gpu.load(&mut tk, &mut irq, 0);
    assert_eq!(read, 0x1C05);
    // GPU version.
    gpu.store(&mut tk, &mut timers, &mut irq, 4, 0x10000007u32);
    let version: u32 = gpu.load(&mut tk, &mut irq, 0);
    assert_eq!(version, 2);
}

#[test]
fn gp1_display_mode_notifies_timers() {
    let (mut gpu, mut tk, mut timers, mut irq) = boot_gpu();
    gpu.store(&mut tk, &mut timers, &mut irq, 4, 0x08000003u32);
    // hres = (3, 0): divider 4; NTSC ratio 103890.
    assert_eq!(gpu.dotclock_period().get_fp(), 103890 * 4);
    assert_eq!(gpu.hsync_period().get_fp(), 3412u64 * 0x10000 * 0x10000 / 103890);
}

#[test]
fn predict_next_sync_registers_deadline() {
    let (mut gpu, mut tk, _timers, mut irq) = boot_gpu();
    gpu.sync(&mut tk, &mut irq);
    // From boot the next event is the end of the leading blanking: line
    // 0x10 - 1 lines plus the current line remainder, in GPU ticks.
    let ticks: u64 = 3412 + (0x10 - 1) * 3412;
    let expected = (ticks * 0x10000 + 103890 - 1) / 103890;
    assert_eq!(tk.next_sync_delta(Peripheral::Gpu), expected);
}

#[test]
fn dotclock_divider_table() {
    assert_eq!(HorizontalRes::from_fields(0, 0).dotclock_divider(), 10);
    assert_eq!(HorizontalRes::from_fields(1, 0).dotclock_divider(), 8);
    assert_eq!(HorizontalRes::from_fields(2, 0).dotclock_divider(), 5);
    assert_eq!(HorizontalRes::from_fields(3, 0).dotclock_divider(), 4);
    assert_eq!(HorizontalRes::from_fields(0, 1).dotclock_divider(), 7);
    assert_eq!(HorizontalRes::from_fields(3, 1).dotclock_divider(), 7);
    assert_eq!(HorizontalRes::from_fields(2, 0).into_status(), 4 << 16);
}

#[test]
fn frac_cycles_arithmetic() {
    let three = FracCycles::from_cycles(3);
    assert_eq!(three.get_fp(), 3 << 16);
    let half = FracCycles::from_fp(0x8000);
    assert_eq!(three.add(half).get_fp(), (3 << 16) + 0x8000);
    assert_eq!(three.multiply(half).get_fp(), 3 << 15);
    assert_eq!(three.divide(FracCycles::from_fp(2 << 16)).get_fp(), 3 << 15);
    assert_eq!(FracCycles::frac_bits(), 16);
}

#[test]
fn ram_roundtrip() {
    let mut ram = Ram::new();
    let garbage: u8 = ram.load(0);
    assert_eq!(garbage, 0xca);
    ram.store(0x100, 0xdeadbeefu32);
    let word: u32 = ram.load(0x100);
    assert_eq!(word, 0xdeadbeef);
    let low: u8 = ram.load(0x100);
    assert_eq!(low, 0xef);
    let high: u16 = ram.load(0x102);
    assert_eq!(high, 0xdead);
    ram.store(0x102, 0x55aau16);
    let word: u32 = ram.load(0x100);
    assert_eq!(word, 0x55aabeef);
}

#[test]
fn timekeeper_tracks_elapsed() {
    let mut tk = TimeKeeper::new();
    tk.tick(100);
    assert_eq!(tk.sync(Peripheral::Gpu), 100);
    assert_eq!(tk.sync(Peripheral::Gpu), 0);
    tk.tick(7);
    assert_eq!(tk.now(), 107);
    assert_eq!(tk.sync(Peripheral::Gpu), 7);
}

#[test]
fn interrupt_state_counts_edges() {
    let mut irq = InterruptState::new();
    assert!(!irq.pending(Interrupt::VBlank));
    irq.assert_irq(Interrupt::VBlank);
    irq.assert_irq(Interrupt::VBlank);
    assert!(irq.pending(Interrupt::VBlank));
    assert_eq!(irq.count(Interrupt::VBlank), 2);
    irq.acknowledge(Interrupt::VBlank);
    assert!(!irq.pending(Interrupt::VBlank));
    assert_eq!(irq.count(Interrupt::VBlank), 2);
}
