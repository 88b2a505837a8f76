//! The GPU front-end: command assembly at GP0, the control port at GP1,
//! the status word, and the draw commands handed to the renderer sink.

use psx_core::abort::Abort;
use psx_core::mem::BIOS_SIZE;
use psx_core::psx::Psx;
use psx_core::renderer::{Color, DrawCommand, Position};

fn gpu_psx() -> Psx {
    Psx::new(vec![0u8; BIOS_SIZE])
}

fn write_gp0(psx: &mut Psx, word: u32) {
    assert!(psx.cpu.bus.write_u32(0x1f80_1810, word).is_ok());
}

fn write_gp1(psx: &mut Psx, word: u32) {
    assert!(psx.cpu.bus.write_u32(0x1f80_1814, word).is_ok());
}

#[test]
fn monochrome_quad_submits_once() {
    let mut psx = gpu_psx();
    write_gp0(&mut psx, 0x2800_ff00);
    write_gp0(&mut psx, 0x0010_0010);
    write_gp0(&mut psx, 0x0010_0040);
    write_gp0(&mut psx, 0x0040_0010);
    write_gp0(&mut psx, 0x0040_0040);
    assert_eq!(psx.cpu.bus.gpu.draw_command_count(), 1);
    let green = Color { r: 0x00, g: 0xff, b: 0x00 };
    assert_eq!(
        psx.cpu.bus.gpu.draw_command(0),
        DrawCommand::Quad {
            p0: Position { x: 16, y: 16 },
            p1: Position { x: 64, y: 16 },
            p2: Position { x: 16, y: 64 },
            p3: Position { x: 64, y: 64 },
            c0: green,
            c1: green,
            c2: green,
            c3: green,
        }
    );
}

#[test]
fn shaded_triangle_interleaves_colors() {
    let mut psx = gpu_psx();
    write_gp0(&mut psx, 0x3000_00ff);
    write_gp0(&mut psx, 0x0000_0000);
    write_gp0(&mut psx, 0x0000_ff00);
    write_gp0(&mut psx, 0x0020_0000);
    write_gp0(&mut psx, 0x00ff_0000);
    write_gp0(&mut psx, 0x0000_0020);
    assert_eq!(psx.cpu.bus.gpu.draw_command_count(), 1);
    assert_eq!(
        psx.cpu.bus.gpu.draw_command(0),
        DrawCommand::Triangle {
            p0: Position { x: 0, y: 0 },
            p1: Position { x: 0, y: 32 },
            p2: Position { x: 32, y: 0 },
            c0: Color { r: 0xff, g: 0, b: 0 },
            c1: Color { r: 0, g: 0xff, b: 0 },
            c2: Color { r: 0, g: 0, b: 0xff },
        }
    );
}

#[test]
fn copy_rectangle_absorbs_image_data() {
    let mut psx = gpu_psx();
    // A 2-by-2 copy: the header's three words, then two data words that
    // must be absorbed, after which command mode resumes.
    write_gp0(&mut psx, 0xa000_0000);
    write_gp0(&mut psx, 0x0000_0000);
    write_gp0(&mut psx, 0x0002_0002);
    write_gp0(&mut psx, 0x1111_1111);
    write_gp0(&mut psx, 0x2222_2222);
    assert_eq!(psx.cpu.bus.gpu.draw_command_count(), 0);
    // The port is back in command mode: a quad still goes through whole.
    write_gp0(&mut psx, 0x2800_ff00);
    write_gp0(&mut psx, 0x0010_0010);
    write_gp0(&mut psx, 0x0010_0040);
    write_gp0(&mut psx, 0x0040_0010);
    write_gp0(&mut psx, 0x0040_0040);
    assert_eq!(psx.cpu.bus.gpu.draw_command_count(), 1);
}

#[test]
fn clearing_draw_commands_empties_the_queue() {
    let mut psx = gpu_psx();
    write_gp0(&mut psx, 0x2800_ff00);
    write_gp0(&mut psx, 0x0010_0010);
    write_gp0(&mut psx, 0x0010_0040);
    write_gp0(&mut psx, 0x0040_0010);
    write_gp0(&mut psx, 0x0040_0040);
    assert_eq!(psx.cpu.bus.gpu.draw_command_count(), 1);
    psx.cpu.bus.gpu.clear_draw_commands();
    assert_eq!(psx.cpu.bus.gpu.draw_command_count(), 0);
}

#[test]
fn status_word_reports_ready_dma_block() {
    let psx = gpu_psx();
    let status = psx.cpu.bus.read_u32(0x1f80_1814).unwrap();
    assert_eq!(status, 0x1c80_0000);
    assert_eq!((status >> 28) & 1, 1);
}

#[test]
fn gpuread_reports_zero() {
    let psx = gpu_psx();
    assert_eq!(psx.cpu.bus.read_u32(0x1f80_1810), Ok(0));
}

#[test]
fn display_enable_flips_status_bit() {
    let mut psx = gpu_psx();
    write_gp1(&mut psx, 0x0300_0000);
    let status = psx.cpu.bus.read_u32(0x1f80_1814).unwrap();
    assert_eq!((status >> 23) & 1, 0);
    write_gp1(&mut psx, 0x0300_0001);
    let status = psx.cpu.bus.read_u32(0x1f80_1814).unwrap();
    assert_eq!((status >> 23) & 1, 1);
}

#[test]
fn display_mode_packs_into_status() {
    let mut psx = gpu_psx();
    // 320 columns, 50 Hz, 24-bit color, vertical interlace on.
    write_gp1(&mut psx, 0x0800_0039);
    let status = psx.cpu.bus.read_u32(0x1f80_1814).unwrap();
    assert_eq!((status >> 16) & 0x7f, 0b111_0010);
}

#[test]
fn draw_mode_setting_packs_into_status() {
    let mut psx = gpu_psx();
    // Texture page x base 5, y base 1, semi-transparency 2, 8-bit
    // textures, dithering on.
    write_gp0(&mut psx, 0xe100_02d5);
    let status = psx.cpu.bus.read_u32(0x1f80_1814).unwrap();
    assert_eq!(status & 0x3ff, 0b10_1101_0101);
}

#[test]
fn gpu_reset_restores_display_defaults() {
    let mut psx = gpu_psx();
    write_gp1(&mut psx, 0x0800_0039);
    write_gp1(&mut psx, 0x0300_0000);
    write_gp1(&mut psx, 0x0000_0000);
    let status = psx.cpu.bus.read_u32(0x1f80_1814).unwrap();
    assert_eq!(status, 0x1c80_0000);
}

#[test]
fn reset_command_buffer_discards_partial_command() {
    let mut psx = gpu_psx();
    // Two of the quad's five words, then the buffer reset: the next words
    // must be taken as fresh commands, producing no quad.
    write_gp0(&mut psx, 0x2800_ff00);
    write_gp0(&mut psx, 0x0010_0010);
    write_gp1(&mut psx, 0x0100_0000);
    write_gp0(&mut psx, 0x0000_0000);
    assert_eq!(psx.cpu.bus.gpu.draw_command_count(), 0);
}

#[test]
fn unimplemented_gp0_opcode_is_unresolvable() {
    let mut psx = gpu_psx();
    assert_eq!(
        psx.cpu.bus.write_u32(0x1f80_1810, 0x2000_0000),
        Err(Abort::UnimplementedGp0 { word: 0x2000_0000 })
    );
}

#[test]
fn unimplemented_gp1_opcode_is_unresolvable() {
    let mut psx = gpu_psx();
    assert_eq!(
        psx.cpu.bus.write_u32(0x1f80_1814, 0x1000_0000),
        Err(Abort::UnimplementedGp1 { word: 0x1000_0000 })
    );
}

#[test]
fn reserved_texture_depth_is_unresolvable() {
    let mut psx = gpu_psx();
    assert_eq!(
        psx.cpu.bus.write_u32(0x1f80_1810, 0xe100_0180),
        Err(Abort::ReservedTextureDepth { word: 0xe100_0180 })
    );
}

#[test]
fn texture_window_setting_is_stored() {
    let mut psx = gpu_psx();
    // Masks 3 and 5, offsets 7 and 9.
    let word = 0xe200_0000 | 3 | (5 << 5) | (7 << 10) | (9 << 15);
    write_gp0(&mut psx, word);
    assert_eq!(psx.cpu.bus.gpu.texture_window_x_mask, 3);
    assert_eq!(psx.cpu.bus.gpu.texture_window_y_mask, 5);
    assert_eq!(psx.cpu.bus.gpu.texture_window_x_offset, 7);
    assert_eq!(psx.cpu.bus.gpu.texture_window_y_offset, 9);
}

#[test]
fn drawing_areas_and_offset_are_stored() {
    let mut psx = gpu_psx();
    write_gp0(&mut psx, 0xe300_0000 | 10 | (20 << 10));
    write_gp0(&mut psx, 0xe400_0000 | 600 | (400 << 10));
    write_gp0(&mut psx, 0xe500_0000 | 5 | (6 << 11));
    assert_eq!(psx.cpu.bus.gpu.drawing_area_left, 10);
    assert_eq!(psx.cpu.bus.gpu.drawing_area_top, 20);
    assert_eq!(psx.cpu.bus.gpu.drawing_area_right, 600);
    assert_eq!(psx.cpu.bus.gpu.drawing_area_bottom, 400);
    assert_eq!(psx.cpu.bus.gpu.drawing_x_offset, 5);
    assert_eq!(psx.cpu.bus.gpu.drawing_y_offset, 6);
}

#[test]
fn positions_and_colors_unpack_from_words() {
    let p = Position::from_word(0xfff0_0010);
    assert_eq!(p.x(), 16);
    assert_eq!(p.y(), -16);
    let c = Color::from_word(0x0011_2233);
    assert_eq!(c.r(), 0x33);
    assert_eq!(c.g(), 0x22);
    assert_eq!(c.b(), 0x11);
}
