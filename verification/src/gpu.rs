//! The GPU command front-end: the display- and draw-mode state, the GP0
//! command assembly state machine and the GP1 control port, and the packed
//! status word. Draw commands are collected for the renderer sink; the core
//! does not rasterise.

use vstd::prelude::*;

use crate::abort::{matches_abort, Abort};
use crate::renderer::{spec_color_from_word, spec_position_from_word, Color, DrawCommand, Position};

verus! {

/// The semi-transparency blending mode.
#[derive(Clone, Copy, Debug, PartialEq, Eq, Structural)]
pub enum SemiTransparency {
    /// Half background plus half foreground.
    First,
    /// Background plus foreground.
    Second,
    /// Background minus foreground.
    Third,
    /// Background plus a quarter of the foreground.
    Fourth,
}

/// The texture page color depth.
#[derive(Clone, Copy, Debug, PartialEq, Eq, Structural)]
pub enum TexturePageColors {
    /// 4-bit depth.
    Bit4,
    /// 8-bit depth.
    Bit8,
    /// 15-bit depth.
    Bit15,
}

/// Whether dithering is applied.
#[derive(Clone, Copy, Debug, PartialEq, Eq, Structural)]
pub enum Dither {
    /// Dithering off.
    Off,
    /// Dithering enabled.
    Enabled,
}

/// Whether drawing to the display area is allowed.
#[derive(Clone, Copy, Debug, PartialEq, Eq, Structural)]
pub enum DisplayAreaDrawing {
    /// Drawing to the display area is prohibited.
    Prohibited,
    /// Drawing to the display area is allowed.
    Allowed,
}

/// Whether the mask bit is set while drawing.
#[derive(Clone, Copy, Debug, PartialEq, Eq, Structural)]
pub enum MaskDrawing {
    /// The mask bit is not set.
    No,
    /// The mask bit is set.
    Yes,
}

/// Which pixels may be drawn over.
#[derive(Clone, Copy, Debug, PartialEq, Eq, Structural)]
pub enum DrawPixels {
    /// Always draw.
    Always,
    /// Draw only to unmasked areas.
    Unmasked,
}

/// The field interlace flag.
#[derive(Clone, Copy, Debug, PartialEq, Eq, Structural)]
pub enum Interlace {
    /// Never interlace.
    Never,
    /// Always interlace.
    Always,
}

/// The reverse flag.
#[derive(Clone, Copy, Debug, PartialEq, Eq, Structural)]
pub enum Reverse {
    /// Normal mode.
    Normal,
    /// Distorted mode.
    Distorted,
}

/// The horizontal display resolution.
#[derive(Clone, Copy, Debug, PartialEq, Eq, Structural)]
pub enum HorizontalResolution {
    /// 256 columns.
    S256,
    /// 320 columns.
    S320,
    /// 368 columns.
    S368,
    /// 512 columns.
    S512,
    /// 640 columns.
    S640,
}

/// The vertical display resolution.
#[derive(Clone, Copy, Debug, PartialEq, Eq, Structural)]
pub enum VerticalResolution {
    /// 240 lines.
    S240,
    /// 480 lines.
    S480,
}

/// The video standard.
#[derive(Clone, Copy, Debug, PartialEq, Eq, Structural)]
pub enum VideoMode {
    /// 60 Hz.
    Hz60,
    /// 50 Hz.
    Hz50,
}

/// The display color depth.
#[derive(Clone, Copy, Debug, PartialEq, Eq, Structural)]
pub enum ColorDepth {
    /// 15 bits per pixel.
    Bit15,
    /// 24 bits per pixel.
    Bit24,
}

/// The vertical interlace flag.
#[derive(Clone, Copy, Debug, PartialEq, Eq, Structural)]
pub enum VerticalInterlace {
    /// Interlace disabled.
    Off,
    /// Interlace enabled.
    On,
}

/// Whether the display is enabled.
#[derive(Clone, Copy, Debug, PartialEq, Eq, Structural)]
pub enum DisplayEnabled {
    /// The display is on.
    Enabled,
    /// The display is off.
    Disabled,
}

/// The interrupt request flag.
#[derive(Clone, Copy, Debug, PartialEq, Eq, Structural)]
pub enum InterruptRequest {
    /// No interrupt requested.
    Off,
    /// An interrupt is requested.
    Irq,
}

/// A readiness flag of the status word.
#[derive(Clone, Copy, Debug, PartialEq, Eq, Structural)]
pub enum Ready {
    /// Not ready.
    No,
    /// Ready.
    Ready,
}

/// The DMA direction of the GPU.
#[derive(Clone, Copy, Debug, PartialEq, Eq, Structural)]
pub enum DmaDirection {
    /// Off.
    Off,
    /// FIFO status.
    Fifo,
    /// CPU to GPU.
    CpuToGpu,
    /// GPU to CPU.
    GpuToCpu,
}

/// Which interlace field is being drawn.
#[derive(Clone, Copy, Debug, PartialEq, Eq, Structural)]
pub enum DrawingMode {
    /// Even lines.
    Even,
    /// Odd lines.
    Odd,
}

/// What the GP0 port expects next.
#[derive(Clone, Copy, Debug, PartialEq, Eq, Structural)]
pub enum ReceiveMode {
    /// Command and argument words.
    Command,
    /// Image data words, absorbed.
    Data,
}

/// The mathematical view of the GPU front-end.
pub struct GpuView {
    pub texture_page_x_base: u8,
    pub texture_page_y_base_1: u8,
    pub semi_transparency: SemiTransparency,
    pub texture_page_colors: TexturePageColors,
    pub dither: Dither,
    pub display_area_drawing: DisplayAreaDrawing,
    pub mask_drawing: MaskDrawing,
    pub draw_pixels: DrawPixels,
    pub interlace: Interlace,
    pub reverse: Reverse,
    pub texture_page_y_base_2: u8,
    pub horizontal_resolution: HorizontalResolution,
    pub vertical_resolution: VerticalResolution,
    pub video_mode: VideoMode,
    pub display_area_color_depth: ColorDepth,
    pub vertical_interlace: VerticalInterlace,
    pub display_enabled: DisplayEnabled,
    pub interrupt_request: InterruptRequest,
    pub ready_receive_cmd_word: Ready,
    pub ready_send_vram_to_cpu: Ready,
    pub ready_receive_dma_block: Ready,
    pub dma_direction: DmaDirection,
    pub drawing_mode: DrawingMode,
    pub texture_rectangle_x_flip: bool,
    pub texture_rectangle_y_flip: bool,
    pub display_area_x_start_in_vram: u16,
    pub display_area_y_start_in_vram: u16,
    pub display_range_horizontal_start: u16,
    pub display_range_horizontal_end: u16,
    pub display_range_vertical_start: u16,
    pub display_range_vertical_end: u16,
    pub texture_window_x_mask: u8,
    pub texture_window_y_mask: u8,
    pub texture_window_x_offset: u8,
    pub texture_window_y_offset: u8,
    pub drawing_area_top: u16,
    pub drawing_area_left: u16,
    pub drawing_area_bottom: u16,
    pub drawing_area_right: u16,
    pub drawing_x_offset: u16,
    pub drawing_y_offset: u16,
    pub gp0_bytes: (u8, u8, u8),
    pub gp1_bytes: (u8, u8, u8),
    pub arguments: Seq<u32>,
    pub argument_count: u32,
    pub receive_mode: ReceiveMode,
    pub pending: Seq<DrawCommand>,
}

/// The GPU component.
#[derive(Debug)]
pub struct Gpu {
    /// The texture page x base.
    pub texture_page_x_base: u8,
    /// The first texture page y base bit.
    pub texture_page_y_base_1: u8,
    /// The semi-transparency mode.
    pub semi_transparency: SemiTransparency,
    /// The texture page color depth.
    pub texture_page_colors: TexturePageColors,
    /// Whether dithering is enabled.
    pub dither: Dither,
    /// Whether drawing to the display area is allowed.
    pub display_area_drawing: DisplayAreaDrawing,
    /// Whether the mask bit is set while drawing.
    pub mask_drawing: MaskDrawing,
    /// Which pixels may be drawn over.
    pub draw_pixels: DrawPixels,
    /// The field interlace flag.
    pub interlace: Interlace,
    /// The reverse flag.
    pub reverse: Reverse,
    /// The second texture page y base bit.
    pub texture_page_y_base_2: u8,
    /// The horizontal resolution.
    pub horizontal_resolution: HorizontalResolution,
    /// The vertical resolution.
    pub vertical_resolution: VerticalResolution,
    /// The video standard.
    pub video_mode: VideoMode,
    /// The display color depth.
    pub display_area_color_depth: ColorDepth,
    /// The vertical interlace flag.
    pub vertical_interlace: VerticalInterlace,
    /// Whether the display is enabled.
    pub display_enabled: DisplayEnabled,
    /// The interrupt request flag.
    pub interrupt_request: InterruptRequest,
    /// Readiness for command words.
    pub ready_receive_cmd_word: Ready,
    /// Readiness to send VRAM to the CPU.
    pub ready_send_vram_to_cpu: Ready,
    /// Readiness for DMA blocks.
    pub ready_receive_dma_block: Ready,
    /// The DMA direction.
    pub dma_direction: DmaDirection,
    /// Which interlace field is being drawn.
    pub drawing_mode: DrawingMode,
    /// Whether textured rectangles flip on the x axis.
    pub texture_rectangle_x_flip: bool,
    /// Whether textured rectangles flip on the y axis.
    pub texture_rectangle_y_flip: bool,
    /// The display area x origin in VRAM.
    pub display_area_x_start_in_vram: u16,
    /// The display area y origin in VRAM.
    pub display_area_y_start_in_vram: u16,
    /// The horizontal display range start.
    pub display_range_horizontal_start: u16,
    /// The horizontal display range end.
    pub display_range_horizontal_end: u16,
    /// The vertical display range start.
    pub display_range_vertical_start: u16,
    /// The vertical display range end.
    pub display_range_vertical_end: u16,
    /// The texture window x mask.
    pub texture_window_x_mask: u8,
    /// The texture window y mask.
    pub texture_window_y_mask: u8,
    /// The texture window x offset.
    pub texture_window_x_offset: u8,
    /// The texture window y offset.
    pub texture_window_y_offset: u8,
    /// The top edge of the drawing area.
    pub drawing_area_top: u16,
    /// The left edge of the drawing area.
    pub drawing_area_left: u16,
    /// The bottom edge of the drawing area.
    pub drawing_area_bottom: u16,
    /// The right edge of the drawing area.
    pub drawing_area_right: u16,
    /// The drawing offset on the x axis.
    pub drawing_x_offset: u16,
    /// The drawing offset on the y axis.
    pub drawing_y_offset: u16,
    /// The three low bytes of the GP0 word being assembled.
    pub gp0_bytes: (u8, u8, u8),
    /// The three low bytes of the GP1 word being assembled.
    pub gp1_bytes: (u8, u8, u8),
    /// The words of the command being assembled.
    pub arguments: Vec<u32>,
    /// How many words the current command still needs.
    pub argument_count: u32,
    /// What the GP0 port expects next.
    pub receive_mode: ReceiveMode,
    /// The draw commands assembled so far, for the renderer sink.
    pub pending: Vec<DrawCommand>,
}

impl View for Gpu {
    type V = GpuView;

    open spec fn view(&self) -> GpuView {
        GpuView {
            texture_page_x_base: self.texture_page_x_base,
            texture_page_y_base_1: self.texture_page_y_base_1,
            semi_transparency: self.semi_transparency,
            texture_page_colors: self.texture_page_colors,
            dither: self.dither,
            display_area_drawing: self.display_area_drawing,
            mask_drawing: self.mask_drawing,
            draw_pixels: self.draw_pixels,
            interlace: self.interlace,
            reverse: self.reverse,
            texture_page_y_base_2: self.texture_page_y_base_2,
            horizontal_resolution: self.horizontal_resolution,
            vertical_resolution: self.vertical_resolution,
            video_mode: self.video_mode,
            display_area_color_depth: self.display_area_color_depth,
            vertical_interlace: self.vertical_interlace,
            display_enabled: self.display_enabled,
            interrupt_request: self.interrupt_request,
            ready_receive_cmd_word: self.ready_receive_cmd_word,
            ready_send_vram_to_cpu: self.ready_send_vram_to_cpu,
            ready_receive_dma_block: self.ready_receive_dma_block,
            dma_direction: self.dma_direction,
            drawing_mode: self.drawing_mode,
            texture_rectangle_x_flip: self.texture_rectangle_x_flip,
            texture_rectangle_y_flip: self.texture_rectangle_y_flip,
            display_area_x_start_in_vram: self.display_area_x_start_in_vram,
            display_area_y_start_in_vram: self.display_area_y_start_in_vram,
            display_range_horizontal_start: self.display_range_horizontal_start,
            display_range_horizontal_end: self.display_range_horizontal_end,
            display_range_vertical_start: self.display_range_vertical_start,
            display_range_vertical_end: self.display_range_vertical_end,
            texture_window_x_mask: self.texture_window_x_mask,
            texture_window_y_mask: self.texture_window_y_mask,
            texture_window_x_offset: self.texture_window_x_offset,
            texture_window_y_offset: self.texture_window_y_offset,
            drawing_area_top: self.drawing_area_top,
            drawing_area_left: self.drawing_area_left,
            drawing_area_bottom: self.drawing_area_bottom,
            drawing_area_right: self.drawing_area_right,
            drawing_x_offset: self.drawing_x_offset,
            drawing_y_offset: self.drawing_y_offset,
            gp0_bytes: self.gp0_bytes,
            gp1_bytes: self.gp1_bytes,
            arguments: self.arguments@,
            argument_count: self.argument_count,
            receive_mode: self.receive_mode,
            pending: self.pending@,
        }
    }
}

/// The opcode byte of a GP0 or GP1 command word.
pub open spec fn spec_command_opcode(word: u32) -> u8 {
    (word >> 24) as u8
}

/// How many words a GP0 command needs in all, its first word included.
pub open spec fn arg_total(opcode: u8) -> u32 {
    if opcode == 0x28 {
        5
    } else if opcode == 0x30 {
        6
    } else if opcode == 0x38 {
        8
    } else if opcode == 0xa0 {
        3
    } else {
        1
    }
}

/// Mid-command, the words gathered so far and the words still owed add up
/// to what the command's first word asked for.
pub open spec fn gpu_wf(g: GpuView) -> bool {
    (g.receive_mode == ReceiveMode::Command && g.argument_count > 0) ==> (g.arguments.len() >= 1
        && g.argument_count + g.arguments.len() == arg_total(spec_command_opcode(g.arguments[0])))
}

/// The front-end as built at boot: display disabled, everything else at its
/// reset value, and the ready flags held at ready so the firmware never
/// stalls.
pub open spec fn gpu_init() -> GpuView {
    GpuView {
        texture_page_x_base: 0,
        texture_page_y_base_1: 0,
        semi_transparency: SemiTransparency::First,
        texture_page_colors: TexturePageColors::Bit4,
        dither: Dither::Off,
        display_area_drawing: DisplayAreaDrawing::Prohibited,
        mask_drawing: MaskDrawing::No,
        draw_pixels: DrawPixels::Always,
        interlace: Interlace::Never,
        reverse: Reverse::Normal,
        texture_page_y_base_2: 0,
        horizontal_resolution: HorizontalResolution::S256,
        vertical_resolution: VerticalResolution::S240,
        video_mode: VideoMode::Hz60,
        display_area_color_depth: ColorDepth::Bit15,
        vertical_interlace: VerticalInterlace::Off,
        display_enabled: DisplayEnabled::Disabled,
        interrupt_request: InterruptRequest::Off,
        ready_receive_cmd_word: Ready::Ready,
        ready_send_vram_to_cpu: Ready::Ready,
        ready_receive_dma_block: Ready::Ready,
        dma_direction: DmaDirection::Off,
        drawing_mode: DrawingMode::Even,
        texture_rectangle_x_flip: false,
        texture_rectangle_y_flip: false,
        display_area_x_start_in_vram: 0,
        display_area_y_start_in_vram: 0,
        display_range_horizontal_start: 0,
        display_range_horizontal_end: 0,
        display_range_vertical_start: 0,
        display_range_vertical_end: 0,
        texture_window_x_mask: 0,
        texture_window_y_mask: 0,
        texture_window_x_offset: 0,
        texture_window_y_offset: 0,
        drawing_area_top: 0,
        drawing_area_left: 0,
        drawing_area_bottom: 0,
        drawing_area_right: 0,
        drawing_x_offset: 0,
        drawing_y_offset: 0,
        gp0_bytes: (0, 0, 0),
        gp1_bytes: (0, 0, 0),
        arguments: Seq::empty(),
        argument_count: 0,
        receive_mode: ReceiveMode::Command,
        pending: Seq::empty(),
    }
}

/// One bit of a readiness flag.
pub open spec fn ready_bit(r: Ready) -> u8 {
    match r {
        Ready::No => 0,
        Ready::Ready => 1,
    }
}

/// The two-bit encoding of the DMA direction.
pub open spec fn dma_direction_bits(d: DmaDirection) -> u8 {
    match d {
        DmaDirection::Off => 0,
        DmaDirection::Fifo => 1,
        DmaDirection::CpuToGpu => 2,
        DmaDirection::GpuToCpu => 3,
    }
}

/// The two-bit encoding of the semi-transparency mode.
pub open spec fn semi_transparency_bits(s: SemiTransparency) -> u8 {
    match s {
        SemiTransparency::First => 0,
        SemiTransparency::Second => 1,
        SemiTransparency::Third => 2,
        SemiTransparency::Fourth => 3,
    }
}

/// The two-bit encoding of the texture page color depth.
pub open spec fn texture_page_colors_bits(t: TexturePageColors) -> u8 {
    match t {
        TexturePageColors::Bit4 => 0,
        TexturePageColors::Bit8 => 1,
        TexturePageColors::Bit15 => 2,
    }
}

/// The status-word encoding of the horizontal resolution.
pub open spec fn horizontal_resolution_bits(h: HorizontalResolution) -> u8 {
    match h {
        HorizontalResolution::S256 => 0b000,
        HorizontalResolution::S320 => 0b010,
        HorizontalResolution::S368 => 0b001,
        HorizontalResolution::S512 => 0b100,
        HorizontalResolution::S640 => 0b110,
    }
}

/// One bit for each two-valued status field, by its position in the enum.
pub open spec fn dither_bit(d: Dither) -> u8 {
    match d {
        Dither::Off => 0,
        Dither::Enabled => 1,
    }
}

/// One bit of the display-area-drawing flag.
pub open spec fn display_area_drawing_bit(d: DisplayAreaDrawing) -> u8 {
    match d {
        DisplayAreaDrawing::Prohibited => 0,
        DisplayAreaDrawing::Allowed => 1,
    }
}

/// One bit of the mask-drawing flag.
pub open spec fn mask_drawing_bit(m: MaskDrawing) -> u8 {
    match m {
        MaskDrawing::No => 0,
        MaskDrawing::Yes => 1,
    }
}

/// One bit of the draw-pixels flag.
pub open spec fn draw_pixels_bit(d: DrawPixels) -> u8 {
    match d {
        DrawPixels::Always => 0,
        DrawPixels::Unmasked => 1,
    }
}

/// One bit of the field-interlace flag.
pub open spec fn interlace_bit(i: Interlace) -> u8 {
    match i {
        Interlace::Never => 0,
        Interlace::Always => 1,
    }
}

/// One bit of the reverse flag.
pub open spec fn reverse_bit(r: Reverse) -> u8 {
    match r {
        Reverse::Normal => 0,
        Reverse::Distorted => 1,
    }
}

/// One bit of the video mode.
pub open spec fn video_mode_bit(v: VideoMode) -> u8 {
    match v {
        VideoMode::Hz60 => 0,
        VideoMode::Hz50 => 1,
    }
}

/// One bit of the display color depth.
pub open spec fn color_depth_bit(c: ColorDepth) -> u8 {
    match c {
        ColorDepth::Bit15 => 0,
        ColorDepth::Bit24 => 1,
    }
}

/// One bit of the vertical-interlace flag.
pub open spec fn vertical_interlace_bit(v: VerticalInterlace) -> u8 {
    match v {
        VerticalInterlace::Off => 0,
        VerticalInterlace::On => 1,
    }
}

/// One bit of the display-enabled flag.
pub open spec fn display_enabled_bit(d: DisplayEnabled) -> u8 {
    match d {
        DisplayEnabled::Enabled => 0,
        DisplayEnabled::Disabled => 1,
    }
}

/// One bit of the interrupt-request flag.
pub open spec fn interrupt_request_bit(i: InterruptRequest) -> u8 {
    match i {
        InterruptRequest::Off => 0,
        InterruptRequest::Irq => 1,
    }
}

/// One bit of the drawing-mode field.
pub open spec fn drawing_mode_bit(d: DrawingMode) -> u8 {
    match d {
        DrawingMode::Even => 0,
        DrawingMode::Odd => 1,
    }
}

/// The byte of the packed status word at little-endian position 0.
pub open spec fn gpustat_byte0(g: GpuView) -> u8 {
    g.texture_page_x_base | (g.texture_page_y_base_1 << 4) | (semi_transparency_bits(
        g.semi_transparency,
    ) << 5) | ((texture_page_colors_bits(g.texture_page_colors) & 1) << 7)
}

/// The byte of the packed status word at little-endian position 1.
pub open spec fn gpustat_byte1(g: GpuView) -> u8 {
    ((texture_page_colors_bits(g.texture_page_colors) & 2) >> 1) | (dither_bit(g.dither) << 1) | (
    display_area_drawing_bit(g.display_area_drawing) << 2) | (mask_drawing_bit(g.mask_drawing)
        << 3) | (draw_pixels_bit(g.draw_pixels) << 4) | (interlace_bit(g.interlace) << 5) | (
    reverse_bit(g.reverse) << 6) | (g.texture_page_y_base_2 << 7)
}

/// The byte of the packed status word at little-endian position 2.
pub open spec fn gpustat_byte2(g: GpuView) -> u8 {
    horizontal_resolution_bits(g.horizontal_resolution) | (video_mode_bit(g.video_mode) << 4) | (
    color_depth_bit(g.display_area_color_depth) << 5) | (vertical_interlace_bit(
        g.vertical_interlace,
    ) << 6) | (display_enabled_bit(g.display_enabled) << 7)
}

/// The bit the status word reports as its DMA request, which follows the
/// DMA direction.
pub open spec fn dma_request_bit(g: GpuView) -> u8 {
    match g.dma_direction {
        DmaDirection::Off => 0,
        DmaDirection::Fifo => 1,
        DmaDirection::CpuToGpu => ready_bit(g.ready_receive_dma_block),
        DmaDirection::GpuToCpu => ready_bit(g.ready_send_vram_to_cpu),
    }
}

/// The byte of the packed status word at little-endian position 3.
pub open spec fn gpustat_byte3(g: GpuView) -> u8 {
    interrupt_request_bit(g.interrupt_request) | (dma_request_bit(g) << 1) | (ready_bit(
        g.ready_receive_cmd_word,
    ) << 2) | (ready_bit(g.ready_send_vram_to_cpu) << 3) | (ready_bit(g.ready_receive_dma_block)
        << 4) | (dma_direction_bits(g.dma_direction) << 5) | (drawing_mode_bit(g.drawing_mode)
        << 7)
}

/// The byte a read of the GPU register window returns: zero over the
/// GPUREAD word, the packed status over the status word.
pub open spec fn gpu_read_spec(g: GpuView, offset: u32) -> u8
    recommends
        offset < 8,
{
    if offset < 4 {
        0
    } else if offset == 4 {
        gpustat_byte0(g)
    } else if offset == 5 {
        gpustat_byte1(g)
    } else if offset == 6 {
        gpustat_byte2(g)
    } else {
        gpustat_byte3(g)
    }
}

/// The front-end after GP0(28h), the monochrome opaque quad: one quad with
/// the color of the first word at every vertex.
pub open spec fn gp0_monochrome_quad_spec(g: GpuView) -> GpuView
    recommends
        g.arguments.len() >= 5,
{
    let color = spec_color_from_word(g.arguments[0] & 0x00ffffff);
    GpuView {
        pending: g.pending.push(
            DrawCommand::Quad {
                p0: spec_position_from_word(g.arguments[1]),
                p1: spec_position_from_word(g.arguments[2]),
                p2: spec_position_from_word(g.arguments[3]),
                p3: spec_position_from_word(g.arguments[4]),
                c0: color,
                c1: color,
                c2: color,
                c3: color,
            },
        ),
        ..g
    }
}

/// The front-end after GP0(30h), the shaded opaque triangle: colors and
/// positions interleaved over six words.
pub open spec fn gp0_shaded_triangle_spec(g: GpuView) -> GpuView
    recommends
        g.arguments.len() >= 6,
{
    GpuView {
        pending: g.pending.push(
            DrawCommand::Triangle {
                p0: spec_position_from_word(g.arguments[1]),
                p1: spec_position_from_word(g.arguments[3]),
                p2: spec_position_from_word(g.arguments[5]),
                c0: spec_color_from_word(g.arguments[0]),
                c1: spec_color_from_word(g.arguments[2]),
                c2: spec_color_from_word(g.arguments[4]),
            },
        ),
        ..g
    }
}

/// The front-end after GP0(38h), the shaded opaque quad: colors and
/// positions interleaved over eight words.
pub open spec fn gp0_shaded_quad_spec(g: GpuView) -> GpuView
    recommends
        g.arguments.len() >= 8,
{
    GpuView {
        pending: g.pending.push(
            DrawCommand::Quad {
                p0: spec_position_from_word(g.arguments[1]),
                p1: spec_position_from_word(g.arguments[3]),
                p2: spec_position_from_word(g.arguments[5]),
                p3: spec_position_from_word(g.arguments[7]),
                c0: spec_color_from_word(g.arguments[0]),
                c1: spec_color_from_word(g.arguments[2]),
                c2: spec_color_from_word(g.arguments[4]),
                c3: spec_color_from_word(g.arguments[6]),
            },
        ),
        ..g
    }
}

/// The front-end after GP0(A0h), the CPU-to-VRAM copy header: the port
/// switches to data reception for one word per two packed pixels, the pixel
/// count rounded up to a whole word.
pub open spec fn gp0_copy_rectangle_spec(g: GpuView) -> GpuView
    recommends
        g.arguments.len() >= 3,
{
    let width = g.arguments[2] & 0xffff;
    let height = (g.arguments[2] >> 16) & 0xffff;
    let words = (((width * height + 1) as u32) & !1u32) / 2;
    GpuView { argument_count: words, receive_mode: ReceiveMode::Data, ..g }
}

/// The front-end after GP0(E1h), the draw-mode setting. The reserved
/// texture-depth encoding is unresolvable.
pub open spec fn gp0_draw_mode_spec(g: GpuView) -> (GpuView, Option<Abort>)
    recommends
        g.arguments.len() >= 1,
{
    let command = g.arguments[0];
    if (command >> 7) & 3 == 3 {
        (g, Some(Abort::ReservedTextureDepth { word: command }))
    } else {
        (
            GpuView {
                texture_page_x_base: (command & 0xf) as u8,
                texture_page_y_base_1: ((command >> 4) & 1) as u8,
                semi_transparency: if (command >> 5) & 3 == 0 {
                    SemiTransparency::First
                } else if (command >> 5) & 3 == 1 {
                    SemiTransparency::Second
                } else if (command >> 5) & 3 == 2 {
                    SemiTransparency::Third
                } else {
                    SemiTransparency::Fourth
                },
                texture_page_colors: if (command >> 7) & 3 == 0 {
                    TexturePageColors::Bit4
                } else if (command >> 7) & 3 == 1 {
                    TexturePageColors::Bit8
                } else {
                    TexturePageColors::Bit15
                },
                dither: if (command >> 9) & 1 == 0 {
                    Dither::Off
                } else {
                    Dither::Enabled
                },
                display_area_drawing: if (command >> 10) & 1 == 0 {
                    DisplayAreaDrawing::Prohibited
                } else {
                    DisplayAreaDrawing::Allowed
                },
                texture_page_y_base_2: ((command >> 11) & 1) as u8,
                texture_rectangle_x_flip: (command >> 12) & 1 != 0,
                texture_rectangle_y_flip: (command >> 13) & 1 != 0,
                ..g
            },
            None,
        )
    }
}

/// The front-end after GP0(E2h), the texture window setting.
pub open spec fn gp0_texture_window_spec(g: GpuView) -> GpuView
    recommends
        g.arguments.len() >= 1,
{
    let command = g.arguments[0];
    GpuView {
        texture_window_x_mask: (command & 0x1f) as u8,
        texture_window_y_mask: ((command >> 5) & 0x1f) as u8,
        texture_window_x_offset: ((command >> 10) & 0x1f) as u8,
        texture_window_y_offset: ((command >> 15) & 0x1f) as u8,
        ..g
    }
}

/// The front-end after GP0(E3h), the drawing-area top-left corner.
pub open spec fn gp0_drawing_area_top_left_spec(g: GpuView) -> GpuView
    recommends
        g.arguments.len() >= 1,
{
    let command = g.arguments[0];
    GpuView {
        drawing_area_left: (command & 0x3ff) as u16,
        drawing_area_top: ((command >> 10) & 0x3ff) as u16,
        ..g
    }
}

/// The front-end after GP0(E4h), the drawing-area bottom-right corner.
pub open spec fn gp0_drawing_area_bottom_right_spec(g: GpuView) -> GpuView
    recommends
        g.arguments.len() >= 1,
{
    let command = g.arguments[0];
    GpuView {
        drawing_area_right: (command & 0x3ff) as u16,
        drawing_area_bottom: ((command >> 10) & 0x3ff) as u16,
        ..g
    }
}

/// The front-end after GP0(E5h), the drawing offset.
pub open spec fn gp0_drawing_offset_spec(g: GpuView) -> GpuView
    recommends
        g.arguments.len() >= 1,
{
    let command = g.arguments[0];
    GpuView {
        drawing_x_offset: (command & 0x7ff) as u16,
        drawing_y_offset: ((command >> 11) & 0x7ff) as u16,
        ..g
    }
}

/// The front-end after GP0(E6h), the mask-bit setting.
pub open spec fn gp0_mask_bit_spec(g: GpuView) -> GpuView
    recommends
        g.arguments.len() >= 1,
{
    let command = g.arguments[0];
    GpuView {
        mask_drawing: if command & 1 == 0 {
            MaskDrawing::No
        } else {
            MaskDrawing::Yes
        },
        draw_pixels: if (command >> 1) & 1 == 0 {
            DrawPixels::Always
        } else {
            DrawPixels::Unmasked
        },
        ..g
    }
}

/// The dispatch of a completed GP0 command over its gathered words.
pub open spec fn gp0_execute_spec(g: GpuView) -> (GpuView, Option<Abort>)
    recommends
        g.arguments.len() >= 1,
        g.arguments.len() == arg_total(spec_command_opcode(g.arguments[0])),
{
    let opcode = spec_command_opcode(g.arguments[0]);
    if opcode == 0x00 {
        (g, None)
    } else if opcode == 0x01 {
        (g, None)
    } else if opcode == 0x28 {
        (gp0_monochrome_quad_spec(g), None)
    } else if opcode == 0x30 {
        (gp0_shaded_triangle_spec(g), None)
    } else if opcode == 0x38 {
        (gp0_shaded_quad_spec(g), None)
    } else if opcode == 0xa0 {
        (gp0_copy_rectangle_spec(g), None)
    } else if opcode == 0xe1 {
        gp0_draw_mode_spec(g)
    } else if opcode == 0xe2 {
        (gp0_texture_window_spec(g), None)
    } else if opcode == 0xe3 {
        (gp0_drawing_area_top_left_spec(g), None)
    } else if opcode == 0xe4 {
        (gp0_drawing_area_bottom_right_spec(g), None)
    } else if opcode == 0xe5 {
        (gp0_drawing_offset_spec(g), None)
    } else if opcode == 0xe6 {
        (gp0_mask_bit_spec(g), None)
    } else {
        (g, Some(Abort::UnimplementedGp0 { word: g.arguments[0] }))
    }
}

/// The front-end after one word arrives at GP0. An idle port takes the word
/// as the start of a command and learns how many words it needs; the word
/// is then counted, and in command mode gathered; a command whose last word
/// arrived executes, and absorbed data words eventually return the port to
/// command mode.
pub open spec fn gp0_spec(g: GpuView, command: u32) -> (GpuView, Option<Abort>) {
    let g0 = if g.argument_count == 0 {
        GpuView {
            argument_count: arg_total(spec_command_opcode(command)),
            arguments: Seq::empty(),
            ..g
        }
    } else {
        g
    };
    let g1 = GpuView { argument_count: (g0.argument_count - 1) as u32, ..g0 };
    match g1.receive_mode {
        ReceiveMode::Command => {
            let g2 = GpuView { arguments: g1.arguments.push(command), ..g1 };
            if g2.argument_count == 0 {
                gp0_execute_spec(g2)
            } else {
                (g2, None)
            }
        },
        ReceiveMode::Data => {
            if g1.argument_count == 0 {
                (GpuView { receive_mode: ReceiveMode::Command, ..g1 }, None)
            } else {
                (g1, None)
            }
        },
    }
}

/// The front-end after GP1(00h), the reset: display disabled, every display
/// and draw-mode field back at its reset value.
pub open spec fn gp1_reset_spec(g: GpuView) -> GpuView {
    GpuView {
        interrupt_request: InterruptRequest::Off,
        display_enabled: DisplayEnabled::Disabled,
        dma_direction: DmaDirection::Off,
        display_area_x_start_in_vram: 0,
        display_area_y_start_in_vram: 0,
        display_range_horizontal_start: 0x200,
        display_range_horizontal_end: (0x200 + 256 * 10) as u16,
        display_range_vertical_start: 0x010,
        display_range_vertical_end: (0x010 + 240) as u16,
        vertical_resolution: VerticalResolution::S240,
        video_mode: VideoMode::Hz60,
        display_area_color_depth: ColorDepth::Bit15,
        vertical_interlace: VerticalInterlace::Off,
        horizontal_resolution: HorizontalResolution::S256,
        reverse: Reverse::Normal,
        texture_page_x_base: 0,
        texture_page_y_base_1: 0,
        semi_transparency: SemiTransparency::First,
        texture_page_colors: TexturePageColors::Bit4,
        dither: Dither::Off,
        display_area_drawing: DisplayAreaDrawing::Prohibited,
        texture_page_y_base_2: 0,
        texture_rectangle_x_flip: false,
        texture_rectangle_y_flip: false,
        texture_window_x_mask: 0,
        texture_window_y_mask: 0,
        texture_window_x_offset: 0,
        texture_window_y_offset: 0,
        drawing_area_left: 0,
        drawing_area_top: 0,
        drawing_area_right: 0,
        drawing_area_bottom: 0,
        drawing_x_offset: 0,
        drawing_y_offset: 0,
        mask_drawing: MaskDrawing::No,
        draw_pixels: DrawPixels::Always,
        ..g
    }
}

/// The front-end after GP1(01h), the command-buffer reset: the GP0
/// assembly state is cleared.
pub open spec fn gp1_reset_command_buffer_spec(g: GpuView) -> GpuView {
    GpuView {
        arguments: Seq::empty(),
        argument_count: 0,
        receive_mode: ReceiveMode::Command,
        ..g
    }
}

/// The front-end after GP1(03h), the display enable switch.
pub open spec fn gp1_display_enable_spec(g: GpuView, command: u32) -> GpuView {
    GpuView {
        display_enabled: if command & 1 == 0 {
            DisplayEnabled::Enabled
        } else {
            DisplayEnabled::Disabled
        },
        ..g
    }
}

/// The front-end after GP1(04h), the DMA direction setting.
pub open spec fn gp1_dma_direction_spec(g: GpuView, command: u32) -> GpuView {
    GpuView {
        dma_direction: if command & 3 == 0 {
            DmaDirection::Off
        } else if command & 3 == 1 {
            DmaDirection::Fifo
        } else if command & 3 == 2 {
            DmaDirection::CpuToGpu
        } else {
            DmaDirection::GpuToCpu
        },
        ..g
    }
}

/// The front-end after GP1(05h), the display-area origin in VRAM.
pub open spec fn gp1_display_area_start_spec(g: GpuView, command: u32) -> GpuView {
    GpuView {
        display_area_x_start_in_vram: (command & 0x3ff) as u16,
        display_area_y_start_in_vram: ((command >> 10) & 0x3ff) as u16,
        ..g
    }
}

/// The front-end after GP1(06h), the horizontal display range.
pub open spec fn gp1_horizontal_range_spec(g: GpuView, command: u32) -> GpuView {
    GpuView {
        display_range_horizontal_start: (command & 0xfff) as u16,
        display_range_horizontal_end: ((command >> 12) & 0xfff) as u16,
        ..g
    }
}

/// The front-end after GP1(07h), the vertical display range.
pub open spec fn gp1_vertical_range_spec(g: GpuView, command: u32) -> GpuView {
    GpuView {
        display_range_vertical_start: (command & 0x3ff) as u16,
        display_range_vertical_end: ((command >> 10) & 0x3ff) as u16,
        ..g
    }
}

/// The front-end after GP1(08h), the display mode. The vertical resolution
/// is promoted to 480 lines only when its bit and the interlace bit hold
/// together.
pub open spec fn gp1_display_mode_spec(g: GpuView, command: u32) -> GpuView {
    GpuView {
        vertical_resolution: if (command >> 2) & 1 == 1 && (command >> 5) & 1 == 1 {
            VerticalResolution::S480
        } else {
            VerticalResolution::S240
        },
        video_mode: if (command >> 3) & 1 == 0 {
            VideoMode::Hz60
        } else {
            VideoMode::Hz50
        },
        display_area_color_depth: if (command >> 4) & 1 == 0 {
            ColorDepth::Bit15
        } else {
            ColorDepth::Bit24
        },
        vertical_interlace: if (command >> 5) & 1 == 0 {
            VerticalInterlace::Off
        } else {
            VerticalInterlace::On
        },
        horizontal_resolution: if (command >> 6) & 1 == 1 {
            HorizontalResolution::S368
        } else if command & 3 == 0 {
            HorizontalResolution::S256
        } else if command & 3 == 1 {
            HorizontalResolution::S320
        } else if command & 3 == 2 {
            HorizontalResolution::S512
        } else {
            HorizontalResolution::S640
        },
        reverse: if (command >> 7) & 1 == 0 {
            Reverse::Normal
        } else {
            Reverse::Distorted
        },
        ..g
    }
}

/// The front-end after a GP1 control word.
#[verifier::opaque]
pub open spec fn gp1_spec(g: GpuView, command: u32) -> (GpuView, Option<Abort>) {
    let opcode = spec_command_opcode(command);
    if opcode == 0x00 {
        (gp1_reset_spec(g), None)
    } else if opcode == 0x01 {
        (gp1_reset_command_buffer_spec(g), None)
    } else if opcode == 0x02 {
        (GpuView { interrupt_request: InterruptRequest::Off, ..g }, None)
    } else if opcode == 0x03 {
        (gp1_display_enable_spec(g, command), None)
    } else if opcode == 0x04 {
        (gp1_dma_direction_spec(g, command), None)
    } else if opcode == 0x05 {
        (gp1_display_area_start_spec(g, command), None)
    } else if opcode == 0x06 {
        (gp1_horizontal_range_spec(g, command), None)
    } else if opcode == 0x07 {
        (gp1_vertical_range_spec(g, command), None)
    } else if opcode == 0x08 {
        (gp1_display_mode_spec(g, command), None)
    } else {
        (g, Some(Abort::UnimplementedGp1 { word: command }))
    }
}

/// The front-end after one byte arrives at the register window: the three
/// low bytes of each port are stored, and the write of a top byte commits
/// the assembled word to its port.
pub open spec fn gpu_write_spec(g: GpuView, offset: u32, value: u8) -> (GpuView, Option<Abort>)
    recommends
        offset < 8,
{
    if offset == 0 {
        (GpuView { gp0_bytes: (value, g.gp0_bytes.1, g.gp0_bytes.2), ..g }, None)
    } else if offset == 1 {
        (GpuView { gp0_bytes: (g.gp0_bytes.0, value, g.gp0_bytes.2), ..g }, None)
    } else if offset == 2 {
        (GpuView { gp0_bytes: (g.gp0_bytes.0, g.gp0_bytes.1, value), ..g }, None)
    } else if offset == 3 {
        gp0_spec(
            g,
            crate::words::word_of_bytes(g.gp0_bytes.0, g.gp0_bytes.1, g.gp0_bytes.2, value),
        )
    } else if offset == 4 {
        (GpuView { gp1_bytes: (value, g.gp1_bytes.1, g.gp1_bytes.2), ..g }, None)
    } else if offset == 5 {
        (GpuView { gp1_bytes: (g.gp1_bytes.0, value, g.gp1_bytes.2), ..g }, None)
    } else if offset == 6 {
        (GpuView { gp1_bytes: (g.gp1_bytes.0, g.gp1_bytes.1, value), ..g }, None)
    } else {
        gp1_spec(
            g,
            crate::words::word_of_bytes(g.gp1_bytes.0, g.gp1_bytes.1, g.gp1_bytes.2, value),
        )
    }
}

impl Gpu {
    /// Creates the GPU front-end in its boot state.
    pub fn new() -> (r: Gpu)
        ensures
            r@ == gpu_init(),
            gpu_wf(r@),
    {
        Gpu {
            texture_page_x_base: 0,
            texture_page_y_base_1: 0,
            semi_transparency: SemiTransparency::First,
            texture_page_colors: TexturePageColors::Bit4,
            dither: Dither::Off,
            display_area_drawing: DisplayAreaDrawing::Prohibited,
            mask_drawing: MaskDrawing::No,
            draw_pixels: DrawPixels::Always,
            interlace: Interlace::Never,
            reverse: Reverse::Normal,
            texture_page_y_base_2: 0,
            horizontal_resolution: HorizontalResolution::S256,
            vertical_resolution: VerticalResolution::S240,
            video_mode: VideoMode::Hz60,
            display_area_color_depth: ColorDepth::Bit15,
            vertical_interlace: VerticalInterlace::Off,
            display_enabled: DisplayEnabled::Disabled,
            interrupt_request: InterruptRequest::Off,
            ready_receive_cmd_word: Ready::Ready,
            ready_send_vram_to_cpu: Ready::Ready,
            ready_receive_dma_block: Ready::Ready,
            dma_direction: DmaDirection::Off,
            drawing_mode: DrawingMode::Even,
            texture_rectangle_x_flip: false,
            texture_rectangle_y_flip: false,
            display_area_x_start_in_vram: 0,
            display_area_y_start_in_vram: 0,
            display_range_horizontal_start: 0,
            display_range_horizontal_end: 0,
            display_range_vertical_start: 0,
            display_range_vertical_end: 0,
            texture_window_x_mask: 0,
            texture_window_y_mask: 0,
            texture_window_x_offset: 0,
            texture_window_y_offset: 0,
            drawing_area_top: 0,
            drawing_area_left: 0,
            drawing_area_bottom: 0,
            drawing_area_right: 0,
            drawing_x_offset: 0,
            drawing_y_offset: 0,
            gp0_bytes: (0, 0, 0),
            gp1_bytes: (0, 0, 0),
            arguments: Vec::new(),
            argument_count: 0,
            receive_mode: ReceiveMode::Command,
            pending: Vec::new(),
        }
    }

    /// Reads one byte of the register window: zero over the GPUREAD word,
    /// the packed status over the status word.
    pub fn read_u8(&self, offset: u32) -> (r: u8)
        requires
            offset < 8,
        ensures
            r == gpu_read_spec(self@, offset),
    {
        if offset < 4 {
            0
        } else if offset == 4 {
            let semi: u8 = match self.semi_transparency {
                SemiTransparency::First => 0,
                SemiTransparency::Second => 1,
                SemiTransparency::Third => 2,
                SemiTransparency::Fourth => 3,
            };
            let colors: u8 = match self.texture_page_colors {
                TexturePageColors::Bit4 => 0,
                TexturePageColors::Bit8 => 1,
                TexturePageColors::Bit15 => 2,
            };
            self.texture_page_x_base | (self.texture_page_y_base_1 << 4) | (semi << 5) | ((colors
                & 1) << 7)
        } else if offset == 5 {
            let colors: u8 = match self.texture_page_colors {
                TexturePageColors::Bit4 => 0,
                TexturePageColors::Bit8 => 1,
                TexturePageColors::Bit15 => 2,
            };
            let dith: u8 = match self.dither {
                Dither::Off => 0,
                Dither::Enabled => 1,
            };
            let dad: u8 = match self.display_area_drawing {
                DisplayAreaDrawing::Prohibited => 0,
                DisplayAreaDrawing::Allowed => 1,
            };
            let mask: u8 = match self.mask_drawing {
                MaskDrawing::No => 0,
                MaskDrawing::Yes => 1,
            };
            let pixels: u8 = match self.draw_pixels {
                DrawPixels::Always => 0,
                DrawPixels::Unmasked => 1,
            };
            let inter: u8 = match self.interlace {
                Interlace::Never => 0,
                Interlace::Always => 1,
            };
            let rev: u8 = match self.reverse {
                Reverse::Normal => 0,
                Reverse::Distorted => 1,
            };
            ((colors & 2) >> 1) | (dith << 1) | (dad << 2) | (mask << 3) | (pixels << 4) | (inter
                << 5) | (rev << 6) | (self.texture_page_y_base_2 << 7)
        } else if offset == 6 {
            let hres: u8 = match self.horizontal_resolution {
                HorizontalResolution::S256 => 0b000,
                HorizontalResolution::S320 => 0b010,
                HorizontalResolution::S368 => 0b001,
                HorizontalResolution::S512 => 0b100,
                HorizontalResolution::S640 => 0b110,
            };
            let video: u8 = match self.video_mode {
                VideoMode::Hz60 => 0,
                VideoMode::Hz50 => 1,
            };
            let depth: u8 = match self.display_area_color_depth {
                ColorDepth::Bit15 => 0,
                ColorDepth::Bit24 => 1,
            };
            let vint: u8 = match self.vertical_interlace {
                VerticalInterlace::Off => 0,
                VerticalInterlace::On => 1,
            };
            let denb: u8 = match self.display_enabled {
                DisplayEnabled::Enabled => 0,
                DisplayEnabled::Disabled => 1,
            };
            hres | (video << 4) | (depth << 5) | (vint << 6) | (denb << 7)
        } else {
            let irq: u8 = match self.interrupt_request {
                InterruptRequest::Off => 0,
                InterruptRequest::Irq => 1,
            };
            let dma_block: u8 = match self.ready_receive_dma_block {
                Ready::No => 0,
                Ready::Ready => 1,
            };
            let vram: u8 = match self.ready_send_vram_to_cpu {
                Ready::No => 0,
                Ready::Ready => 1,
            };
            let cmd: u8 = match self.ready_receive_cmd_word {
                Ready::No => 0,
                Ready::Ready => 1,
            };
            let request: u8 = match self.dma_direction {
                DmaDirection::Off => 0,
                DmaDirection::Fifo => 1,
                DmaDirection::CpuToGpu => dma_block,
                DmaDirection::GpuToCpu => vram,
            };
            let dir: u8 = match self.dma_direction {
                DmaDirection::Off => 0,
                DmaDirection::Fifo => 1,
                DmaDirection::CpuToGpu => 2,
                DmaDirection::GpuToCpu => 3,
            };
            let mode: u8 = match self.drawing_mode {
                DrawingMode::Even => 0,
                DrawingMode::Odd => 1,
            };
            irq | (request << 1) | (cmd << 2) | (vram << 3) | (dma_block << 4) | (dir << 5) | (mode
                << 7)
        }
    }

    /// Writes one byte of the register window. The three low bytes of each
    /// port are stored; the write of a top byte assembles the word and
    /// commits it to GP0 or GP1.
    #[verifier::rlimit(100)]
    #[verifier::spinoff_prover]
    pub fn write_u8(&mut self, offset: u32, value: u8) -> (r: Result<(), Abort>)
        requires
            offset < 8,
            gpu_wf(old(self)@),
        ensures
            gpu_wf(final(self)@),
            final(self)@ == gpu_write_spec(old(self)@, offset, value).0,
            matches_abort(r, gpu_write_spec(old(self)@, offset, value).1),
    {
        if offset == 0 {
            self.gp0_bytes.0 = value;
            proof {
                assert(self@ == gpu_write_spec(old(self)@, offset, value).0);
            }
            Ok(())
        } else if offset == 1 {
            self.gp0_bytes.1 = value;
            proof {
                assert(self@ == gpu_write_spec(old(self)@, offset, value).0);
            }
            Ok(())
        } else if offset == 2 {
            self.gp0_bytes.2 = value;
            proof {
                assert(self@ == gpu_write_spec(old(self)@, offset, value).0);
            }
            Ok(())
        } else if offset == 3 {
            let command = crate::words::word_from_bytes(
                self.gp0_bytes.0,
                self.gp0_bytes.1,
                self.gp0_bytes.2,
                value,
            );
            let res = self.gp0(command);
            proof {
                assert(self@ == gpu_write_spec(old(self)@, offset, value).0);
                assert(matches_abort(res, gpu_write_spec(old(self)@, offset, value).1));
            }
            res
        } else if offset == 4 {
            self.gp1_bytes.0 = value;
            proof {
                assert(self@ == gpu_write_spec(old(self)@, offset, value).0);
            }
            Ok(())
        } else if offset == 5 {
            self.gp1_bytes.1 = value;
            proof {
                assert(self@ == gpu_write_spec(old(self)@, offset, value).0);
            }
            Ok(())
        } else if offset == 6 {
            self.gp1_bytes.2 = value;
            proof {
                assert(self@ == gpu_write_spec(old(self)@, offset, value).0);
            }
            Ok(())
        } else {
            let command = crate::words::word_from_bytes(
                self.gp1_bytes.0,
                self.gp1_bytes.1,
                self.gp1_bytes.2,
                value,
            );
            let res = self.gp1(command);
            proof {
                assert(self@ == gpu_write_spec(old(self)@, offset, value).0);
                assert(matches_abort(res, gpu_write_spec(old(self)@, offset, value).1));
            }
            res
        }
    }

    /// Takes one word at the GP0 port: the start of a command when the port
    /// is idle, otherwise the next argument or data word; a completed
    /// command executes at once.
    pub fn gp0(&mut self, command: u32) -> (r: Result<(), Abort>)
        requires
            gpu_wf(old(self)@),
        ensures
            gpu_wf(final(self)@),
            ({
                let (g2, abort) = gp0_spec(old(self)@, command);
                final(self)@ == g2 && (match abort {
                    None => r is Ok,
                    Some(a) => r == Err::<(), Abort>(a),
                })
            }),
    {
        proof {
            reveal(gp0_spec);
        }
        if self.argument_count == 0 {
            let opcode = (command >> 24) as u8;
            let bytes: u32 = if opcode == 0x28 {
                5
            } else if opcode == 0x30 {
                6
            } else if opcode == 0x38 {
                8
            } else if opcode == 0xa0 {
                3
            } else {
                1
            };
            self.argument_count = bytes;
            self.arguments.clear();
        }

        self.argument_count = self.argument_count - 1;

        match self.receive_mode {
            ReceiveMode::Command => {
                self.arguments.push(command);
                if self.argument_count == 0 {
                    self.execute_gp0()
                } else {
                    Ok(())
                }
            },
            ReceiveMode::Data => {
                if self.argument_count == 0 {
                    self.receive_mode = ReceiveMode::Command;
                }
                Ok(())
            },
        }
    }

    /// Dispatches the command whose last word just arrived.
    fn execute_gp0(&mut self) -> (r: Result<(), Abort>)
        requires
            old(self).arguments@.len() >= 1,
            old(self).arguments@.len() == arg_total(
                spec_command_opcode(old(self).arguments@[0]),
            ),
            old(self).argument_count == 0,
            old(self).receive_mode == ReceiveMode::Command,
        ensures
            gpu_wf(final(self)@),
            ({
                let (g2, abort) = gp0_execute_spec(old(self)@);
                final(self)@ == g2 && (match abort {
                    None => r is Ok,
                    Some(a) => r == Err::<(), Abort>(a),
                })
            }),
    {
        let opcode = (self.arguments[0] >> 24) as u8;
        if opcode == 0x00 {
            self.op_nop();
            Ok(())
        } else if opcode == 0x01 {
            self.op_clear_cache();
            Ok(())
        } else if opcode == 0x28 {
            self.op_draw_monochrome_four_point_polygon_opaque();
            Ok(())
        } else if opcode == 0x30 {
            self.op_draw_shaded_three_point_polygon_opaque();
            Ok(())
        } else if opcode == 0x38 {
            self.op_draw_shaded_four_point_polygon_opaque();
            Ok(())
        } else if opcode == 0xa0 {
            self.op_copy_rectangle();
            Ok(())
        } else if opcode == 0xe1 {
            self.op_draw_mode_setting()
        } else if opcode == 0xe2 {
            self.op_texture_window_setting();
            Ok(())
        } else if opcode == 0xe3 {
            self.op_set_drawing_area_top_left();
            Ok(())
        } else if opcode == 0xe4 {
            self.op_set_drawing_area_bottom_right();
            Ok(())
        } else if opcode == 0xe5 {
            self.op_set_drawing_offset();
            Ok(())
        } else if opcode == 0xe6 {
            self.op_mask_bit_setting();
            Ok(())
        } else {
            Err(Abort::UnimplementedGp0 { word: self.arguments[0] })
        }
    }

    /// GP0(00h): no operation.
    pub fn op_nop(&mut self)
        ensures
            *final(self) == *old(self),
    {
    }

    /// GP0(01h): clear the texture cache, which this core does not model.
    pub fn op_clear_cache(&mut self)
        ensures
            *final(self) == *old(self),
    {
    }

    /// GP0(28h): a monochrome opaque quad, submitted with the color of the
    /// first word at every vertex.
    pub fn op_draw_monochrome_four_point_polygon_opaque(&mut self)
        requires
            old(self).arguments@.len() >= 5,
        ensures
            final(self)@ == gp0_monochrome_quad_spec(old(self)@),
    {
        let color = Color::from_word(self.arguments[0] & 0x00ffffff);
        let command = DrawCommand::Quad {
            p0: Position::from_word(self.arguments[1]),
            p1: Position::from_word(self.arguments[2]),
            p2: Position::from_word(self.arguments[3]),
            p3: Position::from_word(self.arguments[4]),
            c0: color,
            c1: color,
            c2: color,
            c3: color,
        };
        self.pending.push(command);
    }

    /// GP0(30h): a shaded opaque triangle, its colors and positions
    /// interleaved over six words.
    pub fn op_draw_shaded_three_point_polygon_opaque(&mut self)
        requires
            old(self).arguments@.len() >= 6,
        ensures
            final(self)@ == gp0_shaded_triangle_spec(old(self)@),
    {
        let command = DrawCommand::Triangle {
            p0: Position::from_word(self.arguments[1]),
            p1: Position::from_word(self.arguments[3]),
            p2: Position::from_word(self.arguments[5]),
            c0: Color::from_word(self.arguments[0]),
            c1: Color::from_word(self.arguments[2]),
            c2: Color::from_word(self.arguments[4]),
        };
        self.pending.push(command);
    }

    /// GP0(38h): a shaded opaque quad, its colors and positions interleaved
    /// over eight words.
    pub fn op_draw_shaded_four_point_polygon_opaque(&mut self)
        requires
            old(self).arguments@.len() >= 8,
        ensures
            final(self)@ == gp0_shaded_quad_spec(old(self)@),
    {
        let command = DrawCommand::Quad {
            p0: Position::from_word(self.arguments[1]),
            p1: Position::from_word(self.arguments[3]),
            p2: Position::from_word(self.arguments[5]),
            p3: Position::from_word(self.arguments[7]),
            c0: Color::from_word(self.arguments[0]),
            c1: Color::from_word(self.arguments[2]),
            c2: Color::from_word(self.arguments[4]),
            c3: Color::from_word(self.arguments[6]),
        };
        self.pending.push(command);
    }

    /// GP0(A0h): the CPU-to-VRAM copy header. The port switches to data
    /// reception for one word per two packed pixels.
    pub fn op_copy_rectangle(&mut self)
        requires
            old(self).arguments@.len() >= 3,
        ensures
            final(self)@ == gp0_copy_rectangle_spec(old(self)@),
    {
        let size_word: u32 = self.arguments[2];
        let width: u32 = size_word & 0xffff;
        let height: u32 = (size_word >> 16) & 0xffff;
        proof {
            assert(size_word & 0xffff <= 0xffff && (size_word >> 16) & 0xffff <= 0xffff)
                by (bit_vector);
            assert(width * height <= 0xffff * 0xffff) by (nonlinear_arith)
                requires
                    width <= 0xffff,
                    height <= 0xffff,
            ;
        }
        let image_size = (width * height + 1) & !1u32;
        let words = image_size / 2;
        self.argument_count = words;
        self.receive_mode = ReceiveMode::Data;
    }

    /// GP0(E1h): the draw-mode setting. A word asking for the reserved
    /// texture color depth is unresolvable and changes nothing.
    pub fn op_draw_mode_setting(&mut self) -> (r: Result<(), Abort>)
        requires
            old(self).arguments@.len() >= 1,
        ensures
            ({
                let (g2, abort) = gp0_draw_mode_spec(old(self)@);
                final(self)@ == g2 && (match abort {
                    None => r is Ok,
                    Some(a) => r == Err::<(), Abort>(a),
                })
            }),
    {
        let command = self.arguments[0];
        let colors = (command >> 7) & 3;
        if colors == 3 {
            return Err(Abort::ReservedTextureDepth { word: command });
        }
        self.texture_page_x_base = (command & 0xf) as u8;
        self.texture_page_y_base_1 = ((command >> 4) & 1) as u8;
        let semi = (command >> 5) & 3;
        self.semi_transparency = if semi == 0 {
            SemiTransparency::First
        } else if semi == 1 {
            SemiTransparency::Second
        } else if semi == 2 {
            SemiTransparency::Third
        } else {
            SemiTransparency::Fourth
        };
        self.texture_page_colors = if colors == 0 {
            TexturePageColors::Bit4
        } else if colors == 1 {
            TexturePageColors::Bit8
        } else {
            TexturePageColors::Bit15
        };
        self.dither = if (command >> 9) & 1 == 0 {
            Dither::Off
        } else {
            Dither::Enabled
        };
        self.display_area_drawing = if (command >> 10) & 1 == 0 {
            DisplayAreaDrawing::Prohibited
        } else {
            DisplayAreaDrawing::Allowed
        };
        self.texture_page_y_base_2 = ((command >> 11) & 1) as u8;
        self.texture_rectangle_x_flip = (command >> 12) & 1 != 0;
        self.texture_rectangle_y_flip = (command >> 13) & 1 != 0;
        Ok(())
    }

    /// GP0(E2h): the texture window setting.
    pub fn op_texture_window_setting(&mut self)
        requires
            old(self).arguments@.len() >= 1,
        ensures
            final(self)@ == gp0_texture_window_spec(old(self)@),
    {
        let command = self.arguments[0];
        self.texture_window_x_mask = (command & 0x1f) as u8;
        self.texture_window_y_mask = ((command >> 5) & 0x1f) as u8;
        self.texture_window_x_offset = ((command >> 10) & 0x1f) as u8;
        self.texture_window_y_offset = ((command >> 15) & 0x1f) as u8;
    }

    /// GP0(E3h): the drawing-area top-left corner.
    pub fn op_set_drawing_area_top_left(&mut self)
        requires
            old(self).arguments@.len() >= 1,
        ensures
            final(self)@ == gp0_drawing_area_top_left_spec(old(self)@),
    {
        let command = self.arguments[0];
        self.drawing_area_left = (command & 0x3ff) as u16;
        self.drawing_area_top = ((command >> 10) & 0x3ff) as u16;
    }

    /// GP0(E4h): the drawing-area bottom-right corner.
    pub fn op_set_drawing_area_bottom_right(&mut self)
        requires
            old(self).arguments@.len() >= 1,
        ensures
            final(self)@ == gp0_drawing_area_bottom_right_spec(old(self)@),
    {
        let command = self.arguments[0];
        self.drawing_area_right = (command & 0x3ff) as u16;
        self.drawing_area_bottom = ((command >> 10) & 0x3ff) as u16;
    }

    /// GP0(E5h): the drawing offset.
    pub fn op_set_drawing_offset(&mut self)
        requires
            old(self).arguments@.len() >= 1,
        ensures
            final(self)@ == gp0_drawing_offset_spec(old(self)@),
    {
        let command = self.arguments[0];
        self.drawing_x_offset = (command & 0x7ff) as u16;
        self.drawing_y_offset = ((command >> 11) & 0x7ff) as u16;
    }

    /// GP0(E6h): the mask-bit setting.
    pub fn op_mask_bit_setting(&mut self)
        requires
            old(self).arguments@.len() >= 1,
        ensures
            final(self)@ == gp0_mask_bit_spec(old(self)@),
    {
        let command = self.arguments[0];
        self.mask_drawing = if command & 1 == 0 {
            MaskDrawing::No
        } else {
            MaskDrawing::Yes
        };
        self.draw_pixels = if (command >> 1) & 1 == 0 {
            DrawPixels::Always
        } else {
            DrawPixels::Unmasked
        };
    }

    /// Takes one word at the GP1 control port.
    pub fn gp1(&mut self, command: u32) -> (r: Result<(), Abort>)
        requires
            gpu_wf(old(self)@),
        ensures
            gpu_wf(final(self)@),
            ({
                let (g2, abort) = gp1_spec(old(self)@, command);
                final(self)@ == g2 && (match abort {
                    None => r is Ok,
                    Some(a) => r == Err::<(), Abort>(a),
                })
            }),
    {
        proof {
            reveal(gp1_spec);
        }
        let opcode = (command >> 24) as u8;
        if opcode == 0x00 {
            self.op_reset_gpu(command);
            Ok(())
        } else if opcode == 0x01 {
            self.op_reset_command_buffer(command);
            Ok(())
        } else if opcode == 0x02 {
            self.op_acknowledge_gpu_interrupt(command);
            Ok(())
        } else if opcode == 0x03 {
            self.op_display_enable(command);
            Ok(())
        } else if opcode == 0x04 {
            self.op_dma_direction(command);
            Ok(())
        } else if opcode == 0x05 {
            self.op_start_of_display_area_in_vram(command);
            Ok(())
        } else if opcode == 0x06 {
            self.op_horizontal_display_range_on_screen(command);
            Ok(())
        } else if opcode == 0x07 {
            self.op_vertical_display_range_on_screen(command);
            Ok(())
        } else if opcode == 0x08 {
            self.op_display_mode(command);
            Ok(())
        } else {
            Err(Abort::UnimplementedGp1 { word: command })
        }
    }

    /// GP1(00h): the GPU reset.
    pub fn op_reset_gpu(&mut self, command: u32)
        ensures
            final(self)@ == gp1_reset_spec(old(self)@),
    {
        self.interrupt_request = InterruptRequest::Off;
        self.display_enabled = DisplayEnabled::Disabled;
        self.dma_direction = DmaDirection::Off;
        self.display_area_x_start_in_vram = 0;
        self.display_area_y_start_in_vram = 0;
        self.display_range_horizontal_start = 0x200;
        self.display_range_horizontal_end = 0x200 + 256 * 10;
        self.display_range_vertical_start = 0x010;
        self.display_range_vertical_end = 0x010 + 240;
        self.vertical_resolution = VerticalResolution::S240;
        self.video_mode = VideoMode::Hz60;
        self.display_area_color_depth = ColorDepth::Bit15;
        self.vertical_interlace = VerticalInterlace::Off;
        self.horizontal_resolution = HorizontalResolution::S256;
        self.reverse = Reverse::Normal;
        self.texture_page_x_base = 0;
        self.texture_page_y_base_1 = 0;
        self.semi_transparency = SemiTransparency::First;
        self.texture_page_colors = TexturePageColors::Bit4;
        self.dither = Dither::Off;
        self.display_area_drawing = DisplayAreaDrawing::Prohibited;
        self.texture_page_y_base_2 = 0;
        self.texture_rectangle_x_flip = false;
        self.texture_rectangle_y_flip = false;
        self.texture_window_x_mask = 0;
        self.texture_window_y_mask = 0;
        self.texture_window_x_offset = 0;
        self.texture_window_y_offset = 0;
        self.drawing_area_left = 0;
        self.drawing_area_top = 0;
        self.drawing_area_right = 0;
        self.drawing_area_bottom = 0;
        self.drawing_x_offset = 0;
        self.drawing_y_offset = 0;
        self.mask_drawing = MaskDrawing::No;
        self.draw_pixels = DrawPixels::Always;
    }

    /// GP1(01h): the command-buffer reset, clearing the GP0 assembly state.
    pub fn op_reset_command_buffer(&mut self, command: u32)
        ensures
            final(self)@ == gp1_reset_command_buffer_spec(old(self)@),
    {
        self.arguments.clear();
        self.argument_count = 0;
        self.receive_mode = ReceiveMode::Command;
    }

    /// GP1(02h): acknowledge the GPU interrupt.
    pub fn op_acknowledge_gpu_interrupt(&mut self, command: u32)
        ensures
            (final(self)@ == GpuView { interrupt_request: InterruptRequest::Off, ..old(self)@ }),
    {
        self.interrupt_request = InterruptRequest::Off;
    }

    /// GP1(03h): the display enable switch; bit 0 clear enables the display.
    pub fn op_display_enable(&mut self, command: u32)
        ensures
            final(self)@ == gp1_display_enable_spec(old(self)@, command),
    {
        self.display_enabled = if command & 1 == 0 {
            DisplayEnabled::Enabled
        } else {
            DisplayEnabled::Disabled
        };
    }

    /// GP1(04h): the DMA direction, a two-bit field.
    pub fn op_dma_direction(&mut self, command: u32)
        ensures
            final(self)@ == gp1_dma_direction_spec(old(self)@, command),
    {
        let bits = command & 3;
        self.dma_direction = if bits == 0 {
            DmaDirection::Off
        } else if bits == 1 {
            DmaDirection::Fifo
        } else if bits == 2 {
            DmaDirection::CpuToGpu
        } else {
            DmaDirection::GpuToCpu
        };
    }

    /// GP1(05h): the display-area origin in VRAM.
    pub fn op_start_of_display_area_in_vram(&mut self, command: u32)
        ensures
            final(self)@ == gp1_display_area_start_spec(old(self)@, command),
    {
        self.display_area_x_start_in_vram = (command & 0x3ff) as u16;
        self.display_area_y_start_in_vram = ((command >> 10) & 0x3ff) as u16;
    }

    /// GP1(06h): the horizontal display range.
    pub fn op_horizontal_display_range_on_screen(&mut self, command: u32)
        ensures
            final(self)@ == gp1_horizontal_range_spec(old(self)@, command),
    {
        self.display_range_horizontal_start = (command & 0xfff) as u16;
        self.display_range_horizontal_end = ((command >> 12) & 0xfff) as u16;
    }

    /// GP1(07h): the vertical display range.
    pub fn op_vertical_display_range_on_screen(&mut self, command: u32)
        ensures
            final(self)@ == gp1_vertical_range_spec(old(self)@, command),
    {
        self.display_range_vertical_start = (command & 0x3ff) as u16;
        self.display_range_vertical_end = ((command >> 10) & 0x3ff) as u16;
    }

    /// GP1(08h): the display mode.
    pub fn op_display_mode(&mut self, command: u32)
        ensures
            final(self)@ == gp1_display_mode_spec(old(self)@, command),
    {
        self.vertical_resolution = if (command >> 2) & 1 == 1 && (command >> 5) & 1 == 1 {
            VerticalResolution::S480
        } else {
            VerticalResolution::S240
        };
        self.video_mode = if (command >> 3) & 1 == 0 {
            VideoMode::Hz60
        } else {
            VideoMode::Hz50
        };
        self.display_area_color_depth = if (command >> 4) & 1 == 0 {
            ColorDepth::Bit15
        } else {
            ColorDepth::Bit24
        };
        self.vertical_interlace = if (command >> 5) & 1 == 0 {
            VerticalInterlace::Off
        } else {
            VerticalInterlace::On
        };
        self.horizontal_resolution = if (command >> 6) & 1 == 1 {
            HorizontalResolution::S368
        } else if command & 3 == 0 {
            HorizontalResolution::S256
        } else if command & 3 == 1 {
            HorizontalResolution::S320
        } else if command & 3 == 2 {
            HorizontalResolution::S512
        } else {
            HorizontalResolution::S640
        };
        self.reverse = if (command >> 7) & 1 == 0 {
            Reverse::Normal
        } else {
            Reverse::Distorted
        };
    }

    /// How many draw commands await the renderer sink.
    pub fn draw_command_count(&self) -> (r: usize)
        ensures
            r == self@.pending.len(),
    {
        self.pending.len()
    }

    /// The awaiting draw command at the given position, in submission order.
    pub fn draw_command(&self, index: usize) -> (r: DrawCommand)
        requires
            index < self@.pending.len(),
        ensures
            r == self@.pending[index as int],
    {
        self.pending[index]
    }

    /// Clears the awaiting draw commands, once the sink has taken them.
    pub fn clear_draw_commands(&mut self)
        ensures
            (final(self)@ == GpuView { pending: Seq::empty(), ..old(self)@ }),
    {
        self.pending.clear();
    }
}

} // verus!
