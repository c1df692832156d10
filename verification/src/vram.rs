//! The display: the identifier of the graphics output protocol, the
//! framebuffer descriptor that the protocol resolves to, and the cursor of
//! the text writer that sits on the framebuffer.

use vstd::prelude::*;
use crate::layout::EfiSytemTable;
use crate::status::{UefiError, EFI_SUCCESS_CODE};

verus! {

/// A 128-bit identifier of a firmware protocol.
#[derive(Clone, Copy, PartialEq, Eq, Debug)]
pub struct EfiGuid {
    pub data0: u32,
    pub data1: u16,
    pub data2: u16,
    pub data3: [u8; 8],
}

impl EfiGuid {
    /// The sixteen bytes of the identifier as the firmware reads them: the
    /// first three fields least significant byte first, then the last
    /// field as it stands.
    pub open spec fn wire_bytes(self) -> Seq<u8> {
        seq![
            (self.data0 % 0x100) as u8,
            (self.data0 / 0x100 % 0x100) as u8,
            (self.data0 / 0x1_0000 % 0x100) as u8,
            (self.data0 / 0x100_0000) as u8,
            (self.data1 % 0x100) as u8,
            (self.data1 / 0x100) as u8,
            (self.data2 % 0x100) as u8,
            (self.data2 / 0x100) as u8,
        ] + self.data3@
    }

    /// The identifier as the sixteen bytes that are handed to the firmware.
    pub fn to_bytes(&self) -> (bytes: [u8; 16])
        ensures
            bytes@ == self.wire_bytes(),
    {
        let bytes: [u8; 16] = [
            (self.data0 % 0x100) as u8,
            (self.data0 / 0x100 % 0x100) as u8,
            (self.data0 / 0x1_0000 % 0x100) as u8,
            (self.data0 / 0x100_0000) as u8,
            (self.data1 % 0x100) as u8,
            (self.data1 / 0x100) as u8,
            (self.data2 % 0x100) as u8,
            (self.data2 / 0x100) as u8,
            self.data3[0],
            self.data3[1],
            self.data3[2],
            self.data3[3],
            self.data3[4],
            self.data3[5],
            self.data3[6],
            self.data3[7],
        ];
        assert(bytes@ =~= self.wire_bytes());
        bytes
    }
}

/// The identifier of the graphics output protocol.
pub fn graphics_output_protocol_guid() -> (guid: EfiGuid)
    ensures
        guid.data0 == 0x9042a9de,
        guid.data1 == 0x23dc,
        guid.data2 == 0x4a38,
        guid.data3@ == seq![0x96u8, 0xfbu8, 0x7au8, 0xdeu8, 0xd0u8, 0x80u8, 0x51u8, 0x6au8],
        guid.wire_bytes() == graphics_output_protocol_bytes(),
{
    let data3: [u8; 8] = [0x96, 0xfb, 0x7a, 0xde, 0xd0, 0x80, 0x51, 0x6a];
    assert(data3@ =~= seq![0x96u8, 0xfbu8, 0x7au8, 0xdeu8, 0xd0u8, 0x80u8, 0x51u8, 0x6au8]);
    let guid = EfiGuid { data0: 0x9042a9de, data1: 0x23dc, data2: 0x4a38, data3 };
    assert(guid.wire_bytes() =~= graphics_output_protocol_bytes());
    guid
}

/// The sixteen bytes that name the graphics output protocol to the
/// firmware.
pub open spec fn graphics_output_protocol_bytes() -> Seq<u8> {
    seq![
        0xdeu8, 0xa9u8, 0x42u8, 0x90u8, 0xdcu8, 0x23u8, 0x38u8, 0x4au8, 0x96u8, 0xfbu8, 0x7au8,
        0xdeu8, 0xd0u8, 0x80u8, 0x51u8, 0x6au8,
    ]
}

/// One locate-protocol call, ready to be made: the address to call and the
/// identifier to hand over.
#[derive(Clone, Copy, PartialEq, Eq, Debug)]
pub struct LocateProtocolRequest {
    /// Address of the firmware's locate-protocol call.
    pub entry: u64,
    /// The identifier of the protocol that is looked for.
    pub protocol: [u8; 16],
}

/// The display mode that the graphics output protocol reports, as far as
/// the bridge reads it.
#[derive(Clone, Copy, PartialEq, Eq, Debug, Structural)]
pub struct GraphicsOutputMode {
    /// Pixels in one row of the picture.
    pub horizontal_resolution: u32,
    /// Rows of the picture.
    pub vertical_resolution: u32,
    /// Pixels from the start of one row in memory to the start of the next.
    pub pixels_per_scan_line: u32,
    /// Physical address of the first pixel.
    pub frame_buffer_base: usize,
    /// Bytes of display memory.
    pub frame_buffer_size: usize,
}

/// What the firmware answered to the one locate-protocol call: the raw
/// status and, where it is success, the mode found behind the protocol.
/// The mode of a failed call is never read.
#[derive(Clone, Copy, PartialEq, Eq, Debug, Structural)]
pub struct LocateProtocolReply {
    pub status: u64,
    pub mode: GraphicsOutputMode,
}

/// A framebuffer: where display memory starts and how the picture lies in
/// it. The holder writes pixels there; the memory itself belongs to the
/// platform and stays mapped when boot services end.
#[derive(Clone, Copy, PartialEq, Eq, Debug, Structural)]
pub struct VramBufferInfo {
    buf: usize,
    width: i64,
    height: i64,
    pixels_per_line: i64,
}

/// What a framebuffer descriptor holds.
pub struct VramView {
    /// Address of the first pixel.
    pub base: usize,
    /// Pixels in one row of the picture.
    pub width: int,
    /// Rows of the picture.
    pub height: int,
    /// Pixels from the start of one row in memory to the start of the next.
    pub pixels_per_line: int,
}

impl VramView {
    /// The framebuffer that a display mode describes.
    pub open spec fn of_mode(mode: GraphicsOutputMode) -> VramView {
        VramView {
            base: mode.frame_buffer_base,
            width: mode.horizontal_resolution as int,
            height: mode.vertical_resolution as int,
            pixels_per_line: mode.pixels_per_scan_line as int,
        }
    }
}

impl View for VramBufferInfo {
    type V = VramView;

    closed spec fn view(&self) -> VramView {
        VramView {
            base: self.buf,
            width: self.width as int,
            height: self.height as int,
            pixels_per_line: self.pixels_per_line as int,
        }
    }
}

impl VramBufferInfo {
    /// Bytes of one pixel.
    pub fn bytes_per_pixel(&self) -> (bytes: i64)
        ensures
            bytes == 4,
    {
        4
    }

    /// Pixels from the start of one row in memory to the start of the next.
    pub fn pixels_per_line(&self) -> (pixels: i64)
        ensures
            pixels == self@.pixels_per_line,
    {
        self.pixels_per_line
    }

    /// Pixels in one row of the picture.
    pub fn width(&self) -> (pixels: i64)
        ensures
            pixels == self@.width,
    {
        self.width
    }

    /// Rows of the picture.
    pub fn height(&self) -> (rows: i64)
        ensures
            rows == self@.height,
    {
        self.height
    }

    /// The address of the first pixel.
    pub fn buf_mut(&mut self) -> (address: usize)
        ensures
            address == old(self)@.base,
            *final(self) == *old(self),
    {
        self.buf
    }
}

/// The one locate-protocol call that finds the display: the call's address
/// from the boot-services table and the identifier of the graphics output
/// protocol.
pub fn graphics_output_request(efi_system_table: &EfiSytemTable) -> (request:
    LocateProtocolRequest)
    ensures
        request.entry == efi_system_table.boot_services.locate_protocol,
        request.protocol@ == graphics_output_protocol_bytes(),
{
    let guid: EfiGuid = graphics_output_protocol_guid();
    let protocol: [u8; 16] = guid.to_bytes();
    assert(protocol@ =~= graphics_output_protocol_bytes());
    LocateProtocolRequest { entry: efi_system_table.boot_services().locate_protocol, protocol }
}

/// Reads the firmware's answer to the locate-protocol call. Gives the mode
/// behind the protocol where the status is success, and fails with
/// `ProtocolNotFound` on every other status.
pub fn locate_graphic_protocol(reply: &LocateProtocolReply) -> (found: Result<
    GraphicsOutputMode,
    UefiError,
>)
    ensures
        found.is_ok() <==> reply.status == EFI_SUCCESS_CODE,
        found matches Ok(mode) ==> mode == reply.mode,
        found matches Err(e) ==> e == UefiError::ProtocolNotFound,
{
    if reply.status != EFI_SUCCESS_CODE {
        return Err(UefiError::ProtocolNotFound);
    }
    Ok(reply.mode)
}

/// Builds the framebuffer descriptor from the firmware's answer to the
/// locate-protocol call: the base address, the resolution and the pixels
/// per scan line of the active mode. Fails with `ProtocolNotFound` exactly
/// when the status is not success, and builds no descriptor then.
pub fn init_vram(reply: &LocateProtocolReply) -> (vram: Result<VramBufferInfo, UefiError>)
    ensures
        vram.is_ok() <==> reply.status == EFI_SUCCESS_CODE,
        vram matches Ok(info) ==> info@ == VramView::of_mode(reply.mode),
        vram matches Err(e) ==> e == UefiError::ProtocolNotFound,
{
    let mode: GraphicsOutputMode = match locate_graphic_protocol(reply) {
        Ok(mode) => mode,
        Err(e) => {
            return Err(e);
        },
    };
    Ok(
        VramBufferInfo {
            buf: mode.frame_buffer_base,
            width: mode.horizontal_resolution as i64,
            height: mode.vertical_resolution as i64,
            pixels_per_line: mode.pixels_per_scan_line as i64,
        },
    )
}

/// The width in pixels of one glyph cell.
pub const GLYPH_WIDTH: i64 = 8;

/// The height in pixels of one line of text.
pub const LINE_HEIGHT: i64 = 16;

/// The colour in which the writer draws.
pub const TEXT_COLOR: u32 = 0xffffff;

/// One glyph to draw: where its cell starts, its colour and the character.
#[derive(Clone, Copy, PartialEq, Eq, Debug, Structural)]
pub struct GlyphPlacement {
    pub x: i64,
    pub y: i64,
    pub color: u32,
    pub character: char,
}

/// Where the cursor stands after one character: a line feed moves it to
/// the start of the next line, any other character one cell to the right.
pub open spec fn cursor_step(cursor: (int, int), c: char) -> (int, int) {
    if c == '\n' {
        (0, cursor.1 + LINE_HEIGHT)
    } else {
        (cursor.0 + GLYPH_WIDTH, cursor.1)
    }
}

/// Where the cursor stands after a text.
pub open spec fn cursor_after(start: (int, int), text: Seq<char>) -> (int, int)
    decreases text.len(),
{
    if text.len() == 0 {
        start
    } else {
        cursor_step(cursor_after(start, text.drop_last()), text.last())
    }
}

/// Whether a cursor position can be held.
pub open spec fn cursor_in_range(cursor: (int, int)) -> bool {
    i64::MIN <= cursor.0 <= i64::MAX && i64::MIN <= cursor.1 <= i64::MAX
}

/// Whether the cursor can be held after every character of a text.
pub open spec fn cursor_fits(start: (int, int), text: Seq<char>) -> bool
    decreases text.len(),
{
    if text.len() == 0 {
        cursor_in_range(start)
    } else {
        cursor_fits(start, text.drop_last()) && cursor_in_range(cursor_after(start, text))
    }
}

/// The glyphs that a text draws: one for each character but the line
/// feeds, each at the place where the cursor stood before it.
pub open spec fn glyphs_of(start: (int, int), text: Seq<char>) -> Seq<GlyphPlacement>
    decreases text.len(),
{
    if text.len() == 0 {
        Seq::empty()
    } else if text.last() == '\n' {
        glyphs_of(start, text.drop_last())
    } else {
        glyphs_of(start, text.drop_last()).push(
            GlyphPlacement {
                x: cursor_after(start, text.drop_last()).0 as i64,
                y: cursor_after(start, text.drop_last()).1 as i64,
                color: TEXT_COLOR,
                character: text.last(),
            },
        )
    }
}

/// A text cursor on a framebuffer, which the writer holds for itself while
/// it lives.
pub struct VramTextWriter<'a> {
    vram: &'a mut VramBufferInfo,
    cursor_x: i64,
    cursor_y: i64,
}

impl<'a> VramTextWriter<'a> {
    /// The place of the next glyph.
    pub closed spec fn cursor(&self) -> (int, int) {
        (self.cursor_x as int, self.cursor_y as int)
    }

    /// The framebuffer that is written to.
    pub closed spec fn target(&self) -> VramBufferInfo {
        *self.vram
    }

    /// A writer on `vram` with its cursor at the top left corner.
    pub fn new(vram: &'a mut VramBufferInfo) -> (writer: Self)
        ensures
            writer.cursor() == (0int, 0int),
            writer.target() == *old(vram),
    {
        Self { vram, cursor_x: 0, cursor_y: 0 }
    }

    /// The horizontal place of the next glyph.
    pub fn cursor_x(&self) -> (x: i64)
        ensures
            x == self.cursor().0,
    {
        self.cursor_x
    }

    /// The vertical place of the next glyph.
    pub fn cursor_y(&self) -> (y: i64)
        ensures
            y == self.cursor().1,
    {
        self.cursor_y
    }

    /// Lays out a text from the cursor on and moves the cursor behind it.
    /// Gives the glyphs to draw, in order. Where the cursor would leave
    /// the range of its coordinates at some character, gives `None` and
    /// leaves the cursor where it was.
    pub fn write_str(&mut self, s: &str) -> (glyphs: Option<Vec<GlyphPlacement>>)
        ensures
            final(self).target() == old(self).target(),
            glyphs.is_some() <==> cursor_fits(old(self).cursor(), s@),
            glyphs matches Some(placed) ==> placed@ == glyphs_of(old(self).cursor(), s@)
                && final(self).cursor() == cursor_after(old(self).cursor(), s@),
            glyphs.is_none() ==> final(self).cursor() == old(self).cursor(),
    {
        let ghost start: (int, int) = self.cursor();
        let mut placed: Vec<GlyphPlacement> = Vec::new();
        let mut x: i64 = self.cursor_x;
        let mut y: i64 = self.cursor_y;
        let count: usize = s.unicode_len();
        let mut done: usize = 0;
        while done < count
            invariant
                done <= count,
                count == s@.len(),
                start == old(self).cursor(),
                self.cursor() == old(self).cursor(),
                self.target() == old(self).target(),
                cursor_fits(start, s@.take(done as int)),
                (x as int, y as int) == cursor_after(start, s@.take(done as int)),
                placed@ == glyphs_of(start, s@.take(done as int)),
            decreases count - done,
        {
            let c: char = s.get_char(done);
            proof {
                let longer = s@.take(done + 1);
                assert(longer.drop_last() =~= s@.take(done as int));
                assert(longer.last() == c);
                if cursor_fits(start, s@) {
                    lemma_cursor_fits_prefix(start, s@, done + 1);
                }
            }
            if c == '\n' {
                if y > i64::MAX - LINE_HEIGHT {
                    return None;
                }
                x = 0;
                y = y + LINE_HEIGHT;
            } else {
                if x > i64::MAX - GLYPH_WIDTH {
                    return None;
                }
                placed.push(GlyphPlacement { x, y, color: TEXT_COLOR, character: c });
                x = x + GLYPH_WIDTH;
            }
            done = done + 1;
        }
        assert(s@.take(done as int) =~= s@);
        self.cursor_x = x;
        self.cursor_y = y;
        Some(placed)
    }
}

/// A text that fits lets each of its prefixes fit.
pub proof fn lemma_cursor_fits_prefix(start: (int, int), text: Seq<char>, n: int)
    requires
        0 <= n <= text.len(),
        cursor_fits(start, text),
    ensures
        cursor_fits(start, text.take(n)),
    decreases text.len(),
{
    if n == text.len() {
        assert(text.take(n) =~= text);
    } else {
        assert(text.drop_last().take(n) =~= text.take(n));
        lemma_cursor_fits_prefix(start, text.drop_last(), n);
    }
}

} // verus!
