//! The graphics card's logic: the command protocol it speaks on its port,
//! its video memory, and the layout of the text screen it shows.
use vstd::prelude::*;
use crate::semantics::quotient_toward_zero;

verus! {

/// Size of the video memory in bytes.
pub const VRAM_SIZE: usize = 0x10000;

/// Command: shut the display down.
pub const HLT: u8 = 0;

/// Command: draw the video memory as a text screen.
pub const DRAW_VGA: u8 = 1;

/// Command: store one byte (address low, address high, byte).
pub const WRITE_BYTE: u8 = 2;

/// Command: store two bytes (address low, address high, two bytes).
pub const WRITE_SHORT: u8 = 3;

/// Command: store four bytes (address low, address high, four bytes).
pub const WRITE_LONG: u8 = 4;

/// Columns of the text screen.
pub const TEXT_COLUMNS: usize = 80;

/// The total length in bytes of the command that starts with byte `op`, if
/// `op` starts a command.
pub open spec fn command_length(op: u8) -> Option<nat> {
    if op == HLT || op == DRAW_VGA {
        Some(1)
    } else if op == WRITE_BYTE {
        Some(4)
    } else if op == WRITE_SHORT {
        Some(5)
    } else if op == WRITE_LONG {
        Some(7)
    } else {
        None
    }
}

/// The number of bytes a store command stores.
pub open spec fn store_count(op: u8) -> nat {
    if op == WRITE_BYTE {
        1
    } else if op == WRITE_SHORT {
        2
    } else if op == WRITE_LONG {
        4
    } else {
        0
    }
}

/// The video memory address a complete store command targets.
pub open spec fn store_address(cmd: Seq<u8>) -> int {
    cmd[1] + 0x100 * cmd[2]
}

/// `true` when the complete command `cmd` can run: a store stays inside video memory.
pub open spec fn command_ok(cmd: Seq<u8>) -> bool {
    store_count(cmd[0]) == 0 || store_address(cmd) + store_count(cmd[0]) <= VRAM_SIZE
}

/// The video memory after the complete command `cmd`: a store writes its
/// bytes from its address on; other commands leave the memory alone.
pub open spec fn command_effect(vram: Seq<u8>, cmd: Seq<u8>) -> Seq<u8> {
    Seq::new(
        vram.len(),
        |i: int|
            if store_address(cmd) <= i < store_address(cmd) + store_count(cmd[0]) {
                cmd[3 + i - store_address(cmd)]
            } else {
                vram[i]
            },
    )
}

/// What the host must do after a command byte arrived.
#[derive(Clone, Copy, PartialEq, Eq, Structural, Debug)]
pub enum GpuAction {
    /// Nothing: the command is incomplete, or it changed video memory only.
    Nothing,
    /// Shut the display down.
    Halt,
    /// Draw the text screen.
    Draw,
}

/// The host action a complete command asks for.
pub open spec fn command_action(cmd: Seq<u8>) -> GpuAction {
    if cmd[0] == HLT {
        GpuAction::Halt
    } else if cmd[0] == DRAW_VGA {
        GpuAction::Draw
    } else {
        GpuAction::Nothing
    }
}

/// The abstract state of the card: its video memory and the bytes of the
/// command received so far.
#[verifier::ext_equal]
pub struct GpuView {
    pub vram: Seq<u8>,
    pub pending: Seq<u8>,
}

/// `true` when `b` can arrive next: a new command must start with a command byte.
pub open spec fn byte_ok(v: GpuView, b: u8) -> bool {
    let cmd = v.pending.push(b);
    &&& command_length(cmd[0]) is Some
    &&& cmd.len() == command_length(cmd[0]).unwrap() ==> command_ok(cmd)
}

/// The state and the host action after byte `b` arrives: a command that is
/// complete runs and is forgotten, an incomplete one waits for more bytes.
pub open spec fn receive(v: GpuView, b: u8) -> (GpuView, GpuAction) {
    let cmd = v.pending.push(b);
    if cmd.len() == command_length(cmd[0]).unwrap() {
        (GpuView { vram: command_effect(v.vram, cmd), pending: Seq::empty() }, command_action(cmd))
    } else {
        (GpuView { vram: v.vram, pending: cmd }, GpuAction::Nothing)
    }
}

/// `true` when the bytes `bs` can arrive one after the other.
pub open spec fn bytes_ok(v: GpuView, bs: Seq<u8>) -> bool
    decreases bs.len(),
{
    if bs.len() == 0 {
        true
    } else {
        byte_ok(v, bs[0]) && bytes_ok(receive(v, bs[0]).0, bs.drop_first())
    }
}

/// The state after the bytes `bs` arrive one after the other.
pub open spec fn receive_all(v: GpuView, bs: Seq<u8>) -> GpuView
    decreases bs.len(),
{
    if bs.len() == 0 {
        v
    } else {
        receive_all(receive(v, bs[0]).0, bs.drop_first())
    }
}

/// The command-processing part of the graphics card.
pub struct GpuState {
    pub vram: Vec<u8>,
    instruction_size: usize,
    instruction_buffer_ptr: usize,
    instruction_buffer: [u8; 7],
    received: Ghost<Seq<u8>>,
}

impl View for GpuState {
    type V = GpuView;

    closed spec fn view(&self) -> GpuView {
        GpuView {
            vram: self.vram@,
            pending: self.instruction_buffer@.subrange(0, self.instruction_buffer_ptr as int),
        }
    }
}

impl GpuState {
    /// Every byte the card has received, oldest first.
    pub closed spec fn received(&self) -> Seq<u8> {
        self.received@
    }

    /// `true` when the video memory has its full size and the bookkeeping of
    /// the pending command agrees with its bytes.
    pub closed spec fn wf(&self) -> bool {
        &&& self.vram@.len() == VRAM_SIZE
        &&& self.instruction_buffer_ptr < 7
        &&& if self.instruction_buffer_ptr == 0 {
            self.instruction_size == 0
        } else {
            &&& command_length(self.instruction_buffer@[0]) == Some(
                self.instruction_size as nat,
            )
            &&& self.instruction_buffer_ptr < self.instruction_size
        }
    }

    /// A card with zeroed video memory, waiting for a command.
    pub fn new() -> (gpu: Self)
        ensures
            gpu.wf(),
            gpu@.vram.len() == VRAM_SIZE,
            gpu@.vram == Seq::new(VRAM_SIZE as nat, |i: int| 0u8),
            gpu@.pending == Seq::<u8>::empty(),
            gpu.received() == Seq::<u8>::empty(),
    {
        let gpu = GpuState {
            vram: vec![0; VRAM_SIZE],
            instruction_size: 0,
            instruction_buffer_ptr: 0,
            instruction_buffer: [0;7],
            received: Ghost(Seq::empty()),
        };
        assert(gpu@.vram =~= Seq::new(VRAM_SIZE as nat, |i: int| 0u8));
        assert(gpu@.pending =~= Seq::<u8>::empty());
        gpu
    }

    /// A well-formed card has the full video memory.
    pub proof fn lemma_wf_vram_len(&self)
        requires
            self.wf(),
        ensures
            self@.vram.len() == VRAM_SIZE,
    {
    }

    /// Whether the byte `data` can arrive next: `write` may take exactly the
    /// bytes for which this holds.
    pub fn accepts(&self, data: u8) -> (ok: bool)
        requires
            self.wf(),
        ensures
            ok == byte_ok(self@, data),
    {
        let op = if self.instruction_buffer_ptr == 0 {
            data
        } else {
            self.instruction_buffer[0]
        };
        let length: usize = match op {
            HLT => 1,
            DRAW_VGA => 1,
            WRITE_BYTE => 4,
            WRITE_SHORT => 5,
            WRITE_LONG => 7,
            _ => {
                return false;
            },
        };
        if self.instruction_buffer_ptr + 1 < length {
            return true;
        }
        let (low, high) = if self.instruction_buffer_ptr >= 3 {
            (self.instruction_buffer[1], self.instruction_buffer[2])
        } else {
            (0, 0)
        };
        let count: usize = match op {
            WRITE_BYTE => 1,
            WRITE_SHORT => 2,
            WRITE_LONG => 4,
            _ => 0,
        };
        proof {
            let cmd = self@.pending.push(data);
            assert(cmd[0] == op);
            assert(cmd.len() == self.instruction_buffer_ptr + 1);
        }
        count == 0 || low as usize + 0x100 * (high as usize) + count <= VRAM_SIZE
    }

    /// Receives one byte of a command; runs the command when it is complete
    /// and tells what the host has to do.
    pub fn write(&mut self, data: u8) -> (action: GpuAction)
        requires
            old(self).wf(),
            byte_ok(old(self)@, data),
        ensures
            final(self).wf(),
            final(self)@.vram.len() == VRAM_SIZE,
            (final(self)@, action) == receive(old(self)@, data),
            final(self).received() == old(self).received().push(data),
    {
        proof {
            self.received@ = self.received@.push(data);
        }
        let ghost cmd = self@.pending.push(data);
        self.instruction_buffer[self.instruction_buffer_ptr] = data;
        self.instruction_buffer_ptr += 1;
        if self.instruction_size == 0 {
            self.instruction_size = match data {
                HLT => 1,
                DRAW_VGA => 1,
                WRITE_BYTE => 4,
                WRITE_SHORT => 5,
                _ => 7,
            };
        }
        assert(self.instruction_buffer@.subrange(0, self.instruction_buffer_ptr as int) =~= cmd);
        if self.instruction_buffer_ptr == self.instruction_size {
            let op = self.instruction_buffer[0];
            proof {
                let b2 = self.instruction_buffer@[2] as usize;
                assert(b2 << 8 == 0x100 * b2) by (bit_vector)
                    requires
                        b2 < 0x100,
                ;
            }
            let dest = self.instruction_buffer[1] as usize + ((self.instruction_buffer[2] as usize)
                << 8);
            let action = if op == HLT {
                GpuAction::Halt
            } else if op == DRAW_VGA {
                GpuAction::Draw
            } else if op == WRITE_BYTE {
                self.vram[dest] = self.instruction_buffer[3];
                GpuAction::Nothing
            } else if op == WRITE_SHORT {
                self.vram[dest + 0] = self.instruction_buffer[3];
                self.vram[dest + 1] = self.instruction_buffer[4];
                GpuAction::Nothing
            } else {
                self.vram[dest + 0] = self.instruction_buffer[3];
                self.vram[dest + 1] = self.instruction_buffer[4];
                self.vram[dest + 2] = self.instruction_buffer[5];
                self.vram[dest + 3] = self.instruction_buffer[6];
                GpuAction::Nothing
            };
            self.instruction_size = 0;
            self.instruction_buffer_ptr = 0;
            assert(self@.vram =~= command_effect(old(self)@.vram, cmd));
            assert(self@.pending =~= Seq::<u8>::empty());
            action
        } else {
            GpuAction::Nothing
        }
    }
}

/// A full store-byte command, received from an idle card, stores its byte at
/// its address, changes no other byte, and leaves the card idle again.
pub proof fn lemma_write_byte_command(vram: Seq<u8>, low: u8, high: u8, value: u8)
    requires
        vram.len() == VRAM_SIZE,
    ensures
        ({
            let cmd = seq![WRITE_BYTE, low, high, value];
            let idle = GpuView { vram, pending: Seq::empty() };
            let addr = low + 0x100 * high;
            &&& bytes_ok(idle, cmd)
            &&& receive_all(idle, cmd).pending == Seq::<u8>::empty()
            &&& receive_all(idle, cmd).vram == vram.update(addr, value)
        }),
{
    let cmd = seq![WRITE_BYTE, low, high, value];
    let idle = GpuView { vram, pending: Seq::empty() };
    let addr = low + 0x100 * high;
    reveal_with_fuel(bytes_ok, 5);
    reveal_with_fuel(receive_all, 5);
    let v1 = receive(idle, WRITE_BYTE).0;
    assert(v1.pending =~= seq![WRITE_BYTE]);
    let v2 = receive(v1, low).0;
    assert(v2.pending =~= seq![WRITE_BYTE, low]);
    let v3 = receive(v2, high).0;
    assert(v3.pending =~= seq![WRITE_BYTE, low, high]);
    assert(v3.pending.push(value) =~= cmd);
    let v4 = receive(v3, value).0;
    assert(v4.vram =~= vram.update(addr, value));
    assert(cmd.drop_first() =~= seq![low, high, value]);
    assert(cmd.drop_first().drop_first() =~= seq![high, value]);
    assert(cmd.drop_first().drop_first().drop_first() =~= seq![value]);
    assert(cmd.drop_first().drop_first().drop_first().drop_first() =~= Seq::<u8>::empty());
}

/// The colors of the text screen's palette.
#[derive(Clone, Copy, PartialEq, Eq, Structural, Debug)]
pub enum VgaColor {
    Black,
    Blue,
    Green,
    Cyan,
    Red,
    Magenta,
    Yellow,
    White,
    DarkGray,
    DarkBlue,
    DarkGreen,
    DarkCyan,
    DarkRed,
    DarkMagenta,
    YellowGreen,
    Gray,
}

/// The palette color with number `c`; numbers past the palette are black.
pub open spec fn palette(c: u8) -> VgaColor {
    if c == 0x1 {
        VgaColor::Blue
    } else if c == 0x2 {
        VgaColor::Green
    } else if c == 0x3 {
        VgaColor::Cyan
    } else if c == 0x4 {
        VgaColor::Red
    } else if c == 0x5 {
        VgaColor::Magenta
    } else if c == 0x6 {
        VgaColor::Yellow
    } else if c == 0x7 {
        VgaColor::White
    } else if c == 0x8 {
        VgaColor::DarkGray
    } else if c == 0x9 {
        VgaColor::DarkBlue
    } else if c == 0xA {
        VgaColor::DarkGreen
    } else if c == 0xB {
        VgaColor::DarkCyan
    } else if c == 0xC {
        VgaColor::DarkRed
    } else if c == 0xD {
        VgaColor::DarkMagenta
    } else if c == 0xE {
        VgaColor::YellowGreen
    } else if c == 0xF {
        VgaColor::Gray
    } else {
        VgaColor::Black
    }
}

/// The palette color with number `vga_color`.
pub fn vga_to_color(vga_color: u8) -> (c: VgaColor)
    ensures
        c == palette(vga_color),
{
    match vga_color {
        0x0 => VgaColor::Black,
        0x1 => VgaColor::Blue,
        0x2 => VgaColor::Green,
        0x3 => VgaColor::Cyan,
        0x4 => VgaColor::Red,
        0x5 => VgaColor::Magenta,
        0x6 => VgaColor::Yellow,
        0x7 => VgaColor::White,
        0x8 => VgaColor::DarkGray,
        0x9 => VgaColor::DarkBlue,
        0xA => VgaColor::DarkGreen,
        0xB => VgaColor::DarkCyan,
        0xC => VgaColor::DarkRed,
        0xD => VgaColor::DarkMagenta,
        0xE => VgaColor::YellowGreen,
        0xF => VgaColor::Gray,
        _ => VgaColor::Black,
    }
}

/// Rows of the text screen that the window height is divided into.
pub const TEXT_ROWS: i32 = 25;

/// The width and height in pixels of one character cell in a window of
/// `screen_width` by `screen_height` pixels: an 80th of the width, and a 25th
/// of the height but no more than twice the width (both quotients rounded
/// toward zero).
pub fn cell_size(screen_width: i32, screen_height: i32) -> (size: (i32, i32))
    ensures
        size.0 == quotient_toward_zero(screen_width as int, 80),
        size.1 == if quotient_toward_zero(screen_height as int, TEXT_ROWS as int) <= 2 * size.0 {
            quotient_toward_zero(screen_height as int, TEXT_ROWS as int)
        } else {
            2 * size.0
        },
{
    let width = screen_width / 80;
    let by_height = screen_height / TEXT_ROWS;
    let height = if by_height <= 2 * width {
        by_height
    } else {
        2 * width
    };
    (width, height)
}

/// One character cell of the text screen.
#[derive(Clone, Copy, PartialEq, Eq, Structural, Debug)]
pub struct TextCell {
    pub column: usize,
    pub row: usize,
    pub ch: u8,
    pub foreground: VgaColor,
    pub background: VgaColor,
}

/// `true` when `b` is a printable ASCII character other than space.
pub open spec fn is_ascii_graphic(b: u8) -> bool {
    0x21 <= b <= 0x7E
}

/// The cell number `i` of the text screen drawn from `vram`: character and
/// attribute bytes `2i` and `2i + 1`, cells laid out row by row, 80 to a row;
/// characters that do not print show as spaces; the attribute's low nibble
/// is the foreground color, its high nibble the background color.
pub open spec fn text_cell(vram: Seq<u8>, i: int) -> TextCell {
    let ch = vram[2 * i];
    let attr = vram[2 * i + 1];
    TextCell {
        column: (i % TEXT_COLUMNS as int) as usize,
        row: (i / TEXT_COLUMNS as int) as usize,
        ch: if is_ascii_graphic(ch) {
            ch
        } else {
            0x20
        },
        foreground: palette(attr % 0x10),
        background: palette((attr / 0x10) % 0x10),
    }
}

/// The cells of the text screen drawn from `vram`, in drawing order; a last
/// odd byte is not drawn.
pub fn text_cells(vram: &Vec<u8>) -> (cells: Vec<TextCell>)
    ensures
        cells@.len() == vram@.len() / 2,
        forall|i: int| 0 <= i < cells@.len() ==> cells@[i] == text_cell(vram@, i),
{
    let mut cells: Vec<TextCell> = Vec::new();
    let mut x: usize = 0;
    let mut y: usize = 0;
    let mut i: usize = 0;
    let n = vram.len() / 2;
    while i < n
        invariant
            n == vram@.len() / 2,
            vram@.len() <= usize::MAX,
            i <= n,
            x == i % TEXT_COLUMNS,
            y == i / TEXT_COLUMNS,
            cells@.len() == i,
            forall|j: int| 0 <= j < i ==> cells@[j] == text_cell(vram@, j),
        decreases n - i,
    {
        let mut ch = vram[2 * i];
        if !(0x21 <= ch && ch <= 0x7E) {
            ch = 0x20;
        }
        let color = vram[2 * i + 1];
        proof {
            assert(color & 0x0F == color % 0x10) by (bit_vector);
            assert((color >> 4) & 0x0F == (color / 0x10) % 0x10) by (bit_vector);
        }
        let fg_color = vga_to_color(color & 0x0F);
        let bg_color = vga_to_color((color >> 4) & 0x0F);
        cells.push(TextCell { column: x, row: y, ch, foreground: fg_color, background: bg_color });
        x += 1;
        if x >= TEXT_COLUMNS {
            x = 0;
            y += 1;
        }
        i += 1;
    }
    cells
}

} // verus!
