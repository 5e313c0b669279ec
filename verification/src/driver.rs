use vstd::prelude::*;

verus! {

use crate::geom::{COLS, FRAME_BYTES, ROWS, spec_offset, offset_of};
use crate::glyphs::{glyph, glyph_col};
use vstd::string::StringSliceAdditionalSpecFns;

/// Command: set the device's X address (column), low bits carrying the value.
pub const X_ADDR: u8 = 0x80;

/// Command: set the device's Y address (row band), low bits carrying the value.
pub const Y_ADDR: u8 = 0x40;

/// Command: function set, selecting power mode, addressing and instruction set.
pub const FUNCTION_SET: u8 = 0x20;

/// Function-set bit pattern for horizontal addressing, the text mode.
pub const FUNCTION_SET_H_ADDRESSING: u8 = 0b00;

/// Function-set bit pattern for vertical addressing, the fast upload mode.
pub const FUNCTION_SET_V_ADDRESSING: u8 = 0b10;

/// Function-set bit selecting the extended instruction set.
pub const EXTENDED_INSTRUCTION_SET: u8 = 0x01;

/// Function-set bit putting the controller into power-down mode.
pub const POWER_DOWN_BIT: u8 = 0b100;

/// Extended command: temperature coefficient.
pub const TEMP_COEFF: u8 = 0b100;

/// Extended command: bias system, low bits carrying the mode.
pub const BIAS: u8 = 0x10;

/// Command: display control, low bits carrying the video mode.
pub const DISPLAY_CONTROL: u8 = 0x08;

/// Display-control bit pattern for normal (non-inverted) video.
pub const DISPLAY_CONF_NORMAL: u8 = 0b100;

/// Default contrast (operation voltage) command byte; tunable per unit
/// through `set_contrast`.
pub const DEFAULT_CONTRAST: u8 = 0xb8;

/// In-memory mirror of the on-device pixel state: one byte per
/// (column, row) cell, each byte a vertical strip of 8 pixels.
pub struct DisplayBuffer {
    data: [u8; 504],
}

impl View for DisplayBuffer {
    type V = Seq<u8>;

    closed spec fn view(&self) -> Seq<u8> {
        self.data@
    }
}

impl DisplayBuffer {
    /// A buffer with every pixel off.
    pub fn new() -> (r: Self)
        ensures
            r@.len() == FRAME_BYTES,
            forall|i: int| 0 <= i < FRAME_BYTES ==> r@[i] == 0u8,
    {
        DisplayBuffer { data: [0u8; 504] }
    }

    /// The byte that covers cell `(col, row)`.
    pub fn get(&self, col: u8, row: u8) -> (r: u8)
        requires
            col < COLS,
            row < ROWS,
        ensures
            r == self@[spec_offset(col as int, row as int)],
    {
        let i = offset_of(col, row);
        self.data[i]
    }

    /// Overwrites the byte that covers cell `(col, row)`.
    pub fn set(&mut self, col: u8, row: u8, value: u8)
        requires
            col < COLS,
            row < ROWS,
        ensures
            final(self)@ == old(self)@.update(spec_offset(col as int, row as int), value),
    {
        let i = offset_of(col, row);
        self.data[i] = value;
    }
}

impl Default for DisplayBuffer {
    fn default() -> (r: Self)
        ensures
            r@.len() == FRAME_BYTES,
            forall|i: int| 0 <= i < FRAME_BYTES ==> r@[i] == 0u8,
    {
        DisplayBuffer::new()
    }
}

/// The transport capability the driver writes through: one operation for the
/// device's command register and one for its data register.  The driver
/// assumes both always succeed at the protocol level; physical failures are
/// invisible at this layer.
pub trait Pcd8544Backend {
    fn command(&mut self, command: u8);

    fn data(&mut self, data: &[u8]);
}

/// The state the text engine acts on: the shadow buffer together with the
/// write cursor.  The `*_spec` functions below define, independently of the
/// executable code, how printing moves this state.
pub ghost struct TextState {
    pub buf: Seq<u8>,
    pub col: int,
    pub row: int,
}

/// A well-formed text state: a full-size buffer and an in-range cursor.
pub open spec fn ts_wf(s: TextState) -> bool {
    &&& s.buf.len() == FRAME_BYTES
    &&& 0 <= s.col < COLS
    &&& 0 <= s.row < ROWS
}

/// One scroll step: the top row disappears, everything moves up one row, and
/// the vacated bottom row is blank.
pub open spec fn scroll_spec(buf: Seq<u8>) -> Seq<u8> {
    buf.subrange(COLS as int, FRAME_BYTES as int) + Seq::new(COLS as nat, |i: int| 0u8)
}

/// Cursor advance after a single byte write: step right; on row overflow wrap
/// to column zero of the next row; on overflowing the last row, scroll and
/// keep writing on that last row.
pub open spec fn advance_spec(s: TextState) -> TextState {
    if s.col + 1 < COLS {
        TextState { buf: s.buf, col: s.col + 1, row: s.row }
    } else if s.row + 1 < ROWS {
        TextState { buf: s.buf, col: 0, row: s.row + 1 }
    } else {
        TextState { buf: scroll_spec(s.buf), col: 0, row: s.row }
    }
}

/// One byte write during text rendering: the byte lands at the cursor's
/// offset, then the cursor advances.
pub open spec fn write_byte_spec(s: TextState, b: u8) -> TextState {
    advance_spec(TextState { buf: s.buf.update(spec_offset(s.col, s.row), b), col: s.col, row: s.row })
}

/// Printing one character: its five glyph columns followed by one blank
/// spacer column, six byte writes in all.
pub open spec fn print_char_spec(s: TextState, c: u8) -> TextState {
    let s0 = write_byte_spec(s, glyph_col(c, 0));
    let s1 = write_byte_spec(s0, glyph_col(c, 1));
    let s2 = write_byte_spec(s1, glyph_col(c, 2));
    let s3 = write_byte_spec(s2, glyph_col(c, 3));
    let s4 = write_byte_spec(s3, glyph_col(c, 4));
    write_byte_spec(s4, 0u8)
}

/// A newline: scroll first when already on the last row, then move to the
/// start of the next row down.
pub open spec fn new_line_spec(s: TextState) -> TextState {
    if s.row + 1 == ROWS {
        TextState { buf: scroll_spec(s.buf), col: 0, row: s.row }
    } else {
        TextState { buf: s.buf, col: 0, row: s.row + 1 }
    }
}

/// One input byte of `print`: printable ASCII renders as itself, a newline
/// breaks the line, anything else renders as the placeholder `?`.
pub open spec fn print_byte_spec(s: TextState, b: u8) -> TextState {
    if 0x20 <= b && b <= 0x7e {
        print_char_spec(s, b)
    } else if b == 0x0a {
        new_line_spec(s)
    } else {
        print_char_spec(s, 0x3f)
    }
}

/// The whole `print` operation, one input byte after the other.
pub open spec fn print_spec(s: TextState, bytes: Seq<u8>) -> TextState
    decreases bytes.len(),
{
    if bytes.len() == 0 {
        s
    } else {
        print_spec(print_byte_spec(s, bytes[0]), bytes.drop_first())
    }
}

/// Processing one more byte extends a finished print run by one step.
pub proof fn lemma_print_snoc(s: TextState, bytes: Seq<u8>, b: u8)
    ensures
        print_spec(s, bytes.push(b)) == print_byte_spec(print_spec(s, bytes), b),
    decreases bytes.len(),
{
    if bytes.len() == 0 {
        assert(bytes.push(b)[0] == b);
        assert(bytes.push(b).drop_first() =~= Seq::<u8>::empty());
        assert(print_spec(s, bytes.push(b)) == print_spec(
            print_byte_spec(s, b),
            bytes.push(b).drop_first(),
        ));
        assert(print_spec(print_byte_spec(s, b), Seq::<u8>::empty()) == print_byte_spec(s, b));
    } else {
        assert(bytes.push(b)[0] == bytes[0]);
        assert(bytes.push(b).drop_first() =~= bytes.drop_first().push(b));
        lemma_print_snoc(print_byte_spec(s, bytes[0]), bytes.drop_first(), b);
        assert(print_spec(s, bytes.push(b)) == print_spec(
            print_byte_spec(s, bytes[0]),
            bytes.drop_first().push(b),
        ));
    }
}

/// Printing keeps the text state well formed.
pub proof fn lemma_print_spec_wf(s: TextState, bytes: Seq<u8>)
    requires
        ts_wf(s),
    ensures
        ts_wf(print_spec(s, bytes)),
    decreases bytes.len(),
{
    if bytes.len() != 0 {
        lemma_print_spec_wf(print_byte_spec(s, bytes[0]), bytes.drop_first());
    }
}

/// The stateful protocol layer: a transport backend, the shadow framebuffer,
/// and the mirrored write cursor.
pub struct Pcd8544Driver<B: Pcd8544Backend> {
    backend: B,
    buffer: DisplayBuffer,
    xpos: u8,
    ypos: u8,
    contrast: u8,
}

impl<B: Pcd8544Backend> Pcd8544Driver<B> {
    /// The shadow buffer's contents.
    pub closed spec fn shadow(&self) -> Seq<u8> {
        self.buffer@
    }

    /// The cursor's column.
    pub closed spec fn col(&self) -> u8 {
        self.xpos
    }

    /// The cursor's row.
    pub closed spec fn row(&self) -> u8 {
        self.ypos
    }

    /// The contrast command byte `init` issues.
    pub closed spec fn contrast_cmd(&self) -> u8 {
        self.contrast
    }

    /// Driver invariant: a full-size shadow buffer, an in-range cursor, and
    /// a contrast byte that carries the operation-voltage command bit.
    pub open spec fn wf(&self) -> bool {
        &&& self.shadow().len() == FRAME_BYTES
        &&& self.col() < COLS
        &&& self.row() < ROWS
        &&& self.contrast_cmd() >= 0x80
    }

    /// The driver's state as the text engine sees it.
    pub open spec fn text_state(&self) -> TextState {
        TextState { buf: self.shadow(), col: self.col() as int, row: self.row() as int }
    }

    /// A driver over the given transport, shadow all blank, cursor at the
    /// origin, default contrast.
    pub fn new(backend: B) -> (r: Self)
        ensures
            r.wf(),
            r.shadow().len() == FRAME_BYTES,
            forall|i: int| 0 <= i < FRAME_BYTES ==> r.shadow()[i] == 0u8,
            r.col() == 0,
            r.row() == 0,
            r.contrast_cmd() == DEFAULT_CONTRAST,
    {
        Pcd8544Driver {
            backend,
            buffer: DisplayBuffer::new(),
            xpos: 0,
            ypos: 0,
            contrast: DEFAULT_CONTRAST,
        }
    }

    /// The mirrored cursor position, `(column, row)`.
    pub fn cursor(&self) -> (r: (u8, u8))
        ensures
            r.0 == self.col(),
            r.1 == self.row(),
    {
        (self.xpos, self.ypos)
    }

    /// The shadow buffer's byte for cell `(col, row)`.
    pub fn shadow_byte(&self, col: u8, row: u8) -> (r: u8)
        requires
            col < COLS,
            row < ROWS,
        ensures
            r == self.shadow()[spec_offset(col as int, row as int)],
    {
        self.buffer.get(col, row)
    }

    /// Chooses the operation-voltage command byte the next `init` will issue.
    /// The device-specific safe range carries the command bit 0x80.
    pub fn set_contrast(&mut self, contrast: u8)
        requires
            old(self).wf(),
            contrast >= 0x80,
        ensures
            final(self).wf(),
            final(self).shadow() == old(self).shadow(),
            final(self).col() == old(self).col(),
            final(self).row() == old(self).row(),
            final(self).contrast_cmd() == contrast,
    {
        self.contrast = contrast;
    }

    /// Moves the device's write pointer and the mirrored cursor.  An
    /// out-of-range request is a deliberate no-op: the hardware offers no
    /// fault channel, so malformed coordinates are absorbed silently.
    pub fn set_cursor(&mut self, x: u8, y: u8)
        requires
            old(self).wf(),
        ensures
            final(self).wf(),
            final(self).shadow() == old(self).shadow(),
            final(self).contrast_cmd() == old(self).contrast_cmd(),
            x < COLS && y < ROWS ==> final(self).col() == x && final(self).row() == y,
            !(x < COLS && y < ROWS) ==> final(self).col() == old(self).col() && final(self).row()
                == old(self).row(),
    {
        if x >= COLS || y >= ROWS {
            return ;
        }
        self.backend.command(X_ADDR + x);
        self.backend.command(Y_ADDR + y);
        self.xpos = x;
        self.ypos = y;
    }

    /// Moves the cursor back to the origin.
    fn reset_cursor(&mut self)
        requires
            old(self).wf(),
        ensures
            final(self).wf(),
            final(self).shadow() == old(self).shadow(),
            final(self).contrast_cmd() == old(self).contrast_cmd(),
            final(self).col() == 0,
            final(self).row() == 0,
    {
        self.set_cursor(0, 0);
    }

    /// Streams the full-size blank frame to the device without touching the
    /// shadow buffer.
    fn blank_device(&mut self)
        requires
            old(self).wf(),
        ensures
            final(self).wf(),
            final(self).shadow() == old(self).shadow(),
            final(self).contrast_cmd() == old(self).contrast_cmd(),
            final(self).col() == 0,
            final(self).row() == 0,
    {
        self.reset_cursor();
        let zero: [u8; 1] = [0u8];
        let mut i: usize = 0;
        while i < FRAME_BYTES
            invariant
                self.wf(),
                self.shadow() == old(self).shadow(),
                self.contrast_cmd() == old(self).contrast_cmd(),
                self.col() == 0,
                self.row() == 0,
            decreases FRAME_BYTES - i,
        {
            self.backend.data(zero.as_slice());
            i = i + 1;
        }
        self.reset_cursor();
    }

    /// Issues the fixed power-on configuration sequence — extended
    /// instruction set, contrast, temperature coefficient, bias, basic
    /// instruction set, normal display mode — then clears the screen.  The
    /// ordering is a hardware contract.  Safe to call repeatedly.
    pub fn init(&mut self)
        requires
            old(self).wf(),
        ensures
            final(self).wf(),
            final(self).shadow().len() == FRAME_BYTES,
            forall|i: int| 0 <= i < FRAME_BYTES ==> final(self).shadow()[i] == 0u8,
            final(self).col() == 0,
            final(self).row() == 0,
            final(self).contrast_cmd() == old(self).contrast_cmd(),
    {
        // chip active, horizontal addressing, extended instruction set
        self.backend.command(FUNCTION_SET + EXTENDED_INSTRUCTION_SET);
        // operation voltage (contrast); tune per physical unit
        let vop = self.contrast;
        self.backend.command(vop);
        // temperature coefficient
        self.backend.command(TEMP_COEFF);
        // bias mode 1:48
        self.backend.command(BIAS + 0b011);
        // back to the basic instruction set before touching display control
        self.backend.command(FUNCTION_SET);
        // normal (non-inverted) video
        self.backend.command(DISPLAY_CONTROL + DISPLAY_CONF_NORMAL);
        self.clear();
    }

    /// Blanks the screen and the shadow buffer and homes the cursor.
    pub fn clear(&mut self)
        requires
            old(self).wf(),
        ensures
            final(self).wf(),
            final(self).shadow().len() == FRAME_BYTES,
            forall|i: int| 0 <= i < FRAME_BYTES ==> final(self).shadow()[i] == 0u8,
            final(self).col() == 0,
            final(self).row() == 0,
            final(self).contrast_cmd() == old(self).contrast_cmd(),
    {
        self.blank_device();
        let mut i: usize = 0;
        while i < FRAME_BYTES
            invariant
                i <= FRAME_BYTES,
                self.wf(),
                self.contrast_cmd() == old(self).contrast_cmd(),
                self.col() == 0,
                self.row() == 0,
                self.shadow().len() == FRAME_BYTES,
                forall|j: int| 0 <= j < i ==> self.shadow()[j] == 0u8,
            decreases FRAME_BYTES - i,
        {
            self.buffer.data[i] = 0;
            i = i + 1;
        }
    }

    /// Uploads a full frame over the fast vertical-addressing path and
    /// mirrors it into the shadow buffer, leaving the device back in
    /// horizontal addressing with the cursor at the origin.
    pub fn draw_buffer(&mut self, buffer: &[u8; 504])
        requires
            old(self).wf(),
        ensures
            final(self).wf(),
            final(self).shadow() == buffer@,
            final(self).col() == 0,
            final(self).row() == 0,
            final(self).contrast_cmd() == old(self).contrast_cmd(),
    {
        self.backend.command(FUNCTION_SET + FUNCTION_SET_V_ADDRESSING);
        self.reset_cursor();
        self.backend.data(buffer.as_slice());
        self.backend.command(FUNCTION_SET + FUNCTION_SET_H_ADDRESSING);
        let mut i: usize = 0;
        while i < FRAME_BYTES
            invariant
                i <= FRAME_BYTES,
                self.wf(),
                self.contrast_cmd() == old(self).contrast_cmd(),
                self.col() == 0,
                self.row() == 0,
                self.shadow().len() == FRAME_BYTES,
                forall|j: int| 0 <= j < i ==> self.shadow()[j] == buffer@[j],
            decreases FRAME_BYTES - i,
        {
            self.buffer.data[i] = buffer[i];
            i = i + 1;
        }
        proof {
            assert(self.shadow() =~= buffer@);
        }
        self.reset_cursor();
    }

    /// Shifts the shadow buffer up one row, blanks the vacated last row,
    /// retransmits only the rows whose content changed, and puts the cursor
    /// one row above where it was (clamped at the top row).
    pub fn scroll(&mut self)
        requires
            old(self).wf(),
        ensures
            final(self).wf(),
            final(self).shadow() == scroll_spec(old(self).shadow()),
            final(self).col() == old(self).col(),
            final(self).row() == (if old(self).row() > 0 {
                (old(self).row() - 1) as u8
            } else {
                0u8
            }),
            final(self).contrast_cmd() == old(self).contrast_cmd(),
    {
        let prevx = self.xpos;
        let prevy = self.ypos;
        // blank the screen without touching the shadow
        self.blank_device();
        // shift the shadow up one row
        let mut i: usize = 0;
        while i < FRAME_BYTES - 84
            invariant
                i <= FRAME_BYTES - 84,
                self.wf(),
                self.contrast_cmd() == old(self).contrast_cmd(),
                self.shadow().len() == FRAME_BYTES,
                forall|j: int| 0 <= j < i ==> self.shadow()[j] == old(self).shadow()[j + COLS],
                forall|j: int| i <= j < FRAME_BYTES ==> self.shadow()[j] == old(self).shadow()[j],
            decreases FRAME_BYTES - 84 - i,
        {
            let b = self.buffer.data[i + 84];
            self.buffer.data[i] = b;
            i = i + 1;
        }
        // blank the vacated last row
        let mut i: usize = FRAME_BYTES - 84;
        while i < FRAME_BYTES
            invariant
                FRAME_BYTES - 84 <= i <= FRAME_BYTES,
                self.wf(),
                self.contrast_cmd() == old(self).contrast_cmd(),
                self.shadow().len() == FRAME_BYTES,
                forall|j: int| 0 <= j < FRAME_BYTES - 84 ==> self.shadow()[j] == old(
                    self,
                ).shadow()[j + COLS],
                forall|j: int| FRAME_BYTES - 84 <= j < i ==> self.shadow()[j] == 0u8,
            decreases FRAME_BYTES - i,
        {
            self.buffer.data[i] = 0;
            i = i + 1;
        }
        proof {
            assert(self.shadow() =~= scroll_spec(old(self).shadow()));
        }
        // the cleared last row is already blank on-device: resend only the
        // five rows whose pixel content changed
        let changed = vstd::slice::slice_subrange(self.buffer.data.as_slice(), 0, 420);
        self.backend.data(changed);
        // same column, one row up, clamped at the top
        let newy = if prevy > 0 {
            prevy - 1
        } else {
            0
        };
        self.set_cursor(prevx, newy);
    }

    /// Cursor advance after one byte write, resynchronizing the device
    /// cursor so that drift is bounded to a single byte.
    fn inc_cursor(&mut self)
        requires
            old(self).wf(),
        ensures
            final(self).wf(),
            final(self).text_state() == advance_spec(old(self).text_state()),
            final(self).contrast_cmd() == old(self).contrast_cmd(),
    {
        self.xpos = self.xpos + 1;
        if self.xpos >= COLS {
            self.xpos = 0;
            if self.ypos + 1 >= ROWS {
                let posx = self.xpos;
                let posy = self.ypos;
                self.scroll();
                self.set_cursor(posx, posy);
            } else {
                self.ypos = self.ypos + 1;
            }
        }
        let x = self.xpos;
        let y = self.ypos;
        self.set_cursor(x, y);
    }

    /// Writes one byte at the cursor, mirrored into the shadow buffer, then
    /// advances the cursor.
    fn put_byte(&mut self, b: u8)
        requires
            old(self).wf(),
        ensures
            final(self).wf(),
            final(self).text_state() == write_byte_spec(old(self).text_state(), b),
            final(self).contrast_cmd() == old(self).contrast_cmd(),
    {
        let one: [u8; 1] = [b];
        self.backend.data(one.as_slice());
        let i = offset_of(self.xpos, self.ypos);
        self.buffer.data[i] = b;
        self.inc_cursor();
    }

    /// Renders one printable character: five glyph columns and a blank
    /// spacer column.
    pub fn print_char(&mut self, c: u8)
        requires
            old(self).wf(),
            0x20 <= c <= 0x7e,
        ensures
            final(self).wf(),
            final(self).text_state() == print_char_spec(old(self).text_state(), c),
            final(self).contrast_cmd() == old(self).contrast_cmd(),
    {
        let g = glyph(c);
        self.put_byte(g[0]);
        self.put_byte(g[1]);
        self.put_byte(g[2]);
        self.put_byte(g[3]);
        self.put_byte(g[4]);
        self.put_byte(0);
    }

    /// Moves to the start of the next row, scrolling first when already on
    /// the last row.
    pub fn new_line(&mut self)
        requires
            old(self).wf(),
        ensures
            final(self).wf(),
            final(self).text_state() == new_line_spec(old(self).text_state()),
            final(self).contrast_cmd() == old(self).contrast_cmd(),
    {
        if self.ypos + 1 == ROWS {
            self.scroll();
        }
        let y = (self.ypos + 1) % ROWS;
        self.set_cursor(0, y);
    }

    /// Renders a string byte by byte: printable ASCII as itself, newlines as
    /// line breaks, anything else as the placeholder `?`.  Each byte's device
    /// writes are applied before the next byte is processed.
    pub fn print(&mut self, s: &str)
        requires
            old(self).wf(),
        ensures
            final(self).wf(),
            final(self).text_state() == print_spec(old(self).text_state(), s.spec_bytes()),
            final(self).contrast_cmd() == old(self).contrast_cmd(),
    {
        let bytes = s.as_bytes();
        let n = bytes.len();
        let mut i: usize = 0;
        while i < n
            invariant
                i <= n,
                n == bytes@.len(),
                bytes@ == s.spec_bytes(),
                self.wf(),
                self.text_state() == print_spec(old(self).text_state(), bytes@.take(i as int)),
                self.contrast_cmd() == old(self).contrast_cmd(),
            decreases n - i,
        {
            let b = bytes[i];
            proof {
                lemma_print_snoc(old(self).text_state(), bytes@.take(i as int), b);
                assert(bytes@.take(i + 1) =~= bytes@.take(i as int).push(b));
            }
            if 0x20 <= b && b <= 0x7e {
                self.print_char(b);
            } else if b == 0x0a {
                self.new_line();
            } else {
                self.print_char(0x3f);
            }
            i = i + 1;
        }
        proof {
            assert(bytes@.take(n as int) =~= bytes@);
        }
    }

    /// Blanks the visible pixels, then puts the controller into power-down
    /// mode.  The shadow buffer survives, so a later `wake_up` can be
    /// followed by `draw_buffer` to restore the image.
    pub fn power_down(&mut self)
        requires
            old(self).wf(),
        ensures
            final(self).wf(),
            final(self).shadow() == old(self).shadow(),
            final(self).col() == 0,
            final(self).row() == 0,
            final(self).contrast_cmd() == old(self).contrast_cmd(),
    {
        self.blank_device();
        self.backend.command(FUNCTION_SET + POWER_DOWN_BIT);
    }

    /// Leaves power-down mode.  Restoring the visible image is the caller's
    /// business, normally by replaying the shadow through `draw_buffer`.
    pub fn wake_up(&mut self)
        requires
            old(self).wf(),
        ensures
            final(self).wf(),
            final(self).shadow() == old(self).shadow(),
            final(self).col() == old(self).col(),
            final(self).row() == old(self).row(),
            final(self).contrast_cmd() == old(self).contrast_cmd(),
    {
        self.backend.command(FUNCTION_SET);
    }

    /// For `n` iterations, shows the bitwise complement of the shadow buffer
    /// and then the true contents again.  The shadow itself is never
    /// mutated; the hold time of each phase is owned by the transport's
    /// blocking writes.
    pub fn blink(&mut self, n: u32)
        requires
            old(self).wf(),
        ensures
            final(self).wf(),
            final(self).shadow() == old(self).shadow(),
            final(self).col() == 0,
            final(self).row() == 0,
            final(self).contrast_cmd() == old(self).contrast_cmd(),
    {
        let mut k: u32 = 0;
        while k < n
            invariant
                self.wf(),
                self.shadow() == old(self).shadow(),
                self.contrast_cmd() == old(self).contrast_cmd(),
            decreases n - k,
        {
            self.reset_cursor();
            let mut i: usize = 0;
            while i < FRAME_BYTES
                invariant
                    self.wf(),
                    self.shadow() == old(self).shadow(),
                    self.shadow().len() == FRAME_BYTES,
                    self.contrast_cmd() == old(self).contrast_cmd(),
                decreases FRAME_BYTES - i,
            {
                let b = self.buffer.data[i];
                let inverted: [u8; 1] = [255 - b];
                self.backend.data(inverted.as_slice());
                i = i + 1;
            }
            self.reset_cursor();
            let mut i: usize = 0;
            while i < FRAME_BYTES
                invariant
                    self.wf(),
                    self.shadow() == old(self).shadow(),
                    self.shadow().len() == FRAME_BYTES,
                    self.contrast_cmd() == old(self).contrast_cmd(),
                decreases FRAME_BYTES - i,
            {
                let b = self.buffer.data[i];
                let plain: [u8; 1] = [b];
                self.backend.data(plain.as_slice());
                i = i + 1;
            }
            k = k + 1;
        }
        self.reset_cursor();
    }
}

} // verus!
