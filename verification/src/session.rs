//! The display session: the panel's configuration and the operations that
//! turn drawing requests into actions.

use crate::action::{Action, ActionView};
use crate::instruction::Instruction;
use crate::orientation::{Orientation, MADCTL_BGR};
use crate::protocol::{
    append, command, command_with, delay, delay_ms, lemma_words_empty, lemma_words_push, word,
    words, write_command, write_word,
};
use crate::tuning::{
    COLOR_MODE, FRAME_RATE, FRAME_RATE_PARTIAL, INVERSION_CONTROL, MEMORY_ACCESS_BGR,
    MEMORY_ACCESS_RGB, POWER_1, POWER_2, POWER_3, POWER_4, POWER_5, SETTLE_MS, VCOM,
};
use vstd::prelude::*;

verus! {

/// The actions of a hardware reset: the reset line goes high, low, high.
pub open spec fn hard_reset() -> Seq<ActionView> {
    seq![ActionView::ResetHigh, ActionView::ResetLow, ActionView::ResetHigh]
}

/// The actions that stream `colors` into the current address window: one
/// memory write command, then each colour as a big-endian data word.
pub open spec fn write_pixels(colors: Seq<u16>) -> Seq<ActionView> {
    command(Instruction::RAMWR) + words(colors)
}

/// The number of pixels in the window from `(sx, sy)` to `(ex, ey)`, both
/// corners included.
pub open spec fn pixel_count(sx: u16, sy: u16, ex: u16, ey: u16) -> nat
    recommends
        sx <= ex,
        sy <= ey,
{
    ((ex - sx + 1) * (ey - sy + 1)) as nat
}

/// The mathematical form of a session: the configuration of the panel.
pub struct Panel {
    /// The panel's colour order is RGB (`true`) or BGR (`false`).
    pub rgb: bool,
    /// The panel shows inverted colours.
    pub inverted: bool,
    /// The horizontal offset added to every column address.
    pub dx: u16,
    /// The vertical offset added to every row address.
    pub dy: u16,
    /// The panel's width in pixels.
    pub width: u32,
    /// The panel's height in pixels.
    pub height: u32,
}

impl Panel {
    /// The panel as it is right after construction: no offset.
    pub open spec fn new(rgb: bool, inverted: bool, width: u32, height: u32) -> Panel {
        Panel { rgb, inverted, dx: 0, dy: 0, width, height }
    }

    /// The same panel with its offset replaced by `(dx, dy)`.
    pub open spec fn set_offset(self, dx: u16, dy: u16) -> Panel {
        Panel { dx, dy, ..self }
    }

    /// The initialization sequence.
    pub open spec fn init(self) -> Seq<ActionView> {
        hard_reset()
            + command(Instruction::SWRESET) + delay(SETTLE_MS)
            + command(Instruction::SLPOUT) + delay(SETTLE_MS)
            + command_with(Instruction::FRMCTR1, FRAME_RATE@)
            + command_with(Instruction::FRMCTR2, FRAME_RATE@)
            + command_with(Instruction::FRMCTR3, FRAME_RATE_PARTIAL@)
            + command_with(Instruction::INVCTR, INVERSION_CONTROL@)
            + command_with(Instruction::PWCTR1, POWER_1@)
            + command_with(Instruction::PWCTR2, POWER_2@)
            + command_with(Instruction::PWCTR3, POWER_3@)
            + command_with(Instruction::PWCTR4, POWER_4@)
            + command_with(Instruction::PWCTR5, POWER_5@)
            + command_with(Instruction::VMCTR1, VCOM@)
            + command(if self.inverted { Instruction::INVON } else { Instruction::INVOFF })
            + command_with(
                Instruction::MADCTL,
                if self.rgb { MEMORY_ACCESS_RGB@ } else { MEMORY_ACCESS_BGR@ },
            )
            + command_with(Instruction::COLMOD, COLOR_MODE@)
            + command(Instruction::DISPON) + delay(SETTLE_MS)
    }

    /// The byte written to the memory access control register to select
    /// `orientation`: the orientation's bits, and the BGR bit if the panel's
    /// colour order is BGR.
    pub open spec fn madctl(self, orientation: Orientation) -> u8 {
        if self.rgb {
            orientation.bits()
        } else {
            orientation.bits() | MADCTL_BGR
        }
    }

    /// The actions that select `orientation`.
    pub open spec fn set_orientation(self, orientation: Orientation) -> Seq<ActionView> {
        command_with(Instruction::MADCTL, seq![self.madctl(orientation)])
    }

    /// The column `x` and the row `y`, moved by the offset, are still 16-bit
    /// addresses.
    pub open spec fn addressable(self, x: u16, y: u16) -> bool {
        x + self.dx <= u16::MAX && y + self.dy <= u16::MAX
    }

    /// The actions that set the address window to the columns `sx` to `ex`
    /// and the rows `sy` to `ey`, each moved by the offset.
    pub open spec fn set_address_window(self, sx: u16, sy: u16, ex: u16, ey: u16) -> Seq<
        ActionView,
    > {
        command(Instruction::CASET)
            + word((sx + self.dx) as u16) + word((ex + self.dx) as u16)
            + command(Instruction::RASET)
            + word((sy + self.dy) as u16) + word((ey + self.dy) as u16)
    }

    /// The actions that set the pixel at `(x, y)` to `color`.
    pub open spec fn set_pixel(self, x: u16, y: u16, color: u16) -> Seq<ActionView> {
        self.set_address_window(x, y, x, y) + command(Instruction::RAMWR) + word(color)
    }

    /// The actions that set the window and stream `colors` into it.
    pub open spec fn set_pixels(self, sx: u16, sy: u16, ex: u16, ey: u16, colors: Seq<u16>) -> Seq<
        ActionView,
    > {
        self.set_address_window(sx, sy, ex, ey) + write_pixels(colors)
    }

    /// The whole panel can be addressed as one window: it has at least one
    /// column and one row, and its last column and row, moved by the
    /// offset, are still 16-bit addresses.
    pub open spec fn clearable(self) -> bool {
        &&& 1 <= self.width
        &&& 1 <= self.height
        &&& self.width - 1 + self.dx <= u16::MAX
        &&& self.height - 1 + self.dy <= u16::MAX
    }

    /// The actions that fill the whole panel with `color`.
    pub open spec fn clear(self, color: u16) -> Seq<ActionView> {
        self.set_color(0, 0, (self.width - 1) as u16, (self.height - 1) as u16, color)
    }

    /// The actions that fill the window with `color`.
    pub open spec fn set_color(self, sx: u16, sy: u16, ex: u16, ey: u16, color: u16) -> Seq<
        ActionView,
    > {
        self.set_pixels(sx, sy, ex, ey, Seq::new(pixel_count(sx, sy, ex, ey), |i: int| color))
    }
}

/// ST7735 driver session.
///
/// A session holds the panel's configuration and nothing else. Each
/// operation returns the actions that carry it out; the owner of the bus,
/// of the data/command line and of the reset line performs them in order
/// and stops at the first one that fails.
pub struct ST7735 {
    /// Whether the display is RGB (true) or BGR (false).
    rgb: bool,
    /// Whether the colours are inverted (true) or not (false).
    inverted: bool,
    /// Global image offset.
    dx: u16,
    dy: u16,
    width: u32,
    height: u32,
}

impl View for ST7735 {
    type V = Panel;

    closed spec fn view(&self) -> Panel {
        Panel {
            rgb: self.rgb,
            inverted: self.inverted,
            dx: self.dx,
            dy: self.dy,
            width: self.width,
            height: self.height,
        }
    }
}

impl ST7735 {
    /// Creates a session for a panel of `width` by `height` pixels, with no
    /// offset.
    pub fn new(rgb: bool, inverted: bool, width: u32, height: u32) -> (display: Self)
        ensures
            display@ == Panel::new(rgb, inverted, width, height),
    {
        let display = ST7735 { rgb, inverted, dx: 0, dy: 0, width, height };
        display
    }

    /// The actions that initialize the display.
    pub fn init(&self) -> (plan: Vec<Action>)
        ensures
            plan.deep_view() == self@.init(),
    {
        let mut plan = self.hard_reset();
        append(&mut plan, write_command(Instruction::SWRESET, None));
        append(&mut plan, delay_ms(SETTLE_MS));
        append(&mut plan, write_command(Instruction::SLPOUT, None));
        append(&mut plan, delay_ms(SETTLE_MS));
        append(&mut plan, write_command(Instruction::FRMCTR1, Some(&FRAME_RATE)));
        append(&mut plan, write_command(Instruction::FRMCTR2, Some(&FRAME_RATE)));
        append(&mut plan, write_command(Instruction::FRMCTR3, Some(&FRAME_RATE_PARTIAL)));
        append(&mut plan, write_command(Instruction::INVCTR, Some(&INVERSION_CONTROL)));
        append(&mut plan, write_command(Instruction::PWCTR1, Some(&POWER_1)));
        append(&mut plan, write_command(Instruction::PWCTR2, Some(&POWER_2)));
        append(&mut plan, write_command(Instruction::PWCTR3, Some(&POWER_3)));
        append(&mut plan, write_command(Instruction::PWCTR4, Some(&POWER_4)));
        append(&mut plan, write_command(Instruction::PWCTR5, Some(&POWER_5)));
        append(&mut plan, write_command(Instruction::VMCTR1, Some(&VCOM)));
        if self.inverted {
            append(&mut plan, write_command(Instruction::INVON, None));
        } else {
            append(&mut plan, write_command(Instruction::INVOFF, None));
        }
        if self.rgb {
            append(&mut plan, write_command(Instruction::MADCTL, Some(&MEMORY_ACCESS_RGB)));
        } else {
            append(&mut plan, write_command(Instruction::MADCTL, Some(&MEMORY_ACCESS_BGR)));
        }
        append(&mut plan, write_command(Instruction::COLMOD, Some(&COLOR_MODE)));
        append(&mut plan, write_command(Instruction::DISPON, None));
        append(&mut plan, delay_ms(SETTLE_MS));
        plan
    }

    /// The actions of a hardware reset.
    pub fn hard_reset(&self) -> (plan: Vec<Action>)
        ensures
            plan.deep_view() == self::hard_reset(),
    {
        let mut plan: Vec<Action> = Vec::new();
        plan.push(Action::ResetHigh);
        plan.push(Action::ResetLow);
        plan.push(Action::ResetHigh);
        plan
    }

    /// The actions that select `orientation`, keeping the panel's colour
    /// order.
    pub fn set_orientation(&self, orientation: &Orientation) -> (plan: Vec<Action>)
        ensures
            plan.deep_view() == self@.set_orientation(*orientation),
    {
        if self.rgb {
            let params: [u8; 1] = [orientation.to_u8()];
            assert(params@ =~= seq![self@.madctl(*orientation)]);
            write_command(Instruction::MADCTL, Some(&params))
        } else {
            let params: [u8; 1] = [orientation.to_u8() | MADCTL_BGR];
            assert(params@ =~= seq![self@.madctl(*orientation)]);
            write_command(Instruction::MADCTL, Some(&params))
        }
    }

    /// Sets the global offset of the displayed image. The offset replaces
    /// the one set before.
    pub fn set_offset(&mut self, dx: u16, dy: u16)
        ensures
            final(self)@ == old(self)@.set_offset(dx, dy),
    {
        self.dx = dx;
        self.dy = dy;
    }

    /// The actions that set the address window of the display. The corners
    /// are passed on as they are: nothing checks that the end is not before
    /// the start.
    fn set_address_window(&self, sx: u16, sy: u16, ex: u16, ey: u16) -> (plan: Vec<Action>)
        requires
            self@.addressable(sx, sy),
            self@.addressable(ex, ey),
        ensures
            plan.deep_view() == self@.set_address_window(sx, sy, ex, ey),
    {
        let mut plan = write_command(Instruction::CASET, None);
        append(&mut plan, write_word(sx + self.dx));
        append(&mut plan, write_word(ex + self.dx));
        append(&mut plan, write_command(Instruction::RASET, None));
        append(&mut plan, write_word(sy + self.dy));
        append(&mut plan, write_word(ey + self.dy));
        plan
    }

    /// The actions that set a pixel color at the given coords.
    pub fn set_pixel(&self, x: u16, y: u16, color: u16) -> (plan: Vec<Action>)
        requires
            self@.addressable(x, y),
        ensures
            plan.deep_view() == self@.set_pixel(x, y, color),
    {
        let mut plan = self.set_address_window(x, y, x, y);
        append(&mut plan, write_command(Instruction::RAMWR, None));
        append(&mut plan, write_word(color));
        plan
    }

    /// The actions that write pixel colors sequentially into the current
    /// drawing window.
    pub fn write_pixels(&self, colors: &[u16]) -> (plan: Vec<Action>)
        ensures
            plan.deep_view() == self::write_pixels(colors@),
    {
        let mut plan = write_command(Instruction::RAMWR, None);
        let ghost start = plan.deep_view();
        proof {
            lemma_words_empty();
            assert(start + words(colors@.take(0)) =~= start);
        }
        let mut sent: usize = 0;
        while sent < colors.len()
            invariant
                sent <= colors.len(),
                start == command(Instruction::RAMWR),
                plan.deep_view() == start + words(colors@.take(sent as int)),
            decreases colors.len() - sent,
        {
            let ghost before = colors@.take(sent as int);
            append(&mut plan, write_word(colors[sent]));
            proof {
                lemma_words_push(before, colors@[sent as int]);
                assert(colors@.take(sent + 1) =~= before.push(colors@[sent as int]));
                assert(plan.deep_view() =~= start + words(colors@.take(sent + 1)));
            }
            sent += 1;
        }
        assert(colors@.take(sent as int) =~= colors@);
        plan
    }

    /// The actions that set pixel colors at the given drawing window.
    pub fn set_pixels(&self, sx: u16, sy: u16, ex: u16, ey: u16, colors: &[u16]) -> (plan: Vec<
        Action,
    >)
        requires
            self@.addressable(sx, sy),
            self@.addressable(ex, ey),
        ensures
            plan.deep_view() == self@.set_pixels(sx, sy, ex, ey, colors@),
    {
        let mut plan = self.set_address_window(sx, sy, ex, ey);
        append(&mut plan, self.write_pixels(colors));
        plan
    }

    /// The actions that fill the given drawing window with one color.
    pub fn set_color(&self, sx: u16, sy: u16, ex: u16, ey: u16, color: u16) -> (plan: Vec<Action>)
        requires
            sx <= ex,
            sy <= ey,
            self@.addressable(ex, ey),
        ensures
            plan.deep_view() == self@.set_color(sx, sy, ex, ey, color),
    {
        let columns: u64 = (ex - sx) as u64 + 1;
        let rows: u64 = (ey - sy) as u64 + 1;
        assert(columns * rows <= 0x1_0000_0000) by (nonlinear_arith)
            requires
                columns <= 0x1_0000,
                rows <= 0x1_0000,
        ;
        let colors = repeat(color, columns * rows);
        self.set_pixels(sx, sy, ex, ey, colors.as_slice())
    }

    /// The actions that fill the whole panel with one color.
    pub fn clear(&self, color: u16) -> (plan: Vec<Action>)
        requires
            self@.clearable(),
        ensures
            plan.deep_view() == self@.clear(color),
    {
        self.set_color(0, 0, (self.width - 1) as u16, (self.height - 1) as u16, color)
    }

    /// The panel's width and height in pixels.
    pub fn size(&self) -> (size: (u32, u32))
        ensures
            size == (self@.width, self@.height),
    {
        (self.width, self.height)
    }

    /// The global offset of the displayed image.
    pub fn offset(&self) -> (offset: (u16, u16))
        ensures
            offset == (self@.dx, self@.dy),
    {
        (self.dx, self.dy)
    }

    /// Whether the column `x` and the row `y`, moved by the offset, are
    /// still 16-bit addresses.
    pub fn addressable(&self, x: u16, y: u16) -> (fits: bool)
        ensures
            fits == self@.addressable(x, y),
    {
        x <= u16::MAX - self.dx && y <= u16::MAX - self.dy
    }
}

/// `count` copies of `color`.
fn repeat(color: u16, count: u64) -> (colors: Vec<u16>)
    ensures
        colors@ == Seq::new(count as nat, |i: int| color),
{
    let mut colors: Vec<u16> = Vec::new();
    let mut made: u64 = 0;
    while made < count
        invariant
            made <= count,
            colors@ == Seq::new(made as nat, |i: int| color),
        decreases count - made,
    {
        colors.push(color);
        made += 1;
    }
    colors
}

} // verus!
