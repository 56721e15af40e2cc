//! What holds of every session and of every plan.

use crate::action::ActionView;
use crate::execution::Progress;
use crate::instruction::Instruction;
use crate::orientation::{Orientation, MADCTL_BGR};
use crate::protocol::{be_bytes, command, command_with, delay, word, words};
use crate::session::{hard_reset, pixel_count, write_pixels, Panel};
use crate::tuning::{
    COLOR_MODE, FRAME_RATE, FRAME_RATE_PARTIAL, INVERSION_CONTROL, MEMORY_ACCESS_BGR,
    MEMORY_ACCESS_RGB, POWER_1, POWER_2, POWER_3, POWER_4, POWER_5, SETTLE_MS, VCOM,
};
use vstd::prelude::*;

verus! {

/// A 16-bit word is sent as two bytes, the more significant one first.
pub proof fn lemma_be_bytes(value: u16)
    ensures
        be_bytes(value).len() == 2,
        256 * be_bytes(value)[0] + be_bytes(value)[1] == value,
{
}

/// Setting a pixel sends one column address set with the pixel's column,
/// moved by the offset, as both start and end; one row address set with its
/// row, moved by the offset, as both start and end; one memory write; and
/// the colour as one big-endian word.
pub proof fn lemma_set_pixel(panel: Panel, x: u16, y: u16, color: u16)
    requires
        panel.addressable(x, y),
    ensures
        panel.set_pixel(x, y, color) == seq![
            ActionView::DcLow,
            ActionView::Write(seq![0x2Au8]),
            ActionView::DcHigh,
            ActionView::Write(be_bytes((x + panel.dx) as u16)),
            ActionView::DcHigh,
            ActionView::Write(be_bytes((x + panel.dx) as u16)),
            ActionView::DcLow,
            ActionView::Write(seq![0x2Bu8]),
            ActionView::DcHigh,
            ActionView::Write(be_bytes((y + panel.dy) as u16)),
            ActionView::DcHigh,
            ActionView::Write(be_bytes((y + panel.dy) as u16)),
            ActionView::DcLow,
            ActionView::Write(seq![0x2Cu8]),
            ActionView::DcHigh,
            ActionView::Write(be_bytes(color)),
        ],
{
}

/// Filling a window sends the window, one memory write, and then the colour
/// as a big-endian word once for every pixel of the window: as many times
/// as the window has columns, times the number of its rows.
pub proof fn lemma_set_color(panel: Panel, sx: u16, sy: u16, ex: u16, ey: u16, color: u16)
    requires
        sx <= ex,
        sy <= ey,
        panel.addressable(ex, ey),
    ensures
        pixel_count(sx, sy, ex, ey) == (ex - sx + 1) * (ey - sy + 1),
        panel.set_color(sx, sy, ex, ey, color).len() == 14 + 2 * pixel_count(sx, sy, ex, ey),
        panel.set_color(sx, sy, ex, ey, color).take(12) == panel.set_address_window(
            sx,
            sy,
            ex,
            ey,
        ),
        panel.set_color(sx, sy, ex, ey, color).subrange(12, 14) == command(Instruction::RAMWR),
        forall|i: int|
            0 <= i < pixel_count(sx, sy, ex, ey) ==> #[trigger] panel.set_color(
                sx,
                sy,
                ex,
                ey,
                color,
            ).subrange(14 + 2 * i, 16 + 2 * i) == word(color),
{
    let plan = panel.set_color(sx, sy, ex, ey, color);
    let window = panel.set_address_window(sx, sy, ex, ey);
    let count = pixel_count(sx, sy, ex, ey);
    assert((ex - sx + 1) * (ey - sy + 1) >= 0) by (nonlinear_arith)
        requires
            ex - sx + 1 >= 0,
            ey - sy + 1 >= 0,
    ;
    assert(window.len() == 12);
    assert(plan.len() == 14 + 2 * count);
    assert(plan.take(12) =~= window);
    assert(plan.subrange(12, 14) =~= command(Instruction::RAMWR));
    assert forall|i: int| 0 <= i < count implies #[trigger] plan.subrange(14 + 2 * i, 16 + 2 * i)
        == word(color) by {
        assert(plan.subrange(14 + 2 * i, 16 + 2 * i) =~= word(color));
    }
}

/// After the offset is set, a pixel is addressed at its coordinates moved
/// by that offset, whatever the offset was before: a new offset replaces
/// the old one and is not added to it.
pub proof fn lemma_set_offset(
    panel: Panel,
    dx: u16,
    dy: u16,
    x: u16,
    y: u16,
    color: u16,
)
    requires
        x + dx <= u16::MAX,
        y + dy <= u16::MAX,
    ensures
        panel.set_offset(dx, dy).addressable(x, y),
        panel.set_offset(dx, dy).set_pixel(x, y, color) == panel.set_offset(0, 0).set_pixel(
            (x + dx) as u16,
            (y + dy) as u16,
            color,
        ),
        forall|a: u16, b: u16| #[trigger]
            panel.set_offset(a, b).set_offset(dx, dy) == panel.set_offset(dx, dy),
{
}

/// On a panel with BGR colour order, the byte that selects an orientation
/// has the BGR bit set beside the orientation's own bits. On a panel with
/// RGB colour order it is the orientation's bits alone, and the BGR bit is
/// not among them.
pub proof fn lemma_set_orientation(panel: Panel, orientation: Orientation)
    ensures
        panel.set_orientation(orientation) == seq![
            ActionView::DcLow,
            ActionView::Write(seq![0x36u8]),
            ActionView::DcHigh,
            ActionView::Write(seq![panel.madctl(orientation)]),
        ],
        orientation.bits() & MADCTL_BGR == 0,
        panel.madctl(orientation) & !MADCTL_BGR == orientation.bits(),
        panel.rgb ==> panel.madctl(orientation) == orientation.bits(),
        !panel.rgb ==> panel.madctl(orientation) & MADCTL_BGR == MADCTL_BGR,
{
    let bits = orientation.bits();
    assert(bits == 0x00 || bits == 0x60 || bits == 0xC0 || bits == 0xA0);
    assert(bits & 0x08 == 0 && bits & !0x08u8 == bits && (bits | 0x08) & 0x08 == 0x08 && (bits
        | 0x08) & !0x08u8 == bits) by (bit_vector)
        requires
            bits == 0x00 || bits == 0x60 || bits == 0xC0 || bits == 0xA0,
    ;
}

/// Streaming `colors` sends one memory write and then each colour as one
/// data word, in order. The data/command line selects the command register
/// for the memory write alone, so no other command comes between the
/// colours.
pub proof fn lemma_write_pixels(colors: Seq<u16>)
    ensures
        write_pixels(colors).len() == 2 + 2 * colors.len(),
        write_pixels(colors).take(2) == command(Instruction::RAMWR),
        forall|i: int|
            0 <= i < colors.len() ==> #[trigger] write_pixels(colors).subrange(
                2 + 2 * i,
                4 + 2 * i,
            ) == word(colors[i]),
        forall|j: int|
            0 <= j < write_pixels(colors).len() && #[trigger] write_pixels(colors)[j]
                == ActionView::DcLow ==> j == 0,
{
    let plan = write_pixels(colors);
    assert(plan.take(2) =~= command(Instruction::RAMWR));
    assert forall|i: int| 0 <= i < colors.len() implies #[trigger] plan.subrange(
        2 + 2 * i,
        4 + 2 * i,
    ) == word(colors[i]) by {
        assert(plan.subrange(2 + 2 * i, 4 + 2 * i) =~= word(colors[i]));
    }
}

/// The initialization sequence, written out. It is the same for every
/// panel but in two places: the inversion command is inversion-on for an
/// inverted panel and inversion-off otherwise, and the parameter of the
/// memory access control command is `0x00` for RGB colour order and `0x08`
/// for BGR.
pub open spec fn init_sequence(rgb: bool, inverted: bool) -> Seq<ActionView> {
    seq![
        ActionView::ResetHigh,
        ActionView::ResetLow,
        ActionView::ResetHigh,
        ActionView::DcLow,
        ActionView::Write(seq![0x01u8]),
        ActionView::DelayMs(200),
        ActionView::DcLow,
        ActionView::Write(seq![0x11u8]),
        ActionView::DelayMs(200),
        ActionView::DcLow,
        ActionView::Write(seq![0xB1u8]),
        ActionView::DcHigh,
        ActionView::Write(seq![0x01u8, 0x2C, 0x2D]),
        ActionView::DcLow,
        ActionView::Write(seq![0xB2u8]),
        ActionView::DcHigh,
        ActionView::Write(seq![0x01u8, 0x2C, 0x2D]),
        ActionView::DcLow,
        ActionView::Write(seq![0xB3u8]),
        ActionView::DcHigh,
        ActionView::Write(seq![0x01u8, 0x2C, 0x2D, 0x01, 0x2C, 0x2D]),
        ActionView::DcLow,
        ActionView::Write(seq![0xB4u8]),
        ActionView::DcHigh,
        ActionView::Write(seq![0x07u8]),
        ActionView::DcLow,
        ActionView::Write(seq![0xC0u8]),
        ActionView::DcHigh,
        ActionView::Write(seq![0xA2u8, 0x02, 0x84]),
        ActionView::DcLow,
        ActionView::Write(seq![0xC1u8]),
        ActionView::DcHigh,
        ActionView::Write(seq![0xC5u8]),
        ActionView::DcLow,
        ActionView::Write(seq![0xC2u8]),
        ActionView::DcHigh,
        ActionView::Write(seq![0x0Au8, 0x00]),
        ActionView::DcLow,
        ActionView::Write(seq![0xC3u8]),
        ActionView::DcHigh,
        ActionView::Write(seq![0x8Au8, 0x2A]),
        ActionView::DcLow,
        ActionView::Write(seq![0xC4u8]),
        ActionView::DcHigh,
        ActionView::Write(seq![0x8Au8, 0xEE]),
        ActionView::DcLow,
        ActionView::Write(seq![0xC5u8]),
        ActionView::DcHigh,
        ActionView::Write(seq![0x0Eu8]),
        ActionView::DcLow,
        ActionView::Write(seq![if inverted { 0x21u8 } else { 0x20u8 }]),
        ActionView::DcLow,
        ActionView::Write(seq![0x36u8]),
        ActionView::DcHigh,
        ActionView::Write(seq![if rgb { 0x00u8 } else { 0x08u8 }]),
        ActionView::DcLow,
        ActionView::Write(seq![0x3Au8]),
        ActionView::DcHigh,
        ActionView::Write(seq![0x05u8]),
        ActionView::DcLow,
        ActionView::Write(seq![0x29u8]),
        ActionView::DelayMs(200),
    ]
}

/// Initialization performs the steps of [`init_sequence`], in that order.
pub proof fn lemma_init(panel: Panel)
    ensures
        panel.init() == init_sequence(panel.rgb, panel.inverted),
{
    assert(FRAME_RATE@ =~= seq![0x01u8, 0x2C, 0x2D]);
    assert(FRAME_RATE_PARTIAL@ =~= seq![0x01u8, 0x2C, 0x2D, 0x01, 0x2C, 0x2D]);
    assert(INVERSION_CONTROL@ =~= seq![0x07u8]);
    assert(POWER_1@ =~= seq![0xA2u8, 0x02, 0x84]);
    assert(POWER_2@ =~= seq![0xC5u8]);
    assert(POWER_3@ =~= seq![0x0Au8, 0x00]);
    assert(POWER_4@ =~= seq![0x8Au8, 0x2A]);
    assert(POWER_5@ =~= seq![0x8Au8, 0xEE]);
    assert(VCOM@ =~= seq![0x0Eu8]);
    assert(MEMORY_ACCESS_RGB@ =~= seq![0x00u8]);
    assert(MEMORY_ACCESS_BGR@ =~= seq![0x08u8]);
    assert(COLOR_MODE@ =~= seq![0x05u8]);
    assert(panel.init() =~= init_sequence(panel.rgb, panel.inverted));
}

/// The place of the inversion command's opcode in the initialization
/// sequence.
pub const INVERSION_AT: usize = 50;

/// The place of the memory access control parameter in the initialization
/// sequence.
pub const MEMORY_ACCESS_AT: usize = 54;

/// Two panels are initialized by the same actions in the same order, except
/// that the inversion command follows `inverted` and the memory access
/// control parameter follows the colour order.
pub proof fn lemma_init_fixed_order(p: Panel, q: Panel)
    ensures
        p.init().len() == q.init().len(),
        forall|i: int|
            0 <= i < p.init().len() && i != INVERSION_AT && i != MEMORY_ACCESS_AT
                ==> #[trigger] p.init()[i] == q.init()[i],
        p.init()[INVERSION_AT as int] == ActionView::Write(
            seq![if p.inverted { Instruction::INVON.code() } else { Instruction::INVOFF.code() }],
        ),
        p.init()[MEMORY_ACCESS_AT as int] == ActionView::Write(
            seq![if p.rgb { 0x00u8 } else { MADCTL_BGR }],
        ),
{
    lemma_init(p);
    lemma_init(q);
    lemma_init_sequence_places(p.rgb, p.inverted, q.rgb, q.inverted);
}

/// Two written-out initialization sequences differ at most in the inversion
/// command and in the memory access control parameter.
proof fn lemma_init_sequence_places(rgb: bool, inverted: bool, other_rgb: bool, other_inverted: bool)
    ensures
        init_sequence(rgb, inverted).len() == 62,
        init_sequence(other_rgb, other_inverted).len() == 62,
        forall|i: int|
            0 <= i < 62 && i != 50 && i != 54 ==> #[trigger] init_sequence(rgb, inverted)[i]
                == init_sequence(other_rgb, other_inverted)[i],
        init_sequence(rgb, inverted)[50] == ActionView::Write(
            seq![if inverted { 0x21u8 } else { 0x20u8 }],
        ),
        init_sequence(rgb, inverted)[54] == ActionView::Write(
            seq![if rgb { 0x00u8 } else { 0x08u8 }],
        ),
{
}

/// Where a run stands after a series of reports.
///
/// A run fails if and only if one of the actions it handed out failed. The
/// actions that succeeded before the failure are the plan up to the first
/// failing report, the failed action is the next one of the plan, and no
/// report after it changes anything. Without a failure, each report moves
/// the run one action on, until the plan is done.
pub proof fn lemma_run(plan: Seq<ActionView>, outcomes: Seq<bool>)
    ensures
        ({
            let end = Progress::start(plan).run(outcomes);
            &&& end.plan == plan
            &&& end.wf()
            &&& end.failed <==> exists|i: int|
                0 <= i < outcomes.len() && i < plan.len() && !#[trigger] outcomes[i]
            &&& end.failed ==> {
                &&& end.done < outcomes.len()
                &&& !outcomes[end.done as int]
                &&& forall|j: int| 0 <= j < end.done ==> #[trigger] outcomes[j]
            }
            &&& !end.failed ==> end.done == if outcomes.len() <= plan.len() {
                outcomes.len()
            } else {
                plan.len()
            }
        }),
    decreases outcomes.len(),
{
    if outcomes.len() > 0 {
        let earlier = outcomes.drop_last();
        lemma_run(plan, earlier);
        let before = Progress::start(plan).run(earlier);
        let end = before.report(outcomes.last());
        assert(end == Progress::start(plan).run(outcomes));
        assert forall|i: int| 0 <= i < earlier.len() implies earlier[i] == outcomes[i] by {}
        if before.failed {
            assert(!outcomes[before.done as int]);
        } else if end.failed {
            assert(!outcomes[outcomes.len() - 1]);
        } else {
            assert forall|i: int|
                0 <= i < outcomes.len() && i < plan.len() implies #[trigger] outcomes[i] by {
                if i < earlier.len() {
                    assert(earlier[i] == outcomes[i]);
                }
            }
        }
    }
}

/// How a run ends.
///
/// A run ends in failure if and only if one of the actions it handed out
/// failed; what it handed out is then the plan up to and including the
/// first action that failed. It ends in success if and only if every action
/// of the plan was reported and none failed; it has then handed out the
/// whole plan. Until it ends, the pending action is the one after those
/// reported.
pub proof fn lemma_run_result(plan: Seq<ActionView>, outcomes: Seq<bool>)
    ensures
        ({
            let end = Progress::start(plan).run(outcomes);
            &&& end.result() == Some(Err::<(), ()>(())) <==> exists|i: int|
                0 <= i < outcomes.len() && i < plan.len() && !#[trigger] outcomes[i]
            &&& end.result() == Some(Err::<(), ()>(())) ==> exists|first: int|
                {
                    &&& 0 <= first < outcomes.len()
                    &&& first < plan.len()
                    &&& !#[trigger] outcomes[first]
                    &&& forall|j: int| 0 <= j < first ==> #[trigger] outcomes[j]
                    &&& end.attempted() == plan.take(first + 1)
                }
            &&& end.result() == Some(Ok::<(), ()>(())) <==> {
                &&& plan.len() <= outcomes.len()
                &&& forall|i: int| 0 <= i < plan.len() ==> #[trigger] outcomes[i]
            }
            &&& end.result() == Some(Ok::<(), ()>(())) ==> end.attempted() == plan
            &&& end.result() is None <==> end.pending() is Some
            &&& end.pending() is Some ==> end.pending() == Some(plan[outcomes.len() as int])
        }),
{
    lemma_run(plan, outcomes);
    let end = Progress::start(plan).run(outcomes);
    if end.result() == Some(Ok::<(), ()>(())) {
        assert(end.attempted() =~= plan);
    }
    if end.failed {
        let first = end.done as int;
        assert(!outcomes[first]);
        assert(end.attempted() == plan.take(first + 1));
    }
}

/// A plan keeps commands and data apart.
///
/// Every write comes right after the data/command line was driven, so the
/// register it goes to is chosen by the plan itself. A write to the command
/// register carries one byte, the opcode. A block of data is sent only
/// after a command of the same plan.
pub open spec fn framed(plan: Seq<ActionView>) -> bool {
    forall|i: int|
        0 <= i < plan.len() ==> match #[trigger] plan[i] {
            ActionView::Write(bytes) => {
                &&& i > 0
                &&& plan[i - 1] == ActionView::DcHigh || (plan[i - 1] == ActionView::DcLow
                    && bytes.len() == 1)
            },
            ActionView::DcHigh => exists|j: int| 0 <= j < i && plan[j] == ActionView::DcLow,
            _ => true,
        }
}

/// Two framed plans, one after the other, are a framed plan.
pub proof fn lemma_framed_concat(first: Seq<ActionView>, second: Seq<ActionView>)
    requires
        framed(first),
        framed(second),
    ensures
        framed(first + second),
{
    let plan = first + second;
    assert forall|i: int| 0 <= i < plan.len() implies match #[trigger] plan[i] {
        ActionView::Write(bytes) => {
            &&& i > 0
            &&& plan[i - 1] == ActionView::DcHigh || (plan[i - 1] == ActionView::DcLow
                && bytes.len() == 1)
        },
        ActionView::DcHigh => exists|j: int| 0 <= j < i && plan[j] == ActionView::DcLow,
        _ => true,
    } by {
        if i < first.len() {
            assert(plan[i] == first[i]);
            if first[i] == ActionView::DcHigh {
                let j = choose|j: int| 0 <= j < i && first[j] == ActionView::DcLow;
                assert(plan[j] == ActionView::DcLow);
            }
        } else {
            let k = i - first.len();
            assert(plan[i] == second[k]);
            if second[k] == ActionView::DcHigh {
                let j = choose|j: int| 0 <= j < k && second[j] == ActionView::DcLow;
                assert(plan[j + first.len()] == ActionView::DcLow);
            }
        }
    }
}

/// Every plan of a session is framed.
pub proof fn lemma_plans_are_framed(
    panel: Panel,
    orientation: Orientation,
    sx: u16,
    sy: u16,
    ex: u16,
    ey: u16,
    color: u16,
    colors: Seq<u16>,
)
    ensures
        framed(hard_reset()),
        framed(panel.init()),
        framed(panel.set_orientation(orientation)),
        framed(panel.set_pixel(sx, sy, color)),
        framed(write_pixels(colors)),
        framed(panel.set_pixels(sx, sy, ex, ey, colors)),
        framed(panel.set_color(sx, sy, ex, ey, color)),
        framed(panel.clear(color)),
{
    lemma_init_is_framed(panel);
    let rotate = panel.set_orientation(orientation);
    assert(rotate[0] == ActionView::DcLow);
    let pixel = panel.set_pixel(sx, sy, color);
    assert(pixel[0] == ActionView::DcLow);
    lemma_window_is_framed(panel, sx, sy, ex, ey);
    lemma_write_pixels_is_framed(colors);
    lemma_framed_concat(panel.set_address_window(sx, sy, ex, ey), write_pixels(colors));
    let fill = Seq::new(pixel_count(sx, sy, ex, ey), |i: int| color);
    lemma_write_pixels_is_framed(fill);
    lemma_framed_concat(panel.set_address_window(sx, sy, ex, ey), write_pixels(fill));
    let right = (panel.width - 1) as u16;
    let bottom = (panel.height - 1) as u16;
    let whole = Seq::new(pixel_count(0, 0, right, bottom), |i: int| color);
    lemma_window_is_framed(panel, 0, 0, right, bottom);
    lemma_write_pixels_is_framed(whole);
    lemma_framed_concat(panel.set_address_window(0, 0, right, bottom), write_pixels(whole));
}

proof fn lemma_window_is_framed(panel: Panel, sx: u16, sy: u16, ex: u16, ey: u16)
    ensures
        framed(panel.set_address_window(sx, sy, ex, ey)),
{
    let window = panel.set_address_window(sx, sy, ex, ey);
    assert(window[0] == ActionView::DcLow);
}

proof fn lemma_write_pixels_is_framed(colors: Seq<u16>)
    ensures
        framed(write_pixels(colors)),
{
    let plan = write_pixels(colors);
    assert(plan[0] == ActionView::DcLow);
    assert forall|i: int| 0 <= i < plan.len() implies match #[trigger] plan[i] {
        ActionView::Write(bytes) => {
            &&& i > 0
            &&& plan[i - 1] == ActionView::DcHigh || (plan[i - 1] == ActionView::DcLow
                && bytes.len() == 1)
        },
        ActionView::DcHigh => exists|j: int| 0 <= j < i && plan[j] == ActionView::DcLow,
        _ => true,
    } by {
        if i >= 2 {
            let k = i - 2;
            assert(plan[i] == words(colors)[k]);
            if k % 2 == 1 {
                assert(plan[i - 1] == words(colors)[k - 1]);
            }
        }
    }
}

proof fn lemma_init_is_framed(panel: Panel)
    ensures
        framed(panel.init()),
{
    lemma_pieces_are_framed();
    let mut plan = hard_reset();
    plan = then(plan, command(Instruction::SWRESET));
    plan = then(plan, delay(SETTLE_MS));
    plan = then(plan, command(Instruction::SLPOUT));
    plan = then(plan, delay(SETTLE_MS));
    plan = then(plan, command_with(Instruction::FRMCTR1, FRAME_RATE@));
    plan = then(plan, command_with(Instruction::FRMCTR2, FRAME_RATE@));
    plan = then(plan, command_with(Instruction::FRMCTR3, FRAME_RATE_PARTIAL@));
    plan = then(plan, command_with(Instruction::INVCTR, INVERSION_CONTROL@));
    plan = then(plan, command_with(Instruction::PWCTR1, POWER_1@));
    plan = then(plan, command_with(Instruction::PWCTR2, POWER_2@));
    plan = then(plan, command_with(Instruction::PWCTR3, POWER_3@));
    plan = then(plan, command_with(Instruction::PWCTR4, POWER_4@));
    plan = then(plan, command_with(Instruction::PWCTR5, POWER_5@));
    plan = then(plan, command_with(Instruction::VMCTR1, VCOM@));
    plan = then(plan, command(if panel.inverted { Instruction::INVON } else { Instruction::INVOFF }));
    plan = then(plan, command_with(
        Instruction::MADCTL,
        if panel.rgb { MEMORY_ACCESS_RGB@ } else { MEMORY_ACCESS_BGR@ },
    ));
    plan = then(plan, command_with(Instruction::COLMOD, COLOR_MODE@));
    plan = then(plan, command(Instruction::DISPON));
    plan = then(plan, delay(SETTLE_MS));
    assert(plan == panel.init());
}

/// The plan `first + second`, framed as both of its parts are.
proof fn then(first: Seq<ActionView>, second: Seq<ActionView>) -> (plan: Seq<ActionView>)
    requires
        framed(first),
        framed(second),
    ensures
        plan == first + second,
        framed(plan),
{
    lemma_framed_concat(first, second);
    first + second
}

/// A reset, a pause, a command and a command with parameters are each a
/// framed plan.
proof fn lemma_pieces_are_framed()
    ensures
        framed(hard_reset()),
        forall|ms: u8| framed(#[trigger] delay(ms)),
        forall|instruction: Instruction| framed(#[trigger] command(instruction)),
        forall|instruction: Instruction, params: Seq<u8>|
            framed(#[trigger] command_with(instruction, params)),
{
    assert forall|instruction: Instruction, params: Seq<u8>|
        framed(#[trigger] command_with(instruction, params)) by {
        assert(command_with(instruction, params)[0] == ActionView::DcLow);
    }
}

} // verus!
