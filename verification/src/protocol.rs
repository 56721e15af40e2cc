//! The wire protocol: how commands, parameters and pixel words are framed
//! as actions on the bus and on the data/command line.

use crate::action::{Action, ActionView};
use crate::instruction::Instruction;
use vstd::prelude::*;

verus! {

/// The two bytes of a 16-bit word, most significant first.
pub open spec fn be_bytes(value: u16) -> Seq<u8> {
    seq![(value / 256) as u8, (value % 256) as u8]
}

/// A command byte: the data/command line goes low, then the opcode is written.
pub open spec fn command(instruction: Instruction) -> Seq<ActionView> {
    seq![ActionView::DcLow, ActionView::Write(seq![instruction.code()])]
}

/// A block of data bytes: the data/command line goes high, then the bytes
/// are written in one transfer.
pub open spec fn data(bytes: Seq<u8>) -> Seq<ActionView> {
    seq![ActionView::DcHigh, ActionView::Write(bytes)]
}

/// A command followed by its parameter bytes.
pub open spec fn command_with(instruction: Instruction, params: Seq<u8>) -> Seq<ActionView> {
    command(instruction) + data(params)
}

/// One 16-bit data word, sent big-endian.
pub open spec fn word(value: u16) -> Seq<ActionView> {
    data(be_bytes(value))
}

/// A run of 16-bit data words, each sent as a data block of its own.
pub open spec fn words(values: Seq<u16>) -> Seq<ActionView> {
    Seq::new(
        2 * values.len(),
        |i: int|
            if i % 2 == 0 {
                ActionView::DcHigh
            } else {
                ActionView::Write(be_bytes(values[i / 2]))
            },
    )
}

/// A pause of `ms` milliseconds.
pub open spec fn delay(ms: u8) -> Seq<ActionView> {
    seq![ActionView::DelayMs(ms)]
}

/// Sending one more word extends the run of words by that word.
pub proof fn lemma_words_push(values: Seq<u16>, value: u16)
    ensures
        words(values.push(value)) == words(values) + word(value),
{
    let left = words(values.push(value));
    let right = words(values) + word(value);
    assert(left.len() == right.len());
    assert forall|i: int| 0 <= i < left.len() implies left[i] == right[i] by {
        if i < 2 * values.len() {
            assert(values.push(value)[i / 2] == values[i / 2]);
        } else {
            assert(values.push(value)[i / 2] == value);
        }
    }
    assert(left =~= right);
}

/// No words are no actions.
pub proof fn lemma_words_empty()
    ensures
        words(Seq::<u16>::empty()) == Seq::<ActionView>::empty(),
{
    assert(words(Seq::<u16>::empty()) =~= Seq::<ActionView>::empty());
}

/// Appends the actions of `tail` to `plan`.
pub(crate) fn append(plan: &mut Vec<Action>, tail: Vec<Action>)
    ensures
        final(plan).deep_view() == old(plan).deep_view() + tail.deep_view(),
{
    let mut rest = tail;
    let ghost added = rest.deep_view();
    plan.append(&mut rest);
    assert(plan.deep_view() =~= old(plan).deep_view() + added);
}

/// Selects the command register and writes the opcode of `command`; then,
/// if there are parameters, sends them as one data block.
pub(crate) fn write_command(command: Instruction, params: Option<&[u8]>) -> (plan: Vec<Action>)
    ensures
        plan.deep_view() == match params {
            Some(bytes) => command_with(command, bytes@),
            None => self::command(command),
        },
{
    let mut plan: Vec<Action> = Vec::new();
    plan.push(Action::DcLow);
    let mut opcode: Vec<u8> = Vec::new();
    opcode.push(command.to_u8());
    plan.push(Action::Write(opcode));
    if params.is_some() {
        append(&mut plan, write_data(params.unwrap()));
    }
    plan
}

/// Selects the data register and writes `bytes` in one transfer.
pub(crate) fn write_data(bytes: &[u8]) -> (plan: Vec<Action>)
    ensures
        plan.deep_view() == data(bytes@),
{
    let mut plan: Vec<Action> = Vec::new();
    plan.push(Action::DcHigh);
    plan.push(Action::Write(vstd::slice::slice_to_vec(bytes)));
    plan
}

/// Sends one 16-bit data word, most significant byte first.
pub(crate) fn write_word(value: u16) -> (plan: Vec<Action>)
    ensures
        plan.deep_view() == word(value),
{
    let bytes: [u8; 2] = [(value / 256) as u8, (value % 256) as u8];
    write_data(&bytes)
}

/// Pauses for `ms` milliseconds.
pub(crate) fn delay_ms(ms: u8) -> (plan: Vec<Action>)
    ensures
        plan.deep_view() == delay(ms),
{
    let mut plan: Vec<Action> = Vec::new();
    plan.push(Action::DelayMs(ms));
    plan
}

} // verus!
