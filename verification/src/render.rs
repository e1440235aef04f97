use crate::classify::Category;
use crate::palette::Color;
use crate::tailer::{InstructionView, RenderInstruction, SourceView};
use vstd::prelude::*;

verus! {

/// A foreground colour of the terminal.
#[derive(Clone, Copy, Debug, PartialEq, Eq, Structural)]
pub enum Tint {
    Red,
    Yellow,
    Rgb(Color),
}

/// Whether one pod is followed or many.
#[derive(Clone, Copy, Debug, PartialEq, Eq, Structural)]
pub enum RenderMode {
    /// One tailer for each selected pod.
    FanOut,
    /// One pod, named by the operator.
    SinglePod,
}

/// One step of writing to the terminal.
#[derive(Debug)]
pub enum TerminalOp {
    /// Set the foreground colour.
    Foreground(Tint),
    /// Switch to bold.
    Bold,
    /// Write text.
    Print(String),
    /// Drop every colour and attribute.
    Reset,
    /// End the line.
    NewLine,
}

/// A step as the contracts speak of it.
pub enum OpView {
    Foreground(Tint),
    Bold,
    Print(Seq<char>),
    Reset,
    NewLine,
}

impl View for TerminalOp {
    type V = OpView;

    open spec fn view(&self) -> OpView {
        match self {
            TerminalOp::Foreground(t) => OpView::Foreground(*t),
            TerminalOp::Bold => OpView::Bold,
            TerminalOp::Print(s) => OpView::Print(s@),
            TerminalOp::Reset => OpView::Reset,
            TerminalOp::NewLine => OpView::NewLine,
        }
    }
}

/// The views of a sequence of steps, in order.
pub open spec fn op_views(ops: Seq<TerminalOp>) -> Seq<OpView> {
    ops.map_values(|op: TerminalOp| op@)
}

/// The source label: the pod's name and a blank, in the source's colour.
pub open spec fn label(source: SourceView) -> Seq<OpView> {
    seq![
        OpView::Foreground(Tint::Rgb(source.color)),
        OpView::Print(source.pod_name),
        OpView::Print(seq![' ']),
    ]
}

/// The style that a category asks for: bold red for an error, bold yellow
/// for a highlighted line; a plain line has the source's colour where many
/// pods are followed and no colour where one is.
pub open spec fn style(category: Category, color: Color, mode: RenderMode) -> Seq<OpView> {
    match category {
        Category::Error => seq![OpView::Foreground(Tint::Red), OpView::Bold],
        Category::Highlighted => seq![OpView::Foreground(Tint::Yellow), OpView::Bold],
        Category::Plain => match mode {
            RenderMode::FanOut => seq![OpView::Foreground(Tint::Rgb(color))],
            RenderMode::SinglePod => seq![OpView::Reset],
        },
    }
}

/// The unit that one instruction writes: the label, the style, the text, a
/// reset and the end of the line.
pub open spec fn rendered(instruction: InstructionView, mode: RenderMode) -> Seq<OpView> {
    label(instruction.source) + style(instruction.category, instruction.source.color, mode)
        + seq![OpView::Print(instruction.text), OpView::Reset, OpView::NewLine]
}

/// Turns an instruction into the steps that write it. The steps of one
/// instruction are meant to reach the terminal as one unit.
pub fn render(instruction: &RenderInstruction, mode: RenderMode) -> (ops: Vec<TerminalOp>)
    ensures
        op_views(ops@) == rendered(instruction@, mode),
{
    let mut ops: Vec<TerminalOp> = Vec::new();
    let blank = String::from_str(" ");
    proof {
        reveal_strlit(" ");
        assert(blank@ =~= seq![' ']);
    }
    ops.push(TerminalOp::Foreground(Tint::Rgb(instruction.source.color)));
    ops.push(TerminalOp::Print(instruction.source.pod_name.clone()));
    ops.push(TerminalOp::Print(blank));
    match instruction.category {
        Category::Error => {
            ops.push(TerminalOp::Foreground(Tint::Red));
            ops.push(TerminalOp::Bold);
        },
        Category::Highlighted => {
            ops.push(TerminalOp::Foreground(Tint::Yellow));
            ops.push(TerminalOp::Bold);
        },
        Category::Plain => {
            match mode {
                RenderMode::FanOut => {
                    ops.push(TerminalOp::Foreground(Tint::Rgb(instruction.source.color)));
                },
                RenderMode::SinglePod => {
                    ops.push(TerminalOp::Reset);
                },
            }
        },
    }
    ops.push(TerminalOp::Print(instruction.text.clone()));
    ops.push(TerminalOp::Reset);
    ops.push(TerminalOp::NewLine);
    assert(op_views(ops@) =~= rendered(instruction@, mode));
    ops
}

/// Every unit ends with a reset and the end of the line, so that no style
/// reaches the next line, and holds the text just before them.
pub proof fn lemma_unit_ends_with_reset(instruction: InstructionView, mode: RenderMode)
    ensures
        rendered(instruction, mode).len() >= 6,
        rendered(instruction, mode)[rendered(instruction, mode).len() - 3] == OpView::Print(
            instruction.text,
        ),
        rendered(instruction, mode)[rendered(instruction, mode).len() - 2] == OpView::Reset,
        rendered(instruction, mode).last() == OpView::NewLine,
{
}

} // verus!
