//! Blink patterns of the status light.
//!
//! A command names a pattern. What the light does for it is a list of steps,
//! which whoever holds the pin carries out one after the other.

use crate::time::Span;
use vstd::prelude::*;

verus! {

/// A blink pattern.
#[derive(Copy, Clone, Debug, PartialEq, Eq, Structural)]
pub enum LedCommand {
    /// On for the given time.
    Blink(Span),
    /// On, off and on again, for the three given times.
    DoubleBlink(Span, Span, Span),
}

/// A blink pattern with its times in nanoseconds.
pub enum LedView {
    Blink(nat),
    DoubleBlink(nat, nat, nat),
}

impl View for LedCommand {
    type V = LedView;

    open spec fn view(&self) -> LedView {
        match *self {
            LedCommand::Blink(len) => LedView::Blink(len.nanos()),
            LedCommand::DoubleBlink(on1, off, on2) => LedView::DoubleBlink(
                on1.nanos(),
                off.nanos(),
                on2.nanos(),
            ),
        }
    }
}

/// One thing done to the light, or one wait.
#[derive(Copy, Clone, Debug, PartialEq, Eq, Structural)]
pub enum LedStep {
    On,
    Off,
    Hold(Span),
}

/// The steps of a pattern: the light ends switched off.
pub open spec fn pattern(cmd: LedCommand) -> Seq<LedStep> {
    match cmd {
        LedCommand::Blink(len) => seq![LedStep::On, LedStep::Hold(len), LedStep::Off],
        LedCommand::DoubleBlink(on1, off, on2) => seq![
            LedStep::On,
            LedStep::Hold(on1),
            LedStep::Off,
            LedStep::Hold(off),
            LedStep::On,
            LedStep::Hold(on2),
            LedStep::Off,
        ],
    }
}

impl LedCommand {
    /// The steps that carry the pattern out, in order.
    pub fn steps(&self) -> (steps: Vec<LedStep>)
        ensures
            steps@ == pattern(*self),
    {
        let mut steps: Vec<LedStep> = Vec::new();
        match *self {
            LedCommand::Blink(len) => {
                steps.push(LedStep::On);
                steps.push(LedStep::Hold(len));
                steps.push(LedStep::Off);
            },
            LedCommand::DoubleBlink(on1, off, on2) => {
                steps.push(LedStep::On);
                steps.push(LedStep::Hold(on1));
                steps.push(LedStep::Off);
                steps.push(LedStep::Hold(off));
                steps.push(LedStep::On);
                steps.push(LedStep::Hold(on2));
                steps.push(LedStep::Off);
            },
        }
        assert(steps@ =~= pattern(*self));
        steps
    }
}

} // verus!
