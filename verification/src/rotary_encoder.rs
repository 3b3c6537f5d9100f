//! Decoding of a rotary dial with two phase-shifted contacts.
//!
//! Every edge on either pin gives one sample of both levels. Two samples in a
//! row make a transition. A dial that turns changes one level at a time, so a
//! transition in which both levels change, or none, is contact bounce and is
//! passed over. The last two transitions that count tell a click to the left
//! from a click to the right. There is no timer in any of this.

use vstd::prelude::*;

verus! {

/// The two last transitions of a click to the left: the direction pin rose
/// first, then the event pin.
pub const LEFT_DETENT: u8 = 0b0010_1011;

/// The two last transitions of a click to the right: the event pin rose first,
/// then the direction pin.
pub const RIGHT_DETENT: u8 = 0b0001_0111;

/// A click of the dial.
#[derive(Copy, Clone, Debug, PartialEq, Eq, Structural)]
pub enum RotaryEncoderEvent {
    TurnLeft,
    TurnRight,
}

/// The levels of the two pins as one number: the event pin counts 1, the
/// direction pin 2.
pub open spec fn level_code(event_pin: bool, direction_pin: bool) -> nat {
    (if event_pin {
        1nat
    } else {
        0nat
    }) + (if direction_pin {
        2nat
    } else {
        0nat
    })
}

/// The transition from the sample that `transition` ends with to the sample
/// `code`: the earlier sample counts four times.
pub open spec fn shifted_in(transition: nat, code: nat) -> nat {
    (transition % 4) * 4 + code
}

/// Whether a transition is one that a turning dial makes: exactly one of the
/// two levels has changed.
pub open spec fn is_legal(transition: nat) -> bool {
    let before = transition / 4;
    let after = transition % 4;
    (before % 2 != after % 2) != (before / 2 != after / 2)
}

/// The record of transitions after `transition` was added to `history`: the
/// last one and the one before it.
pub open spec fn appended(history: nat, transition: nat) -> nat {
    (history % 16) * 16 + transition
}

/// The click that a record of two transitions stands for, if it stands for one.
pub open spec fn detent(history: nat) -> Option<RotaryEncoderEvent> {
    if history == LEFT_DETENT {
        Some(RotaryEncoderEvent::TurnLeft)
    } else if history == RIGHT_DETENT {
        Some(RotaryEncoderEvent::TurnRight)
    } else {
        None
    }
}

/// What the decoder remembers: the last transition, legal or not, and the
/// last two legal ones.
pub struct DecoderView {
    pub transition: nat,
    pub history: nat,
}

/// The decoder after a sample of the two levels, and the click that the
/// sample completes.
pub open spec fn sampled(before: DecoderView, event_pin: bool, direction_pin: bool) -> (
    DecoderView,
    Option<RotaryEncoderEvent>,
) {
    let transition = shifted_in(before.transition, level_code(event_pin, direction_pin));
    if is_legal(transition) {
        let history = appended(before.history, transition);
        (DecoderView { transition, history }, detent(history))
    } else {
        (DecoderView { transition, history: before.history }, None)
    }
}

/// The decoder of a rotary dial.
#[derive(Copy, Clone, Debug, PartialEq, Eq, Structural)]
pub struct QuadratureDecoder {
    transition: u8,
    last_valid_transitions: u8,
}

impl View for QuadratureDecoder {
    type V = DecoderView;

    closed spec fn view(&self) -> DecoderView {
        DecoderView {
            transition: self.transition as nat,
            history: self.last_valid_transitions as nat,
        }
    }
}

/// Whether the transition `transition` counts.
fn valid_transition(transition: u8) -> (valid: bool)
    requires
        transition < 16,
    ensures
        valid == is_legal(transition as nat),
{
    transition == 1 || transition == 2 || transition == 4 || transition == 7 || transition == 8
        || transition == 11 || transition == 13 || transition == 14
}

impl QuadratureDecoder {
    #[verifier::type_invariant]
    pub closed spec fn wf(self) -> bool {
        self.transition < 16
    }

    /// A decoder that has seen both pins low and no transition yet.
    pub fn new() -> (decoder: QuadratureDecoder)
        ensures
            decoder@ == (DecoderView { transition: 0, history: 0 }),
    {
        QuadratureDecoder { transition: 0, last_valid_transitions: 0 }
    }

    /// Takes in one sample of the two levels and returns the click that it completes.
    pub fn update(&mut self, event_pin: bool, direction_pin: bool) -> (event: Option<
        RotaryEncoderEvent,
    >)
        ensures
            (final(self)@, event) == sampled(old(self)@, event_pin, direction_pin),
    {
        proof {
            use_type_invariant(&*self);
        }
        let old_transition: u8 = self.transition;
        let old_history: u8 = self.last_valid_transitions;
        let mut transition: u8 = old_transition << 2;
        if event_pin {
            transition = transition | 1;
        }
        if direction_pin {
            transition = transition | 2;
        }
        transition = transition & 0xf;
        proof {
            let t = old_transition;
            assert(t < 16 ==> ((t << 2) & 0xf) == (t % 4) * 4) by (bit_vector);
            assert(t < 16 ==> (((t << 2) | 1) & 0xf) == (t % 4) * 4 + 1) by (bit_vector);
            assert(t < 16 ==> (((t << 2) | 2) & 0xf) == (t % 4) * 4 + 2) by (bit_vector);
            assert(t < 16 ==> ((((t << 2) | 1) | 2) & 0xf) == (t % 4) * 4 + 3) by (bit_vector);
        }
        if valid_transition(transition) {
            let history: u8 = ((old_history << 4) | transition) & 0xff;
            proof {
                let h = old_history;
                let t = transition;
                assert(t < 16 ==> (((h << 4) | t) & 0xff) == (h % 16) * 16 + t) by (bit_vector);
            }
            *self = QuadratureDecoder { transition, last_valid_transitions: history };
            if history == LEFT_DETENT {
                Some(RotaryEncoderEvent::TurnLeft)
            } else if history == RIGHT_DETENT {
                Some(RotaryEncoderEvent::TurnRight)
            } else {
                None
            }
        } else {
            *self = QuadratureDecoder { transition, last_valid_transitions: old_history };
            None
        }
    }
}

/// Of the sixteen transitions eight are those of a turning dial.
pub proof fn lemma_legal_transitions(transition: nat)
    requires
        transition < 16,
    ensures
        is_legal(transition) <==> (transition == 1 || transition == 2 || transition == 4
            || transition == 7 || transition == 8 || transition == 11 || transition == 13
            || transition == 14),
{
}

/// A sample that makes no legal transition is absorbed: it gives no click and
/// leaves the record of legal transitions as it was.
pub proof fn lemma_bounce_is_absorbed(before: DecoderView, event_pin: bool, direction_pin: bool)
    requires
        !is_legal(shifted_in(before.transition, level_code(event_pin, direction_pin))),
    ensures
        sampled(before, event_pin, direction_pin).1 is None,
        sampled(before, event_pin, direction_pin).0.history == before.history,
{
}

/// A click is given exactly when the last two legal transitions are those of
/// a click, and then it is the click that they stand for.
pub proof fn lemma_click_needs_its_two_transitions(
    before: DecoderView,
    event_pin: bool,
    direction_pin: bool,
)
    ensures
        sampled(before, event_pin, direction_pin).1 == Some(RotaryEncoderEvent::TurnLeft) <==> (
        is_legal(shifted_in(before.transition, level_code(event_pin, direction_pin)))
            && sampled(before, event_pin, direction_pin).0.history == LEFT_DETENT),
        sampled(before, event_pin, direction_pin).1 == Some(RotaryEncoderEvent::TurnRight) <==> (
        is_legal(shifted_in(before.transition, level_code(event_pin, direction_pin)))
            && sampled(before, event_pin, direction_pin).0.history == RIGHT_DETENT),
{
}

} // verus!
