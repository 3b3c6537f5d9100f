//! Tokens and the detection of their presence.
//!
//! A reader is polled at a fixed period. Each cycle gives one reading: a card
//! answered, or none did. The detector turns the readings into events, one for
//! each change and none in between. When a card arrives its serial number is
//! read, which may take several tries; a card whose serial number cannot be
//! read has not arrived yet.

use crate::time::Span;
use vstd::prelude::*;

verus! {

/// How often the serial number of a card is asked for before the read is given up.
pub const MAX_READ_TRIES: u32 = 10;

/// The identity of a token.
#[derive(Copy, Clone, Debug, PartialEq, Eq, Hash, Structural)]
pub struct Uid(pub u64);

/// The number that stands for a serial number: byte after byte is added to it
/// and the sum moved up by one byte, in 64 bits.
pub open spec fn uid_value(serial: Seq<u8>) -> nat
    decreases serial.len(),
{
    if serial.len() == 0 {
        0
    } else {
        ((uid_value(serial.drop_last()) + serial.last()) * 256) as nat % 0x1_0000_0000_0000_0000
    }
}

impl Uid {
    /// The identity of the token with the serial number `serial`.
    pub fn from_bytes(serial: &[u8]) -> (uid: Uid)
        ensures
            uid.0 == uid_value(serial@),
    {
        let mut val: u64 = 0;
        let mut i: usize = 0;
        assert(serial@.take(0) =~= Seq::<u8>::empty());
        while i < serial.len()
            invariant
                i <= serial@.len(),
                val == uid_value(serial@.take(i as int)),
                val % 256 == 0,
            decreases serial@.len() - i,
        {
            let byte: u64 = serial[i] as u64;
            let sum: u64 = val + byte;
            assert(sum << 8 == (sum * 256) % 0x1_0000_0000_0000_0000 && (sum << 8) % 256 == 0)
                by (bit_vector);
            assert(serial@.take(i + 1).drop_last() =~= serial@.take(i as int));
            val = sum << 8;
            i = i + 1;
        }
        assert(serial@.take(i as int) =~= serial@);
        Uid(val)
    }
}

/// A change in what lies on the reader.
#[derive(Copy, Clone, Debug, PartialEq, Eq, Structural)]
pub enum RfidEvent {
    Removed,
    Added(Uid),
}

/// What a polling cycle leaves behind and gives out. `card` is the card that
/// lay on the reader before the cycle, `present` whether a card answered in
/// it, and `identity` what reading its serial number gave. A card that is gone
/// is removed; a card that has come and was identified is added; nothing else
/// changes anything.
pub open spec fn cycle_outcome(card: Option<Uid>, present: bool, identity: Option<Uid>) -> (
    Option<Uid>,
    Option<RfidEvent>,
) {
    match card {
        Some(_) => if present {
            (card, None)
        } else {
            (None, Some(RfidEvent::Removed))
        },
        None => if present {
            match identity {
                Some(uid) => (Some(uid), Some(RfidEvent::Added(uid))),
                None => (None, None),
            }
        } else {
            (None, None)
        },
    }
}

/// The debounced presence of a card.
#[derive(Copy, Clone, Debug, PartialEq, Eq, Structural)]
pub struct CardDetector {
    previous: Option<Uid>,
}

impl CardDetector {
    /// The card that lies on the reader, as far as the detector has told.
    pub closed spec fn card(self) -> Option<Uid> {
        self.previous
    }

    /// A detector for a reader with no card on it.
    pub fn new() -> (detector: CardDetector)
        ensures
            detector.card() is None,
    {
        CardDetector { previous: None }
    }

    /// Whether a cycle with the reading `present` needs the card's serial
    /// number: it does when a card has come.
    pub fn needs_identity(&self, present: bool) -> (needed: bool)
        ensures
            needed == (self.card() is None && present),
    {
        present && self.previous.is_none()
    }

    /// One polling cycle. `identity` is what reading the serial number gave;
    /// it is looked at only where `needs_identity(present)` holds.
    pub fn cycle(&mut self, present: bool, identity: Option<Uid>) -> (event: Option<RfidEvent>)
        ensures
            (final(self).card(), event) == cycle_outcome(old(self).card(), present, identity),
    {
        match self.previous {
            Some(_) => {
                if present {
                    None
                } else {
                    self.previous = None;
                    Some(RfidEvent::Removed)
                }
            },
            None => {
                if present {
                    match identity {
                        Some(uid) => {
                            self.previous = Some(uid);
                            Some(RfidEvent::Added(uid))
                        },
                        None => None,
                    }
                } else {
                    None
                }
            },
        }
    }
}

/// How long to wait before the next cycle, `elapsed` after the last one began:
/// what is left of `period`, or `None` where nothing is.
pub fn poll_wait(elapsed: Span, period: Span) -> (wait: Option<Span>)
    ensures
        wait is Some <==> elapsed.nanos() < period.nanos(),
        wait matches Some(w) ==> w.nanos() == period.nanos() - elapsed.nanos(),
{
    if elapsed.as_nanos() < period.as_nanos() {
        period.checked_sub(elapsed)
    } else {
        None
    }
}

/// How a try at reading a serial number ends the read, or does not.
#[derive(Copy, Clone, Debug, PartialEq, Eq, Structural)]
pub enum ReadStep {
    /// The serial number was read.
    Found(Uid),
    /// The try failed and another one is due.
    Retry,
    /// The last try failed.
    GiveUp,
}

/// The step after a try that gave `serial`, with `tries_left` tries left, this one counted.
pub open spec fn read_step(tries_left: nat, serial: Option<Seq<u8>>) -> ReadStep {
    match serial {
        Some(bytes) => ReadStep::Found(Uid(uid_value(bytes) as u64)),
        None => if tries_left <= 1 {
            ReadStep::GiveUp
        } else {
            ReadStep::Retry
        },
    }
}

/// One read of a card's serial number, in at most `MAX_READ_TRIES` tries.
#[derive(Copy, Clone, Debug, PartialEq, Eq, Structural)]
pub struct IdentityRead {
    tries_left: u32,
}

impl IdentityRead {
    /// The number of tries that the read has left.
    pub closed spec fn tries_left(self) -> nat {
        self.tries_left as nat
    }

    /// A read with all its tries left.
    pub fn new() -> (read: IdentityRead)
        ensures
            read.tries_left() == MAX_READ_TRIES,
    {
        IdentityRead { tries_left: MAX_READ_TRIES }
    }

    /// Takes in one try: `serial` is the serial number that it gave, if it
    /// gave one. A try after the read was given up is given up too.
    pub fn attempt(&mut self, serial: Option<&[u8]>) -> (step: ReadStep)
        ensures
            step == read_step(old(self).tries_left(), serial_view(serial)),
            final(self).tries_left() == if serial is None && old(self).tries_left() > 0 {
                (old(self).tries_left() - 1) as nat
            } else {
                old(self).tries_left()
            },
    {
        match serial {
            Some(bytes) => ReadStep::Found(Uid::from_bytes(bytes)),
            None => {
                if self.tries_left <= 1 {
                    self.tries_left = 0;
                    ReadStep::GiveUp
                } else {
                    self.tries_left = self.tries_left - 1;
                    ReadStep::Retry
                }
            },
        }
    }
}

/// The bytes of a serial number.
pub open spec fn serial_view(serial: Option<&[u8]>) -> Option<Seq<u8>> {
    match serial {
        Some(bytes) => Some(bytes@),
        None => None,
    }
}

/// A serial number of four bytes gives the four bytes in order, above one byte of zeros.
pub proof fn lemma_uid_of_four_bytes(a: u8, b: u8, c: u8, d: u8)
    ensures
        uid_value(seq![a, b, c, d]) == a * 0x1_0000_0000 + b * 0x100_0000 + c * 0x1_0000 + d
            * 0x100,
{
    let s4 = seq![a, b, c, d];
    let s3 = seq![a, b, c];
    let s2 = seq![a, b];
    let s1 = seq![a];
    assert(s4.drop_last() =~= s3);
    assert(s3.drop_last() =~= s2);
    assert(s2.drop_last() =~= s1);
    assert(s1.drop_last() =~= Seq::<u8>::empty());
    assert(uid_value(s1.drop_last()) == 0);
    assert(uid_value(s1) == a * 0x100);
    assert(uid_value(s2) == a * 0x1_0000 + b * 0x100);
    assert(uid_value(s3) == a * 0x100_0000 + b * 0x1_0000 + c * 0x100);
}

/// One event for each change and none in between: a cycle adds a card exactly
/// when none lay there and one lies there after it, removes one exactly when
/// one lay there and none does after it, and is silent exactly when nothing
/// has changed.
pub proof fn lemma_one_event_for_each_change(
    card: Option<Uid>,
    present: bool,
    identity: Option<Uid>,
)
    ensures
        ({
            let (after, event) = cycle_outcome(card, present, identity);
            &&& event is None <==> after == card
            &&& event == Some(RfidEvent::Removed) <==> (card is Some && after is None)
            &&& forall|uid: Uid|
                event == Some(RfidEvent::Added(uid)) <==> (card is None && after == Some(uid))
        }),
{
}

} // verus!
