//! The list that says which file belongs to which token.
//!
//! The list is a text, one entry to a line: the token's number, one space, and
//! the path of the file below the media root. The number is decimal, or
//! hexadecimal after `0x`, binary after `0b`, octal after `0o`. Empty lines and
//! lines that begin with `#` say nothing. A line that is no entry is passed
//! over.

use crate::rfid::Uid;
use vstd::prelude::*;
use vstd::slice::slice_subrange;

verus! {

/// The place of the first `byte` in `text`, or the length of `text` where
/// there is none.
pub open spec fn first_index(text: Seq<u8>, byte: u8) -> int
    decreases text.len(),
{
    if text.len() == 0 || text[0] == byte {
        0
    } else {
        1 + first_index(text.skip(1), byte)
    }
}

/// The value of a digit, whatever the base.
pub open spec fn digit_of(byte: u8) -> nat {
    if 0x30 <= byte <= 0x39 {
        (byte - 0x30) as nat
    } else if 0x61 <= byte <= 0x66 {
        (byte - 0x61 + 10) as nat
    } else if 0x41 <= byte <= 0x46 {
        (byte - 0x41 + 10) as nat
    } else {
        16
    }
}

/// Whether `byte` is a digit in base `radix`: `0` to `9`, then `a` to `f` in
/// either case.
pub open spec fn is_digit(byte: u8, radix: nat) -> bool {
    digit_of(byte) < radix
}

/// The number that `digits` write in base `radix`.
pub open spec fn digits_value(digits: Seq<u8>, radix: nat) -> nat
    decreases digits.len(),
{
    if digits.len() == 0 {
        0
    } else {
        digits_value(digits.drop_last(), radix) * radix + digit_of(digits.last())
    }
}

/// Whether `digits` are one digit or more in base `radix`, and nothing else.
pub open spec fn is_number(digits: Seq<u8>, radix: nat) -> bool {
    digits.len() > 0 && forall|i: int| 0 <= i < digits.len() ==> is_digit(#[trigger] digits[i], radix)
}

/// Whether `text` begins with `0` and `letter`.
pub open spec fn has_prefix(text: Seq<u8>, letter: u8) -> bool {
    text.len() >= 2 && text[0] == 0x30 && text[1] == letter
}

/// The base in which `text` writes a number.
pub open spec fn radix_of(text: Seq<u8>) -> nat {
    if has_prefix(text, 0x78) {
        16
    } else if has_prefix(text, 0x62) {
        2
    } else if has_prefix(text, 0x6f) {
        8
    } else {
        10
    }
}

/// The digits of `text`: what follows the prefix, where there is one.
pub open spec fn digits_of(text: Seq<u8>) -> Seq<u8> {
    if radix_of(text) == 10 {
        text
    } else {
        text.skip(2)
    }
}

/// The token number that `text` writes, if it writes one that fits in 64 bits.
pub open spec fn id_value(text: Seq<u8>) -> Option<u64> {
    let radix = radix_of(text);
    let digits = digits_of(text);
    if is_number(digits, radix) && digits_value(digits, radix) <= u64::MAX {
        Some(digits_value(digits, radix) as u64)
    } else {
        None
    }
}

/// The path `relative` below `root`.
pub open spec fn resolved(root: Seq<u8>, relative: Seq<u8>) -> Seq<u8> {
    root.push(0x2f) + relative
}

/// The entry that `line` holds: the number before the first space, and the
/// path after it below `root`.
pub open spec fn line_entry(line: Seq<u8>, root: Seq<u8>) -> Option<(Uid, Seq<u8>)> {
    let space = first_index(line, 0x20);
    if space < line.len() {
        match id_value(line.subrange(0, space)) {
            Some(id) => Some((Uid(id), resolved(root, line.subrange(space + 1, line.len() as int)))),
            None => None,
        }
    } else {
        None
    }
}

/// A line without the carriage return that may end it.
pub open spec fn without_return(line: Seq<u8>) -> Seq<u8> {
    if line.len() > 0 && line.last() == 0x0d {
        line.drop_last()
    } else {
        line
    }
}

/// Whether a line says nothing: it is empty or begins with `#`.
pub open spec fn is_skipped(line: Seq<u8>) -> bool {
    line.len() == 0 || line[0] == 0x23
}

/// The entries of one line of the list: one or none.
pub open spec fn entries_of_line(line: Seq<u8>, root: Seq<u8>) -> Seq<(Uid, Seq<u8>)> {
    let content = without_return(line);
    if is_skipped(content) {
        Seq::empty()
    } else {
        match line_entry(content, root) {
            Some(entry) => seq![entry],
            None => Seq::empty(),
        }
    }
}

/// The entries of the list `text`, line by line.
pub open spec fn entries_of(text: Seq<u8>, root: Seq<u8>) -> Seq<(Uid, Seq<u8>)>
    decreases text.len(),
{
    if text.len() == 0 {
        Seq::empty()
    } else {
        let end = first_index(text, 0x0a);
        if 0 <= end < text.len() {
            entries_of_line(text.subrange(0, end), root) + entries_of(
                text.subrange(end + 1, text.len() as int),
                root,
            )
        } else {
            entries_of_line(text, root)
        }
    }
}

/// The path of the last of `entries` for the token `uid`.
pub open spec fn path_of(entries: Seq<(Uid, Seq<u8>)>, uid: Uid) -> Option<Seq<u8>>
    decreases entries.len(),
{
    if entries.len() == 0 {
        None
    } else if entries.last().0 == uid {
        Some(entries.last().1)
    } else {
        path_of(entries.drop_last(), uid)
    }
}

/// The first `byte` lies where no `byte` comes before.
pub proof fn lemma_first_index(text: Seq<u8>, byte: u8, at: int)
    requires
        0 <= at <= text.len(),
        forall|j: int| 0 <= j < at ==> text[j] != byte,
        at == text.len() || text[at] == byte,
    ensures
        first_index(text, byte) == at,
    decreases at,
{
    if at > 0 {
        let rest = text.skip(1);
        assert forall|j: int| 0 <= j < at - 1 implies rest[j] != byte by {
            assert(rest[j] == text[j + 1]);
        }
        lemma_first_index(rest, byte, at - 1);
    }
}

/// The digits that begin a number write no more than the number does.
pub proof fn lemma_digits_value_grows(digits: Seq<u8>, radix: nat, len: int)
    requires
        0 <= len <= digits.len(),
        radix >= 1,
    ensures
        digits_value(digits.take(len), radix) <= digits_value(digits, radix),
    decreases digits.len(),
{
    if len == digits.len() {
        assert(digits.take(len) =~= digits);
    } else {
        let shorter = digits.drop_last();
        assert(shorter.take(len) =~= digits.take(len));
        lemma_digits_value_grows(shorter, radix, len);
        assert(digits_value(shorter, radix) * radix >= digits_value(shorter, radix))
            by (nonlinear_arith)
            requires
                radix >= 1,
        ;
    }
}

/// The place of the first `byte` in `text`, or the length of `text` where
/// there is none.
fn find(text: &[u8], byte: u8) -> (at: usize)
    ensures
        at == first_index(text@, byte),
        at <= text@.len(),
{
    let mut at: usize = 0;
    while at < text.len() && text[at] != byte
        invariant
            at <= text@.len(),
            forall|j: int| 0 <= j < at ==> text@[j] != byte,
        decreases text@.len() - at,
    {
        at = at + 1;
    }
    proof {
        lemma_first_index(text@, byte, at as int);
    }
    at
}

/// The value of the digit `byte` in base `radix`, if it is one.
fn digit(byte: u8, radix: u64) -> (value: Option<u64>)
    requires
        radix <= 16,
    ensures
        value is Some <==> is_digit(byte, radix as nat),
        value matches Some(v) ==> v == digit_of(byte),
{
    let value: u64 = if 0x30 <= byte && byte <= 0x39 {
        (byte - 0x30) as u64
    } else if 0x61 <= byte && byte <= 0x66 {
        (byte - 0x61 + 10) as u64
    } else if 0x41 <= byte && byte <= 0x46 {
        (byte - 0x41 + 10) as u64
    } else {
        16
    };
    if value < radix {
        Some(value)
    } else {
        None
    }
}

/// The number that `digits` write in base `radix`, if they write one that
/// fits in 64 bits.
fn parse_digits(digits: &[u8], radix: u64) -> (value: Option<u64>)
    requires
        1 <= radix <= 16,
    ensures
        value == if is_number(digits@, radix as nat) && digits_value(digits@, radix as nat)
            <= u64::MAX {
            Some(digits_value(digits@, radix as nat) as u64)
        } else {
            None
        },
{
    if digits.len() == 0 {
        return None;
    }
    let mut value: u64 = 0;
    let mut i: usize = 0;
    assert(digits@.take(0) =~= Seq::<u8>::empty());
    while i < digits.len()
        invariant
            1 <= radix <= 16,
            i <= digits@.len(),
            digits@.len() > 0,
            forall|j: int| 0 <= j < i ==> is_digit(#[trigger] digits@[j], radix as nat),
            value == digits_value(digits@.take(i as int), radix as nat),
        decreases digits@.len() - i,
    {
        let d: u64 = match digit(digits[i], radix) {
            Some(d) => d,
            None => {
                return None;
            },
        };
        proof {
            let longer = digits@.take(i + 1);
            assert(longer.drop_last() =~= digits@.take(i as int));
            assert(longer.last() == digits@[i as int]);
            lemma_digits_value_grows(digits@, radix as nat, i + 1);
        }
        let shifted: u64 = match value.checked_mul(radix) {
            Some(shifted) => shifted,
            None => {
                return None;
            },
        };
        value = match shifted.checked_add(d) {
            Some(sum) => sum,
            None => {
                return None;
            },
        };
        i = i + 1;
    }
    assert(digits@.take(i as int) =~= digits@);
    Some(value)
}

/// The token number that `text` writes, if it writes one that fits in 64 bits.
pub fn parse_id(text: &[u8]) -> (id: Option<u64>)
    ensures
        id == id_value(text@),
{
    let len: usize = text.len();
    if len >= 2 && text[0] == 0x30 && (text[1] == 0x78 || text[1] == 0x62 || text[1] == 0x6f) {
        let radix: u64 = if text[1] == 0x78 {
            16
        } else if text[1] == 0x62 {
            2
        } else {
            8
        };
        let digits = slice_subrange(text, 2, len);
        assert(digits@ =~= text@.skip(2));
        parse_digits(digits, radix)
    } else {
        parse_digits(text, 10)
    }
}

/// The entry that `line` holds, with its path below `root`; `None` where the
/// line holds no space, or no token number before the first one.
pub fn parse_line(line: &[u8], root: &[u8]) -> (entry: Option<(Uid, Vec<u8>)>)
    ensures
        match line_entry(line@, root@) {
            Some((uid, path)) => entry matches Some((u, p)) && u == uid && p@ == path,
            None => entry is None,
        },
{
    let space: usize = find(line, 0x20);
    if space >= line.len() {
        return None;
    }
    let id: u64 = match parse_id(slice_subrange(line, 0, space)) {
        Some(id) => id,
        None => {
            return None;
        },
    };
    let relative = slice_subrange(line, space + 1, line.len());
    let mut path: Vec<u8> = Vec::new();
    path.extend_from_slice(root);
    path.push(0x2f);
    path.extend_from_slice(relative);
    assert(path@ =~= resolved(root@, line@.subrange(space + 1, line@.len() as int)));
    Some((Uid(id), path))
}

/// One entry of the list: a token and the path of its file.
#[derive(Debug, PartialEq, Eq)]
pub struct MediaEntry {
    pub uid: Uid,
    pub path: Vec<u8>,
}

/// The list of the files of all tokens.
#[derive(Debug, PartialEq, Eq)]
pub struct MediaDefinition {
    entries: Vec<MediaEntry>,
}

/// The entries as tokens and paths.
pub open spec fn entry_views(entries: Seq<MediaEntry>) -> Seq<(Uid, Seq<u8>)> {
    Seq::new(entries.len(), |i: int| (entries[i].uid, entries[i].path@))
}

impl View for MediaDefinition {
    type V = Seq<(Uid, Seq<u8>)>;

    closed spec fn view(&self) -> Seq<(Uid, Seq<u8>)> {
        entry_views(self.entries@)
    }
}

impl MediaDefinition {
    /// Reads the list `text`; the paths are taken below `root`.
    pub fn parse(text: &[u8], root: &[u8]) -> (list: MediaDefinition)
        ensures
            list@ == entries_of(text@, root@),
    {
        let mut entries: Vec<MediaEntry> = Vec::new();
        let mut start: usize = 0;
        let len: usize = text.len();
        assert(text@.subrange(0, len as int) =~= text@);
        assert(entry_views(entries@) =~= Seq::<(Uid, Seq<u8>)>::empty());
        while start < len
            invariant
                len == text@.len(),
                start <= len,
                entry_views(entries@) + entries_of(text@.subrange(start as int, len as int), root@)
                    == entries_of(text@, root@),
            decreases len - start,
        {
            let rest = slice_subrange(text, start, len);
            let end: usize = find(rest, 0x0a);
            let line = slice_subrange(rest, 0, end);
            let ghost before = entry_views(entries@);
            let content: &[u8] = if end > 0 && line[end - 1] == 0x0d {
                slice_subrange(line, 0, end - 1)
            } else {
                line
            };
            assert(content@ =~= without_return(line@));
            if content.len() > 0 && content[0] != 0x23 {
                if let Some((uid, path)) = parse_line(content, root) {
                    entries.push(MediaEntry { uid, path });
                }
            }
            assert(entry_views(entries@) =~= before + entries_of_line(line@, root@));
            proof {
                if end < rest@.len() {
                    assert(rest@.subrange(end + 1, rest@.len() as int) =~= text@.subrange(
                        start + end + 1,
                        len as int,
                    ));
                    assert(line@ =~= rest@.subrange(0, end as int));
                } else {
                    assert(line@ =~= rest@);
                    assert(text@.subrange(len as int, len as int) =~= Seq::<u8>::empty());
                }
            }
            start = if end < len - start {
                start + end + 1
            } else {
                len
            };
        }
        assert(text@.subrange(len as int, len as int) =~= Seq::<u8>::empty());
        MediaDefinition { entries }
    }

    /// The path of the file for the token `uid`: that of the last entry for
    /// it, or `None` where the list has none.
    pub fn get(&self, uid: Uid) -> (path: Option<&Vec<u8>>)
        ensures
            match path_of(self@, uid) {
                Some(p) => path matches Some(found) && found@ == p,
                None => path is None,
            },
    {
        let mut i: usize = self.entries.len();
        assert(self@.take(i as int) =~= self@);
        while i > 0
            invariant
                i <= self.entries@.len(),
                path_of(self@.take(i as int), uid) == path_of(self@, uid),
            decreases i,
        {
            let ghost shorter = self@.take(i as int);
            assert(shorter.drop_last() =~= self@.take(i - 1));
            assert(shorter.last() == (self.entries@[i - 1].uid, self.entries@[i - 1].path@));
            i = i - 1;
            if self.entries[i].uid == uid {
                return Some(&self.entries[i].path);
            }
        }
        None
    }

    /// The number of entries.
    pub fn len(&self) -> (len: usize)
        ensures
            len == self@.len(),
    {
        self.entries.len()
    }
}

} // verus!
