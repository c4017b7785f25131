//! Preset identifiers of the two supported devices and the bank and
//! program numbers they stand for.
//!
//! A Quad Cortex preset is written as a bank number and a letter from
//! `A` to `H`, as in `12D`. A GT-1000 preset is written as `U` or `P`,
//! a bank of one or two digits, a hyphen and a patch digit, as in
//! `U01-1`.

use vstd::prelude::*;
use crate::text::{chars_of, decimal_text, digit_char};

verus! {

/// Why a preset identifier was not accepted.
#[derive(Clone, Copy, Debug, PartialEq, Eq, Structural)]
pub enum PresetFault {
    /// The text does not have the shape of an identifier.
    Malformed,
    /// The shape is right, but a number in it is outside its range.
    OutOfRange,
}

/// Whether `c` is one of the ten ASCII digits.
pub open spec fn is_digit(c: char) -> bool {
    0x30 <= c as u32 <= 0x39
}

/// The number that the digit `c` stands for.
pub open spec fn digit_value(c: char) -> nat {
    (c as u32 - 0x30) as nat
}

/// Whether every character of `s` is an ASCII digit.
pub open spec fn all_digits(s: Seq<char>) -> bool {
    forall|i: int| 0 <= i < s.len() ==> is_digit(#[trigger] s[i])
}

/// The number that `s` denotes in base ten; leading zeros count for
/// nothing.
pub open spec fn decimal_value(s: Seq<char>) -> nat
    decreases s.len(),
{
    if s.len() == 0 {
        0
    } else {
        decimal_value(s.drop_last()) * 10 + digit_value(s.last())
    }
}

/// Whether `c` is a letter from `A` to `H`.
pub open spec fn is_bank_letter(c: char) -> bool {
    0x41 <= c as u32 <= 0x48
}

/// The shape of a Quad Cortex identifier: one or more digits, then one
/// letter from `A` to `H`, and nothing else.
pub open spec fn qc_shape(s: Seq<char>) -> bool {
    &&& s.len() >= 2
    &&& all_digits(s.drop_last())
    &&& is_bank_letter(s.last())
}

/// The bank number and letter of a Quad Cortex identifier whose number
/// fits 32 bits.
pub open spec fn qc_preset_parts(s: Seq<char>) -> Option<(u32, char)> {
    if qc_shape(s) && decimal_value(s.drop_last()) <= u32::MAX {
        Some((decimal_value(s.drop_last()) as u32, s.last()))
    } else {
        None
    }
}

/// The program number of bank `number` (1 to 32) and `letter` (`A` to
/// `H`): eight programs to a bank, counted from zero.
pub open spec fn qc_program(number: int, letter: char) -> Option<u32> {
    if 1 <= number <= 32 && is_bank_letter(letter) {
        Some(((number - 1) * 8 + (letter as u32 - 0x41)) as u32)
    } else {
        None
    }
}

/// The program number that the Quad Cortex identifier `s` selects.
pub open spec fn qc_preset_program(s: Seq<char>) -> Option<u32> {
    match qc_preset_parts(s) {
        Some((number, letter)) => qc_program(number as int, letter),
        None => None,
    }
}

/// Why `s` selects no Quad Cortex program, if it selects none.
pub open spec fn qc_preset_fault(s: Seq<char>) -> Option<PresetFault> {
    if qc_preset_parts(s) is None {
        Some(PresetFault::Malformed)
    } else if qc_preset_program(s) is None {
        Some(PresetFault::OutOfRange)
    } else {
        None
    }
}

/// The shape of a GT-1000 identifier: `U` or `P`, one or two digits, a
/// hyphen, one digit, and nothing else.
pub open spec fn gt1000_shape(s: Seq<char>) -> bool {
    &&& (s.len() == 4 || s.len() == 5)
    &&& (s[0] == 'U' || s[0] == 'P')
    &&& all_digits(s.subrange(1, s.len() - 2))
    &&& s[s.len() - 2] == '-'
    &&& is_digit(s.last())
}

/// The bank that a GT-1000 identifier of the right shape names.
pub open spec fn gt1000_bank(s: Seq<char>) -> nat {
    decimal_value(s.subrange(1, s.len() - 2))
}

/// The patch that a GT-1000 identifier of the right shape names.
pub open spec fn gt1000_patch(s: Seq<char>) -> nat {
    digit_value(s.last())
}

/// Kind, bank (1 to 50) and patch (1 to 5) of a GT-1000 identifier.
pub open spec fn gt1000_preset_parts(s: Seq<char>) -> Option<(char, u32, u32)> {
    if gt1000_shape(s) && 1 <= gt1000_bank(s) <= 50 && 1 <= gt1000_patch(s) <= 5 {
        Some((s[0], gt1000_bank(s) as u32, gt1000_patch(s) as u32))
    } else {
        None
    }
}

/// Bank select MSB, bank select LSB and program number of a GT-1000
/// preset: user banks come first, preset banks fifty later.
pub open spec fn gt1000_select(kind: char, bank: int, patch: int) -> Option<(u32, u32, u32)> {
    if 1 <= bank <= 50 && 1 <= patch <= 5 && (kind == 'U' || kind == 'P') {
        let offset: int = if kind == 'P' { 50 } else { 0 };
        Some((0u32, (bank - 1 + offset) as u32, (patch - 1) as u32))
    } else {
        None
    }
}

/// What the GT-1000 identifier `s` selects.
pub open spec fn gt1000_preset_select(s: Seq<char>) -> Option<(u32, u32, u32)> {
    match gt1000_preset_parts(s) {
        Some((kind, bank, patch)) => gt1000_select(kind, bank as int, patch as int),
        None => None,
    }
}

/// Why `s` selects no GT-1000 preset, if it selects none.
pub open spec fn gt1000_preset_fault(s: Seq<char>) -> Option<PresetFault> {
    if !gt1000_shape(s) {
        Some(PresetFault::Malformed)
    } else if gt1000_preset_parts(s) is None {
        Some(PresetFault::OutOfRange)
    } else {
        None
    }
}

/// Appending digits never makes the value smaller.
pub proof fn lemma_decimal_value_grows(s: Seq<char>, k: int)
    requires
        0 <= k <= s.len(),
    ensures
        decimal_value(s.take(k)) <= decimal_value(s),
    decreases s.len() - k,
{
    if k < s.len() {
        lemma_decimal_value_grows(s, k + 1);
        assert(s.take(k + 1).drop_last() =~= s.take(k));
        assert(decimal_value(s.take(k + 1)) >= decimal_value(s.take(k)) * 10) by {
            assert(decimal_value(s.take(k + 1)) == decimal_value(s.take(k + 1).drop_last()) * 10
                + digit_value(s.take(k + 1).last()));
        }
    } else {
        assert(s.take(k) =~= s);
    }
}

/// Writing a number and reading it back gives the number: the text is
/// made of digits, is not empty, and denotes `n`.
pub proof fn lemma_decimal_text_value(n: nat)
    ensures
        decimal_text(n).len() >= 1,
        all_digits(decimal_text(n)),
        decimal_value(decimal_text(n)) == n,
    decreases n,
{
    if n < 10 {
        let t = decimal_text(n);
        assert(t.len() == 1);
        assert(t[0] as u32 == 0x30 + n);
        assert(t.drop_last() =~= Seq::<char>::empty());
        assert(decimal_value(t.drop_last()) == 0);
    } else {
        lemma_decimal_text_value(n / 10);
        let head = decimal_text(n / 10);
        let t = decimal_text(n);
        assert(t == head.push(digit_char(n % 10)));
        assert(t.drop_last() =~= head);
        assert(t.last() as u32 == 0x30 + n % 10);
        assert forall|i: int| 0 <= i < t.len() implies is_digit(#[trigger] t[i]) by {
            if i < head.len() {
                assert(t[i] == head[i]);
            }
        }
    }
}

/// Every Quad Cortex identifier made of a bank from 1 to 32, written
/// with or without leading zeros, and a letter from `A` to `H` selects
/// program `(bank - 1) * 8 + (letter - 'A')`, which lies in 0 to 255.
pub proof fn lemma_qc_valid_ids(digits: Seq<char>, letter: char)
    requires
        digits.len() >= 1,
        all_digits(digits),
        1 <= decimal_value(digits) <= 32,
        is_bank_letter(letter),
    ensures
        qc_preset_program(digits.push(letter)) == Some(
            ((decimal_value(digits) - 1) * 8 + (letter as u32 - 0x41)) as u32,
        ),
        0 <= (decimal_value(digits) - 1) * 8 + (letter as u32 - 0x41) <= 255,
        qc_preset_fault(digits.push(letter)) is None,
{
    let id = digits.push(letter);
    assert(id.drop_last() =~= digits);
    assert(id.last() == letter);
}

/// The same for the identifier as it is usually written: the bank in
/// base ten, then the letter.
pub proof fn lemma_qc_usual_ids(bank: nat, letter: char)
    requires
        1 <= bank <= 32,
        is_bank_letter(letter),
    ensures
        qc_preset_program(decimal_text(bank).push(letter)) == Some(
            ((bank - 1) * 8 + (letter as u32 - 0x41)) as u32,
        ),
{
    lemma_decimal_text_value(bank);
    lemma_qc_valid_ids(decimal_text(bank), letter);
}

/// A Quad Cortex identifier of the right shape whose bank is not one
/// of 1 to 32 selects nothing, and neither does a text that does not
/// end in a letter from `A` to `H`.
pub proof fn lemma_qc_invalid_ids(s: Seq<char>)
    ensures
        qc_shape(s) && !(1 <= decimal_value(s.drop_last()) <= 32) ==> qc_preset_program(s) is None,
        s.len() > 0 && !is_bank_letter(s.last()) ==> qc_preset_program(s) is None,
        s.len() < 2 ==> qc_preset_program(s) is None,
        qc_preset_program(s) is None <==> qc_preset_fault(s) is Some,
{
}

/// Every GT-1000 identifier made of `U` or `P`, a bank from 1 to 50 in
/// one or two digits, a hyphen and a patch digit from 1 to 5 selects
/// bank MSB 0, bank LSB `bank - 1` (fifty more for `P`) and program
/// `patch - 1`.
pub proof fn lemma_gt1000_valid_ids(kind: char, digits: Seq<char>, patch: char)
    requires
        kind == 'U' || kind == 'P',
        digits.len() == 1 || digits.len() == 2,
        all_digits(digits),
        1 <= decimal_value(digits) <= 50,
        is_digit(patch),
        1 <= digit_value(patch) <= 5,
    ensures
        gt1000_preset_select(seq![kind] + digits + seq!['-', patch]) == Some(
            (
                0u32,
                (decimal_value(digits) - 1 + if kind == 'P' { 50int } else { 0int }) as u32,
                (digit_value(patch) - 1) as u32,
            ),
        ),
        gt1000_preset_fault(seq![kind] + digits + seq!['-', patch]) is None,
{
    let id = seq![kind] + digits + seq!['-', patch];
    assert(id.subrange(1, id.len() - 2) =~= digits);
    assert(id[0] == kind);
    assert(id[id.len() - 2] == '-');
    assert(id.last() == patch);
}

/// A GT-1000 identifier of the right shape whose bank is not one of 1
/// to 50, or whose patch is not one of 1 to 5, selects nothing; so do
/// bank 0, bank 51, patch 0 and patch 6.
pub proof fn lemma_gt1000_invalid_ids(s: Seq<char>)
    ensures
        gt1000_shape(s) && !(1 <= gt1000_bank(s) <= 50) ==> gt1000_preset_select(s) is None,
        gt1000_shape(s) && !(1 <= gt1000_patch(s) <= 5) ==> gt1000_preset_select(s) is None,
        !gt1000_shape(s) ==> gt1000_preset_select(s) is None,
        gt1000_preset_select(s) is None <==> gt1000_preset_fault(s) is Some,
{
}

fn digit_of(c: char) -> (r: Option<u32>)
    ensures
        r is Some == is_digit(c),
        r matches Some(d) ==> d == digit_value(c) && d <= 9,
{
    let u: u32 = c as u32;
    if 0x30 <= u && u <= 0x39 {
        Some(u - 0x30)
    } else {
        None
    }
}

/// Reads `cs[from..to]` as a number in base ten.
fn parse_decimal(cs: &Vec<char>, from: usize, to: usize) -> (r: Option<u32>)
    requires
        from <= to <= cs@.len(),
    ensures
        r is Some == (all_digits(cs@.subrange(from as int, to as int)) && decimal_value(
            cs@.subrange(from as int, to as int),
        ) <= u32::MAX),
        r matches Some(v) ==> v == decimal_value(cs@.subrange(from as int, to as int)),
{
    let ghost s = cs@.subrange(from as int, to as int);
    let mut value: u64 = 0;
    let mut i: usize = from;
    assert(s.take(0) =~= Seq::<char>::empty());
    while i < to
        invariant
            from <= i <= to <= cs@.len(),
            s == cs@.subrange(from as int, to as int),
            all_digits(s.take(i - from)),
            value == decimal_value(s.take(i - from)),
            value <= u32::MAX,
        decreases to - i,
    {
        let ghost k = i - from;
        assert(s.take(k + 1).drop_last() =~= s.take(k));
        assert(s.take(k + 1).last() == cs@[i as int]);
        match digit_of(cs[i]) {
            None => {
                assert(!is_digit(s[k]));
                return None;
            },
            Some(d) => {
                value = value * 10 + d as u64;
                assert(value == decimal_value(s.take(k + 1)));
                if value > u32::MAX as u64 {
                    proof {
                        lemma_decimal_value_grows(s, k + 1);
                    }
                    return None;
                }
                assert forall|j: int| 0 <= j < k + 1 implies is_digit(#[trigger] s.take(k + 1)[j]) by {
                    if j < k {
                        assert(s.take(k + 1)[j] == s.take(k)[j]);
                    }
                }
            },
        }
        i += 1;
    }
    assert(s.take(to - from) =~= s);
    Some(value as u32)
}

fn bank_letter(c: char) -> (r: bool)
    ensures
        r == is_bank_letter(c),
{
    let u: u32 = c as u32;
    0x41 <= u && u <= 0x48
}

/// Splits a Quad Cortex identifier into its bank number and letter.
pub fn parse_preset_id(preset_id: &str) -> (r: Option<(u32, char)>)
    ensures
        r == qc_preset_parts(preset_id@),
{
    let cs = chars_of(preset_id);
    let n = cs.len();
    if n < 2 {
        return None;
    }
    let letter = cs[n - 1];
    if !bank_letter(letter) {
        return None;
    }
    assert(cs@.subrange(0, n - 1) =~= cs@.drop_last());
    match parse_decimal(&cs, 0, n - 1) {
        Some(number) => Some((number, letter)),
        None => None,
    }
}

/// The program number of a bank number and letter.
pub fn parse_preset_midi(number: &u32, letter: &char) -> (r: Option<u32>)
    ensures
        r == qc_program(*number as int, *letter),
{
    if *number < 1 || *number > 32 || !bank_letter(*letter) {
        return None;
    }
    let preset_offset: u32 = (*letter as u32) - 0x41;
    Some((*number - 1) * 8 + preset_offset)
}

/// The program change that selects the Quad Cortex preset `preset_id`,
/// or `None` where the identifier is malformed or its bank is not one
/// of 1 to 32. The setlist and the channel have no part in it.
#[allow(unused_variables)]
pub fn send_qc_preset(preset_id: &String, setlist: &u32, channel: &u32) -> (r: Option<u32>)
    ensures
        r == qc_preset_program(preset_id@),
{
    match parse_preset_id(preset_id.as_str()) {
        Some((number, letter)) => parse_preset_midi(&number, &letter),
        None => None,
    }
}

/// Says why `preset_id` selects no Quad Cortex program, or `None` where
/// it selects one.
pub fn check_qc_preset(preset_id: &str) -> (r: Option<PresetFault>)
    ensures
        r == qc_preset_fault(preset_id@),
{
    match parse_preset_id(preset_id) {
        None => Some(PresetFault::Malformed),
        Some((number, letter)) => match parse_preset_midi(&number, &letter) {
            None => Some(PresetFault::OutOfRange),
            Some(_) => None,
        },
    }
}

/// Reads a GT-1000 identifier of the right shape, in or out of range.
fn read_gt1000_preset_id(preset_id: &str) -> (r: Option<(char, u32, u32)>)
    ensures
        r is Some == gt1000_shape(preset_id@),
        r matches Some((kind, bank, patch)) ==> kind == preset_id@[0] && bank == gt1000_bank(
            preset_id@,
        ) && patch == gt1000_patch(preset_id@),
{
    let cs = chars_of(preset_id);
    let n = cs.len();
    if n != 4 && n != 5 {
        return None;
    }
    let kind = cs[0];
    if kind != 'U' && kind != 'P' {
        return None;
    }
    if cs[n - 2] != '-' {
        return None;
    }
    let patch = match digit_of(cs[n - 1]) {
        Some(d) => d,
        None => { return None; },
    };
    proof {
        let digits = cs@.subrange(1, n - 2);
        assert(digits.len() <= 2);
        if all_digits(digits) {
            lemma_two_digits_small(digits);
        }
    }
    match parse_decimal(&cs, 1, n - 2) {
        Some(bank) => Some((kind, bank, patch)),
        None => None,
    }
}

/// At most two digits denote a number under one hundred.
proof fn lemma_two_digits_small(s: Seq<char>)
    requires
        s.len() <= 2,
        all_digits(s),
    ensures
        decimal_value(s) <= 99,
{
    reveal_with_fuel(decimal_value, 3);
    if s.len() == 2 {
        assert(s.drop_last().last() == s[0]);
    }
}

/// Splits a GT-1000 identifier into kind, bank and patch, and accepts
/// banks 1 to 50 and patches 1 to 5 only.
pub fn parse_gt1000_preset_id(preset_id: &str) -> (r: Option<(char, u32, u32)>)
    ensures
        r == gt1000_preset_parts(preset_id@),
{
    match read_gt1000_preset_id(preset_id) {
        Some((kind, bank, patch)) => {
            if 1 <= bank && bank <= 50 && 1 <= patch && patch <= 5 {
                Some((kind, bank, patch))
            } else {
                None
            }
        },
        None => None,
    }
}

/// Bank select MSB, bank select LSB and program number of a kind, bank
/// and patch.
pub fn parse_gt1000_preset_midi(preset_type: &char, bank_number: &u32, patch_number: &u32) -> (r:
    Option<(u32, u32, u32)>)
    ensures
        r == gt1000_select(*preset_type, *bank_number as int, *patch_number as int),
{
    if *bank_number < 1 || *bank_number > 50 {
        return None;
    }
    if *patch_number < 1 || *patch_number > 5 {
        return None;
    }
    let bank_select_msb: u32 = 0;
    let bank_select_lsb: u32 = if *preset_type == 'U' {
        *bank_number - 1
    } else if *preset_type == 'P' {
        *bank_number - 1 + 50
    } else {
        return None;
    };
    let program_change_number: u32 = *patch_number - 1;
    Some((bank_select_msb, bank_select_lsb, program_change_number))
}

/// The bank select and program change that select the GT-1000 preset
/// `preset_id`, or `None` where the identifier is malformed or out of
/// range. The channel has no part in it.
#[allow(unused_variables)]
pub fn send_gt1000_preset(preset_id: &String, channel: &u32) -> (r: Option<(u32, u32, u32)>)
    ensures
        r == gt1000_preset_select(preset_id@),
{
    match parse_gt1000_preset_id(preset_id.as_str()) {
        Some((preset_type, bank_number, patch_number)) => parse_gt1000_preset_midi(
            &preset_type,
            &bank_number,
            &patch_number,
        ),
        None => None,
    }
}

/// Says why `preset_id` selects no GT-1000 preset, or `None` where it
/// selects one.
pub fn check_gt1000_preset(preset_id: &str) -> (r: Option<PresetFault>)
    ensures
        r == gt1000_preset_fault(preset_id@),
{
    match read_gt1000_preset_id(preset_id) {
        None => Some(PresetFault::Malformed),
        Some((_, bank, patch)) => {
            if 1 <= bank && bank <= 50 && 1 <= patch && patch <= 5 {
                None
            } else {
                Some(PresetFault::OutOfRange)
            }
        },
    }
}

} // verus!
