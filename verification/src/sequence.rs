//! Pending transaction sequences, and the textual form of their ids.

use vstd::prelude::*;
use crate::account::AccountId;

verus! {

/// What a pending transaction sequence stands for.
pub struct SequenceView {
    pub created_by_account_id: Seq<char>,
    pub created_at_block_timestamp_ns: u64,
    pub pending_signature_count: u32,
}

/// A relay operation of several steps that is still in flight: who started
/// it, when, and how many signatures it still waits for.
#[derive(Debug)]
pub struct PendingTransactionSequence {
    pub created_by_account_id: AccountId,
    pub created_at_block_timestamp_ns: u64,
    pub pending_signature_count: u32,
}

impl View for PendingTransactionSequence {
    type V = SequenceView;

    open spec fn view(&self) -> SequenceView {
        SequenceView {
            created_by_account_id: self.created_by_account_id@,
            created_at_block_timestamp_ns: self.created_at_block_timestamp_ns,
            pending_signature_count: self.pending_signature_count,
        }
    }
}

/// The character that stands for a digit.
pub open spec fn digit_char(digit: int) -> char {
    if digit == 0 {
        '0'
    } else if digit == 1 {
        '1'
    } else if digit == 2 {
        '2'
    } else if digit == 3 {
        '3'
    } else if digit == 4 {
        '4'
    } else if digit == 5 {
        '5'
    } else if digit == 6 {
        '6'
    } else if digit == 7 {
        '7'
    } else if digit == 8 {
        '8'
    } else {
        '9'
    }
}

/// The decimal form of a number, without leading zeros.
pub open spec fn decimal_text(number: nat) -> Seq<char>
    decreases number,
{
    if number < 10 {
        seq![digit_char(number as int)]
    } else {
        decimal_text(number / 10).push(digit_char((number % 10) as int))
    }
}

/// The text of one digit.
fn digit_str(digit: u8) -> (text: &'static str)
    requires
        digit < 10,
    ensures
        text@ == seq![digit_char(digit as int)],
{
    proof {
        reveal_strlit("0");
        reveal_strlit("1");
        reveal_strlit("2");
        reveal_strlit("3");
        reveal_strlit("4");
        reveal_strlit("5");
        reveal_strlit("6");
        reveal_strlit("7");
        reveal_strlit("8");
        reveal_strlit("9");
    }
    let text = match digit {
        0 => "0",
        1 => "1",
        2 => "2",
        3 => "3",
        4 => "4",
        5 => "5",
        6 => "6",
        7 => "7",
        8 => "8",
        _ => "9",
    };
    assert(text@ =~= seq![digit_char(digit as int)]);
    text
}

/// The textual form of an id: its decimal digits.
pub fn id_text(id: u64) -> (text: String)
    ensures
        text@ == decimal_text(id as nat),
{
    // The digits come out last first; they are written down in turn.
    let mut digits: Vec<u8> = Vec::new();
    let mut rest = id;
    while rest >= 10
        invariant
            forall|k: int| 0 <= k < digits.len() ==> digits[k] < 10,
            decimal_text(id as nat) == decimal_text(rest as nat) + Seq::new(
                digits.len() as nat,
                |k: int| digit_char(digits[digits.len() - 1 - k] as int),
            ),
        decreases rest,
    {
        let ghost tail = Seq::new(
            digits.len() as nat,
            |k: int| digit_char(digits[digits.len() - 1 - k] as int),
        );
        let digit = (rest % 10) as u8;
        digits.push(digit);
        proof {
            let now = Seq::new(
                digits.len() as nat,
                |k: int| digit_char(digits[digits.len() - 1 - k] as int),
            );
            assert(now =~= seq![digit_char(digit as int)] + tail);
            assert(decimal_text(rest as nat) == decimal_text((rest / 10) as nat).push(
                digit_char(digit as int),
            ));
            assert(decimal_text((rest / 10) as nat).push(digit_char(digit as int)) + tail
                =~= decimal_text((rest / 10) as nat) + now);
        }
        rest = rest / 10;
    }
    let mut text = String::new();
    text.append(digit_str(rest as u8));
    let mut i: usize = digits.len();
    let ghost tail = Seq::new(
        digits.len() as nat,
        |k: int| digit_char(digits[digits.len() - 1 - k] as int),
    );
    assert(text@ =~= decimal_text(rest as nat) + tail.subrange(0, 0));
    while i > 0
        invariant
            i <= digits.len(),
            forall|k: int| 0 <= k < digits.len() ==> digits[k] < 10,
            tail == Seq::new(
                digits.len() as nat,
                |k: int| digit_char(digits[digits.len() - 1 - k] as int),
            ),
            text@ == decimal_text(rest as nat) + tail.subrange(0, digits.len() - i),
        decreases i,
    {
        i -= 1;
        text.append(digit_str(digits[i]));
        assert(text@ =~= decimal_text(rest as nat) + tail.subrange(0, digits.len() - i)) by {
            assert(tail[digits.len() - 1 - i] == digit_char(digits[i as int] as int));
            assert(tail.subrange(0, digits.len() - i) =~= tail.subrange(0, digits.len() - i - 1).push(
                tail[digits.len() - 1 - i],
            ));
        }
    }
    assert(tail.subrange(0, digits.len() as int) =~= tail);
    text
}

} // verus!
