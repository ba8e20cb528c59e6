//! The text in which a result is shown.
//!
//! Codes are listed in order, in decimal; the overflow marker is spelled
//! out, so that it is never read as a number.
use crate::records::OVERFLOW;
use vstd::prelude::*;
use vstd::string::*;

verus! {

/// The character of a decimal digit.
pub open spec fn digit(value: nat) -> char {
    if value == 0 {
        '0'
    } else if value == 1 {
        '1'
    } else if value == 2 {
        '2'
    } else if value == 3 {
        '3'
    } else if value == 4 {
        '4'
    } else if value == 5 {
        '5'
    } else if value == 6 {
        '6'
    } else if value == 7 {
        '7'
    } else if value == 8 {
        '8'
    } else {
        '9'
    }
}

/// A number in decimal, without leading zeros.
pub open spec fn decimal(value: nat) -> Seq<char>
    decreases value,
{
    if value < 10 {
        seq![digit(value)]
    } else {
        decimal(value / 10).push(digit(value % 10))
    }
}

/// How one code is shown.
pub open spec fn label(code: u32) -> Seq<char> {
    if code == OVERFLOW {
        "OVERFLOW"@
    } else {
        decimal(code as nat)
    }
}

/// The codes in order, separated by a comma and a space.
pub open spec fn listing(codes: Seq<u32>) -> Seq<char>
    decreases codes.len(),
{
    if codes.len() == 0 {
        Seq::empty()
    } else if codes.len() == 1 {
        label(codes[0])
    } else {
        listing(codes.drop_last()) + ", "@ + label(codes.last())
    }
}

/// The line that shows a result.
pub open spec fn report(codes: Seq<u32>) -> Seq<char> {
    "Steps: ["@ + listing(codes) + "]"@
}

fn digit_text(value: u32) -> (text: &'static str)
    requires
        value < 10,
    ensures
        text@ == seq![digit(value as nat)],
{
    proof {
        reveal_strlit("0");
        reveal_strlit("1");
        reveal_strlit("2");
        reveal_strlit("3");
        reveal_strlit("4");
        reveal_strlit("5");
        reveal_strlit("6");
        reveal_strlit("7");
        reveal_strlit("8");
        reveal_strlit("9");
    }
    let text = if value == 0 {
        "0"
    } else if value == 1 {
        "1"
    } else if value == 2 {
        "2"
    } else if value == 3 {
        "3"
    } else if value == 4 {
        "4"
    } else if value == 5 {
        "5"
    } else if value == 6 {
        "6"
    } else if value == 7 {
        "7"
    } else if value == 8 {
        "8"
    } else {
        "9"
    };
    assert(text@ =~= seq![digit(value as nat)]);
    text
}

fn push_decimal(out: &mut String, value: u32)
    ensures
        final(out)@ == old(out)@ + decimal(value as nat),
    decreases value,
{
    if value >= 10 {
        push_decimal(out, value / 10);
    }
    out.append(digit_text(value % 10));
    assert(out@ =~= old(out)@ + decimal(value as nat));
}

fn push_label(out: &mut String, code: u32)
    ensures
        final(out)@ == old(out)@ + label(code),
{
    if code == OVERFLOW {
        out.append("OVERFLOW");
    } else {
        push_decimal(out, code);
    }
}

/// Shows one code: the overflow marker by name, any other code as a
/// number.
pub fn label_of(code: u32) -> (text: String)
    ensures
        text@ == label(code),
{
    let mut text = String::new();
    push_label(&mut text, code);
    assert(text@ =~= label(code));
    text
}

/// Shows a result in one line.
pub fn format_steps(codes: &[u32]) -> (text: String)
    ensures
        text@ == report(codes@),
{
    let mut text = String::from_str("Steps: [");
    let mut index: usize = 0;
    while index < codes.len()
        invariant
            index <= codes@.len(),
            text@ == "Steps: ["@ + listing(codes@.take(index as int)),
        decreases codes@.len() - index,
    {
        let ghost shown = codes@.take(index as int);
        let ghost more = codes@.take(index + 1);
        if index > 0 {
            text.append(", ");
        }
        push_label(&mut text, codes[index]);
        proof {
            assert(more.drop_last() =~= shown);
            assert(more.last() == codes@[index as int]);
            if index > 0 {
                assert(text@ =~= "Steps: ["@ + (listing(shown) + ", "@ + label(more.last())));
            } else {
                assert(listing(shown) =~= Seq::<char>::empty());
                assert(more[0] == codes@[0]);
                assert(text@ =~= "Steps: ["@ + label(more[0]));
            }
        }
        index += 1;
    }
    assert(codes@.take(index as int) =~= codes@);
    text.append("]");
    text
}

/// Only the overflow marker is shown by name: a number is all digits, so
/// no code can be taken for the marker, nor the marker for a code.
pub proof fn lemma_marker_is_spelled_out(code: u32)
    ensures
        label(code) == "OVERFLOW"@ <==> code == OVERFLOW,
{
    reveal_strlit("OVERFLOW");
    if code != OVERFLOW {
        assert(decimal(code as nat).last() == digit(code as nat % 10));
        assert("OVERFLOW"@.last() == 'W');
    }
}

} // verus!
