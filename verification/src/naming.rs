//! The names of the cells of a sprite atlas. The pictures of an animation are
//! numbered from 1, and picture `n` of animation `Run` lives in the cell named
//! `Run (n).png`.

use vstd::prelude::*;
use vstd::string::StringExecFns;

verus! {

/// The character that stands for a single decimal digit.
pub open spec fn digit_char(digit: int) -> char {
    seq!['0', '1', '2', '3', '4', '5', '6', '7', '8', '9'][digit]
}

/// The decimal digits of a natural number, most significant first, without
/// leading zeros.
pub open spec fn digits(n: nat) -> Seq<char>
    decreases n,
{
    if n < 10 {
        seq![digit_char(n as int)]
    } else {
        digits(n / 10).push(digit_char((n % 10) as int))
    }
}

/// An integer written in decimal, with a minus sign in front of a negative one.
pub open spec fn decimal(n: int) -> Seq<char> {
    if n < 0 {
        seq!['-'] + digits((-n) as nat)
    } else {
        digits(n as nat)
    }
}

/// The name of the atlas cell that holds picture `index` of `animation`.
pub open spec fn frame_cell(animation: Seq<char>, index: int) -> Seq<char> {
    animation + seq![' ', '('] + decimal(index) + seq![')', '.', 'p', 'n', 'g']
}

/// The text of a single decimal digit.
fn digit_text(digit: u8) -> (text: &'static str)
    requires
        digit < 10,
    ensures
        text@ == seq![digit_char(digit as int)],
{
    proof {
        reveal_strlit("0");
        reveal_strlit("1");
        reveal_strlit("2");
        reveal_strlit("3");
        reveal_strlit("4");
        reveal_strlit("5");
        reveal_strlit("6");
        reveal_strlit("7");
        reveal_strlit("8");
        reveal_strlit("9");
    }
    let text = match digit {
        0 => "0",
        1 => "1",
        2 => "2",
        3 => "3",
        4 => "4",
        5 => "5",
        6 => "6",
        7 => "7",
        8 => "8",
        _ => "9",
    };
    assert(text@ =~= seq![digit_char(digit as int)]);
    text
}

/// Appends the decimal digits of `n` to `out`.
fn push_digits(out: &mut String, n: u128)
    ensures
        final(out)@ == old(out)@ + digits(n as nat),
    decreases n,
{
    if n >= 10 {
        push_digits(out, n / 10);
    }
    out.append(digit_text((n % 10) as u8));
    proof {
        if n >= 10 {
            assert(old(out)@ + digits((n / 10) as nat) + seq![digit_char((n % 10) as int)] =~= old(
                out,
            )@ + digits(n as nat));
        }
    }
}

/// Writes an integer in decimal.
pub fn decimal_text(n: i128) -> (text: String)
    ensures
        text@ == decimal(n as int),
{
    let mut text = String::new();
    if n < 0 {
        proof {
            reveal_strlit("-");
        }
        text.append("-");
        let magnitude: u128 = if n == i128::MIN {
            0x8000_0000_0000_0000_0000_0000_0000_0000u128
        } else {
            (-n) as u128
        };
        push_digits(&mut text, magnitude);
        assert(text@ =~= decimal(n as int));
    } else {
        push_digits(&mut text, n as u128);
        assert(text@ =~= decimal(n as int));
    }
    text
}

/// The name of the atlas cell that holds picture `index` of `animation`.
pub fn frame_cell_name(animation: &str, index: i128) -> (name: String)
    ensures
        name@ == frame_cell(animation@, index as int),
{
    proof {
        reveal_strlit(" (");
        reveal_strlit(").png");
    }
    let mut name = String::from_str(animation);
    name.append(" (");
    let number = decimal_text(index);
    name.append(number.as_str());
    name.append(").png");
    assert(name@ =~= frame_cell(animation@, index as int));
    name
}

/// The number that a run of digit characters spells.
pub open spec fn spelled(text: Seq<char>) -> nat
    decreases text.len(),
{
    if text.len() == 0 {
        0
    } else {
        (spelled(text.drop_last()) * 10 + (text.last() as int - '0' as int)) as nat
    }
}

/// Reading the digits of a number gives the number back, and none of the
/// digits is a minus sign.
pub proof fn lemma_digits_spell_their_number(n: nat)
    ensures
        spelled(digits(n)) == n,
        digits(n).len() >= 1,
        forall|i: int| 0 <= i < digits(n).len() ==> digits(n)[i] != '-',
    decreases n,
{
    let last = digit_char((n % 10) as int);
    assert(last as int - '0' as int == n % 10 && last != '-');
    assert(digits(n).last() == last);
    if n < 10 {
        assert(digits(n).drop_last() =~= Seq::<char>::empty());
        assert(spelled(digits(n).drop_last()) == 0);
    } else {
        lemma_digits_spell_their_number(n / 10);
        assert(digits(n).drop_last() =~= digits(n / 10));
        assert(spelled(digits(n).drop_last()) == n / 10);
    }
    assert(spelled(digits(n)) == spelled(digits(n).drop_last()) * 10 + (n % 10));
}

/// Different integers are written differently.
pub proof fn lemma_decimal_tells_integers_apart(one: int, other: int)
    requires
        decimal(one) == decimal(other),
    ensures
        one == other,
{
    if one < 0 {
        lemma_digits_spell_their_number((-one) as nat);
    } else {
        lemma_digits_spell_their_number(one as nat);
    }
    if other < 0 {
        lemma_digits_spell_their_number((-other) as nat);
    } else {
        lemma_digits_spell_their_number(other as nat);
    }
    if one < 0 && other < 0 {
        assert(decimal(one).subrange(1, decimal(one).len() as int) =~= digits((-one) as nat));
        assert(decimal(other).subrange(1, decimal(other).len() as int) =~= digits(
            (-other) as nat,
        ));
    } else if one < 0 {
        assert(decimal(one)[0] == '-');
        assert(decimal(other)[0] == digits(other as nat)[0]);
    } else if other < 0 {
        assert(decimal(other)[0] == '-');
        assert(decimal(one)[0] == digits(one as nat)[0]);
    }
}

/// The pictures of one animation live in cells of different names.
pub proof fn lemma_cell_names_tell_pictures_apart(animation: Seq<char>, one: int, other: int)
    requires
        frame_cell(animation, one) == frame_cell(animation, other),
    ensures
        one == other,
{
    let head = animation + seq![' ', '('];
    let tail = seq![')', '.', 'p', 'n', 'g'];
    let first = frame_cell(animation, one);
    let second = frame_cell(animation, other);
    assert(first =~= head + decimal(one) + tail);
    assert(second =~= head + decimal(other) + tail);
    assert(first.len() == second.len());
    assert(decimal(one).len() == decimal(other).len());
    let from = head.len() as int;
    let to = from + decimal(one).len();
    assert(first.subrange(from, to) =~= decimal(one));
    assert(second.subrange(from, to) =~= decimal(other));
    lemma_decimal_tells_integers_apart(one, other);
}

} // verus!
