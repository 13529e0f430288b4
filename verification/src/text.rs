//! Decimal numbers as text, right-aligned in a field of a given width.

use vstd::prelude::*;
use vstd::string::StringExecFns;

verus! {

/// The ten decimal digits in order.
pub open spec fn digits() -> Seq<char> {
    seq!['0', '1', '2', '3', '4', '5', '6', '7', '8', '9']
}

/// The character of the digit `d`, for `d` below ten.
pub open spec fn digit(d: nat) -> char
    recommends
        d < 10,
{
    digits()[d as int]
}

/// The decimal numeral of `n`: no sign, no leading zero, `"0"` for zero.
pub open spec fn decimal(n: nat) -> Seq<char>
    decreases n,
{
    if n < 10 {
        seq![digit(n)]
    } else {
        decimal(n / 10).push(digit(n % 10))
    }
}

/// `count` blanks.
pub open spec fn spaces(count: nat) -> Seq<char> {
    Seq::new(count, |i: int| ' ')
}

/// `s` preceded by as many blanks as it takes to reach `width` characters.
/// Text that is already that long is left as it is; nothing is cut off.
pub open spec fn right_aligned(s: Seq<char>, width: nat) -> Seq<char> {
    if s.len() >= width {
        s
    } else {
        spaces((width - s.len()) as nat) + s
    }
}

/// The numeral of `n`, right-aligned in `width` characters.
pub open spec fn field(n: nat, width: nat) -> Seq<char> {
    right_aligned(decimal(n), width)
}

/// The number that the digit `c` stands for.
pub open spec fn digit_value(c: char) -> nat
    recommends
        digits().contains(c),
{
    if c == '1' {
        1
    } else if c == '2' {
        2
    } else if c == '3' {
        3
    } else if c == '4' {
        4
    } else if c == '5' {
        5
    } else if c == '6' {
        6
    } else if c == '7' {
        7
    } else if c == '8' {
        8
    } else if c == '9' {
        9
    } else {
        0
    }
}

/// The number that a row of digits stands for, read as a decimal numeral.
pub open spec fn numeral_value(s: Seq<char>) -> nat
    decreases s.len(),
{
    if s.len() == 0 {
        0
    } else {
        numeral_value(s.drop_last()) * 10 + digit_value(s.last())
    }
}

/// Each digit character stands for its own number.
pub proof fn lemma_digit_value(d: nat)
    requires
        d < 10,
    ensures
        digits().contains(digit(d)),
        digit_value(digit(d)) == d,
        digit(d) == '0' <==> d == 0,
{
    assert(digits()[d as int] == digit(d));
}

/// A numeral has at least one character, and each one is a digit.
pub proof fn lemma_decimal_digits(n: nat)
    ensures
        decimal(n).len() >= 1,
        forall|i: int| 0 <= i < decimal(n).len() ==> digits().contains(#[trigger] decimal(n)[i]),
    decreases n,
{
    if n < 10 {
        lemma_digit_value(n);
    } else {
        lemma_digit_value(n % 10);
        lemma_decimal_digits(n / 10);
    }
}

/// The numeral of `n` stands for `n`, and starts with a zero only when it
/// is the numeral of zero.
pub proof fn lemma_decimal_denotes(n: nat)
    ensures
        numeral_value(decimal(n)) == n,
        n == 0 ==> decimal(n) == seq!['0'],
        n > 0 ==> decimal(n)[0] != '0',
    decreases n,
{
    if n < 10 {
        lemma_digit_value(n);
        let one = seq![digit(n)];
        assert(one.drop_last() =~= Seq::<char>::empty());
        assert(numeral_value(one.drop_last()) == 0);
        assert(one.last() == digit(n));
    } else {
        lemma_digit_value(n % 10);
        lemma_decimal_denotes(n / 10);
        lemma_decimal_digits(n / 10);
        let head = decimal(n / 10);
        assert(decimal(n).drop_last() =~= head);
        assert(decimal(n).last() == digit(n % 10));
        assert(decimal(n)[0] == head[0]);
    }
}

/// A field is never shorter than its width nor than its numeral, and it ends
/// with the numeral.
pub proof fn lemma_field_shape(n: nat, width: nat)
    ensures
        field(n, width).len() == if decimal(n).len() >= width {
            decimal(n).len()
        } else {
            width
        },
        field(n, width).subrange(field(n, width).len() - decimal(n).len(), field(n, width).len() as int)
            == decimal(n),
        forall|i: int|
            0 <= i < field(n, width).len() - decimal(n).len() ==> #[trigger] field(n, width)[i]
                == ' ',
{
    let d = decimal(n);
    let f = field(n, width);
    assert(f.subrange(f.len() - d.len(), f.len() as int) =~= d);
}

/// Aligning text to which one character was appended is the same as
/// aligning the shorter text in a field one narrower and appending then.
proof fn lemma_right_aligned_push(s: Seq<char>, c: char, width: nat)
    ensures
        right_aligned(s.push(c), width) == right_aligned(
            s,
            if width >= 1 {
                (width - 1) as nat
            } else {
                0
            },
        ).push(c),
{
    let narrower: nat = if width >= 1 {
        (width - 1) as nat
    } else {
        0
    };
    assert(right_aligned(s.push(c), width) =~= right_aligned(s, narrower).push(c));
}

/// The text of one digit.
fn digit_text(d: u8) -> (s: &'static str)
    requires
        d < 10,
    ensures
        s@ == seq![digit(d as nat)],
{
    proof {
        reveal_strlit("0");
        reveal_strlit("1");
        reveal_strlit("2");
        reveal_strlit("3");
        reveal_strlit("4");
        reveal_strlit("5");
        reveal_strlit("6");
        reveal_strlit("7");
        reveal_strlit("8");
        reveal_strlit("9");
    }
    let s = match d {
        0 => "0",
        1 => "1",
        2 => "2",
        3 => "3",
        4 => "4",
        5 => "5",
        6 => "6",
        7 => "7",
        8 => "8",
        _ => "9",
    };
    assert(s@ =~= seq![digit(d as nat)]);
    s
}

/// Appends `count` blanks to `out`.
pub fn push_spaces(out: &mut String, count: usize)
    ensures
        final(out)@ == old(out)@ + spaces(count as nat),
{
    let mut done: usize = 0;
    assert(out@ =~= old(out)@ + spaces(0));
    while done < count
        invariant
            done <= count,
            out@ == old(out)@ + spaces(done as nat),
        decreases count - done,
    {
        out.append(" ");
        proof {
            reveal_strlit(" ");
            assert(spaces(done as nat) + " "@ =~= spaces((done + 1) as nat));
            assert(out@ =~= old(out)@ + spaces((done + 1) as nat));
        }
        done = done + 1;
    }
}

/// Appends to `out` the numeral of `n`, right-aligned in `width` characters.
pub fn push_field(out: &mut String, n: u128, width: usize)
    ensures
        final(out)@ == old(out)@ + field(n as nat, width as nat),
    decreases n,
{
    let narrower: usize = if width >= 1 {
        width - 1
    } else {
        0
    };
    if n < 10 {
        push_spaces(out, narrower);
        out.append(digit_text(n as u8));
        proof {
            let one = seq![digit(n as nat)];
            assert(right_aligned(one, width as nat) =~= spaces(narrower as nat) + one);
            assert(out@ =~= old(out)@ + field(n as nat, width as nat));
        }
    } else {
        push_field(out, n / 10, narrower);
        out.append(digit_text((n % 10) as u8));
        proof {
            let head = decimal((n / 10) as nat);
            let last = digit((n % 10) as nat);
            lemma_right_aligned_push(head, last, width as nat);
            assert(seq![last] =~= Seq::<char>::empty().push(last));
            assert(out@ =~= old(out)@ + field(n as nat, width as nat));
        }
    }
}

/// Appends to `out` the numeral of `n`.
pub fn push_decimal(out: &mut String, n: u128)
    ensures
        final(out)@ == old(out)@ + decimal(n as nat),
{
    push_field(out, n, 0);
}

} // verus!
