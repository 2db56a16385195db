//! Decimal rendering of counters and right alignment in a fixed-width field.
use vstd::prelude::*;

verus! {

/// Width of the field that holds a line number.
pub const NUMBER_WIDTH: usize = 6;

/// The character that writes the decimal digit `d`.
pub open spec fn digit_char(d: nat) -> char {
    seq!['0', '1', '2', '3', '4', '5', '6', '7', '8', '9'][d as int]
}

/// Decimal digits of `n`, most significant first, with no leading zeros.
pub open spec fn decimal(n: nat) -> Seq<char>
    decreases n,
{
    if n < 10 {
        seq![digit_char(n)]
    } else {
        decimal(n / 10).push(digit_char(n % 10))
    }
}

/// `s` preceded by as many spaces as needed to fill `width` characters;
/// `s` itself when it is already that wide or wider.
pub open spec fn right_align(s: Seq<char>, width: nat) -> Seq<char> {
    if s.len() < width {
        Seq::new((width - s.len()) as nat, |i: int| ' ') + s
    } else {
        s
    }
}

/// A number as it stands in front of a numbered line.
pub open spec fn number_field_of(n: nat) -> Seq<char> {
    right_align(decimal(n), NUMBER_WIDTH as nat)
}

fn digit_str(d: usize) -> (r: &'static str)
    requires
        d < 10,
    ensures
        r@ == seq![digit_char(d as nat)],
{
    proof {
        reveal_strlit("0");
        reveal_strlit("1");
        reveal_strlit("2");
        reveal_strlit("3");
        reveal_strlit("4");
        reveal_strlit("5");
        reveal_strlit("6");
        reveal_strlit("7");
        reveal_strlit("8");
        reveal_strlit("9");
    }
    match d {
        0 => "0",
        1 => "1",
        2 => "2",
        3 => "3",
        4 => "4",
        5 => "5",
        6 => "6",
        7 => "7",
        8 => "8",
        _ => "9",
    }
}

/// The decimal digits of `n`.
pub fn decimal_string(n: usize) -> (r: String)
    ensures
        r@ == decimal(n as nat),
    decreases n,
{
    if n < 10 {
        String::from_str(digit_str(n))
    } else {
        let mut s = decimal_string(n / 10);
        s.append(digit_str(n % 10));
        s
    }
}

/// `s` right-aligned in a field of `width` characters, padded with spaces.
pub fn right_aligned(s: &str, width: usize) -> (r: String)
    ensures
        r@ == right_align(s@, width as nat),
{
    proof {
        reveal_strlit(" ");
        assert(" "@ =~= seq![' ']);
    }
    let len = s.unicode_len();
    let mut r = String::new();
    if len < width {
        let pad = width - len;
        let mut i: usize = 0;
        while i < pad
            invariant
                i <= pad,
                " "@ == seq![' '],
                r@ == Seq::new(i as nat, |j: int| ' '),
            decreases pad - i,
        {
            r.append(" ");
            i = i + 1;
            assert(r@ =~= Seq::new(i as nat, |j: int| ' '));
        }
    }
    r.append(s);
    assert(r@ =~= right_align(s@, width as nat));
    r
}

/// `n` in decimal, right-aligned in the line-number field.
pub fn number_field(n: usize) -> (r: String)
    ensures
        r@ == number_field_of(n as nat),
{
    let digits = decimal_string(n);
    right_aligned(digits.as_str(), NUMBER_WIDTH)
}

} // verus!
