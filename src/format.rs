//! Decimal rendering of line numbers and the layout of a numbered line.
use vstd::prelude::*;
use vstd::string::*;

verus! {

/// Minimum width of the right-aligned line-number field.
pub const NUMBER_WIDTH: usize = 6;

/// The ASCII digit for a value below ten.
pub open spec fn digit_char(d: nat) -> char {
    if d == 0 {
        '0'
    } else if d == 1 {
        '1'
    } else if d == 2 {
        '2'
    } else if d == 3 {
        '3'
    } else if d == 4 {
        '4'
    } else if d == 5 {
        '5'
    } else if d == 6 {
        '6'
    } else if d == 7 {
        '7'
    } else if d == 8 {
        '8'
    } else {
        '9'
    }
}

/// Base-ten digits of `n`, most significant first, without leading zeros.
pub open spec fn decimal(n: nat) -> Seq<char>
    decreases n,
{
    if n < 10 {
        seq![digit_char(n)]
    } else {
        decimal(n / 10).push(digit_char(n % 10))
    }
}

/// `k` space characters.
pub open spec fn spaces(k: nat) -> Seq<char> {
    Seq::new(k, |_i: int| ' ')
}

/// `s` preceded by spaces so that it is at least `width` characters long.
pub open spec fn pad_left(s: Seq<char>, width: nat) -> Seq<char> {
    if s.len() >= width {
        s
    } else {
        spaces((width - s.len()) as nat) + s
    }
}

/// A line carrying number `n`: the number right-aligned in a field of
/// at least six characters, one space, then the text.
pub open spec fn numbered_line(n: nat, text: Seq<char>) -> Seq<char> {
    pad_left(decimal(n), NUMBER_WIDTH as nat) + seq![' '] + text
}

fn digit_str(d: usize) -> (r: &'static str)
    requires
        d < 10,
    ensures
        r@ == seq![digit_char(d as nat)],
{
    proof {
        reveal_strlit("0");
        reveal_strlit("1");
        reveal_strlit("2");
        reveal_strlit("3");
        reveal_strlit("4");
        reveal_strlit("5");
        reveal_strlit("6");
        reveal_strlit("7");
        reveal_strlit("8");
        reveal_strlit("9");
    }
    if d == 0 {
        "0"
    } else if d == 1 {
        "1"
    } else if d == 2 {
        "2"
    } else if d == 3 {
        "3"
    } else if d == 4 {
        "4"
    } else if d == 5 {
        "5"
    } else if d == 6 {
        "6"
    } else if d == 7 {
        "7"
    } else if d == 8 {
        "8"
    } else {
        "9"
    }
}

/// Number of decimal digits of `n`.
pub fn digit_count(n: usize) -> (r: usize)
    ensures
        r as nat == decimal(n as nat).len(),
        1 <= r,
        r as int <= n as int + 1,
    decreases n,
{
    if n < 10 {
        1
    } else {
        let r = digit_count(n / 10);
        r + 1
    }
}

/// Appends the decimal digits of `n` to `out`.
pub fn push_decimal(out: &mut String, n: usize)
    ensures
        final(out)@ == old(out)@ + decimal(n as nat),
    decreases n,
{
    if n >= 10 {
        push_decimal(out, n / 10);
    }
    out.append(digit_str(n % 10));
    proof {
        if n >= 10 {
            assert(old(out)@ + decimal(n as nat) =~= old(out)@ + decimal((n / 10) as nat) + seq![
                digit_char((n % 10) as nat),
            ]);
        }
    }
}

/// Formats `text` as line number `n`: the number right-aligned in a field
/// of at least six characters, a single space, then the text unchanged.
pub fn format_numbered(n: usize, text: &str) -> (r: String)
    ensures
        r@ == numbered_line(n as nat, text@),
{
    let len = digit_count(n);
    let mut out = String::new();
    let mut k: usize = len;
    proof {
        reveal_strlit(" ");
    }
    while k < NUMBER_WIDTH
        invariant
            len <= k <= NUMBER_WIDTH || (len == k && k >= NUMBER_WIDTH),
            len as nat == decimal(n as nat).len(),
            out@ == spaces((k - len) as nat),
        decreases NUMBER_WIDTH - k,
    {
        proof {
            reveal_strlit(" ");
        }
        out.append(" ");
        k = k + 1;
        assert(out@ =~= spaces((k - len) as nat));
    }
    push_decimal(&mut out, n);
    out.append(" ");
    out.append(text);
    proof {
        if len >= NUMBER_WIDTH {
            assert(spaces(0) =~= Seq::<char>::empty());
        }
        assert(out@ =~= numbered_line(n as nat, text@));
    }
    out
}

} // verus!
