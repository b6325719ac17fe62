//! Text for messages.
use vstd::prelude::*;
use vstd::string::StringExecFns;

verus! {

/// The decimal digits of a number, without leading zeros.
pub open spec fn decimal_text(n: nat) -> Seq<char>
    decreases n,
{
    if n < 10 {
        seq![(48 + n) as char]
    } else {
        decimal_text(n / 10).push((48 + n % 10) as char)
    }
}

fn digit(d: u64) -> (r: &'static str)
    requires
        d < 10,
    ensures
        r@ == seq![(48 + d) as char],
{
    proof {
        reveal_strlit("0");
        reveal_strlit("1");
        reveal_strlit("2");
        reveal_strlit("3");
        reveal_strlit("4");
        reveal_strlit("5");
        reveal_strlit("6");
        reveal_strlit("7");
        reveal_strlit("8");
        reveal_strlit("9");
    }
    let r = if d == 0 {
        "0"
    } else if d == 1 {
        "1"
    } else if d == 2 {
        "2"
    } else if d == 3 {
        "3"
    } else if d == 4 {
        "4"
    } else if d == 5 {
        "5"
    } else if d == 6 {
        "6"
    } else if d == 7 {
        "7"
    } else if d == 8 {
        "8"
    } else {
        "9"
    };
    assert(r@ =~= seq![(48 + d) as char]);
    r
}

/// Appends a decimal number.
pub fn append_decimal(s: &mut String, n: u64)
    ensures
        final(s)@ == old(s)@ + decimal_text(n as nat),
    decreases n,
{
    if n >= 10 {
        append_decimal(s, n / 10);
    }
    s.append(digit(n % 10));
    assert(s@ =~= old(s)@ + decimal_text(n as nat));
}

/// A decimal number.
pub fn decimal(n: u64) -> (r: String)
    ensures
        r@ == decimal_text(n as nat),
{
    let mut s = String::new();
    append_decimal(&mut s, n);
    assert(s@ =~= decimal_text(n as nat));
    s
}

/// The decimal digits of a number, behind a minus sign where it is negative.
pub open spec fn signed_decimal_text(n: int) -> Seq<char> {
    if n < 0 {
        "-"@ + decimal_text((-n) as nat)
    } else {
        decimal_text(n as nat)
    }
}

/// A decimal number, which may be negative.
pub fn signed_decimal(n: i32) -> (r: String)
    ensures
        r@ == signed_decimal_text(n as int),
{
    if n < 0 {
        let magnitude: i64 = -(n as i64);
        label_with_number("-", magnitude as u64)
    } else {
        decimal(n as u64)
    }
}

/// Whether two texts are the same.
pub fn same_text(a: &str, b: &str) -> (r: bool)
    ensures
        r == (a@ == b@),
{
    let x: String = a.to_owned();
    let y: String = b.to_owned();
    x == y
}

/// Two texts, one behind the other.
pub fn joined(head: &str, tail: &str) -> (r: String)
    ensures
        r@ == head@ + tail@,
{
    let mut s = head.to_owned();
    s.append(tail);
    s
}

/// A label followed by a decimal number.
pub fn label_with_number(label: &str, n: u64) -> (r: String)
    ensures
        r@ == label@ + decimal_text(n as nat),
{
    let mut s = label.to_owned();
    append_decimal(&mut s, n);
    s
}

/// The number that decimal digits stand for.
pub open spec fn decimal_value(s: Seq<char>) -> nat
    decreases s.len(),
{
    if s.len() == 0 {
        0
    } else {
        (10 * decimal_value(s.drop_last()) + (s.last() as int - 48)) as nat
    }
}

/// The text of a number is made of digits, has no leading zero, and stands for the
/// number.
pub proof fn decimal_text_reads_back(n: nat, i: int)
    ensures
        decimal_value(decimal_text(n)) == n,
        decimal_text(n).len() > 0,
        0 <= i < decimal_text(n).len() ==> 48 <= decimal_text(n)[i] as int <= 57,
        n > 0 ==> decimal_text(n)[0] as int != 48,
    decreases n,
{
    reveal_with_fuel(decimal_value, 2);
    let t = decimal_text(n);
    if n < 10 {
        assert(t.drop_last() =~= Seq::<char>::empty());
    } else {
        decimal_text_reads_back(n / 10, i);
        decimal_text_reads_back(n / 10, 0);
        assert(t.drop_last() =~= decimal_text(n / 10));
        assert(t.last() as int == 48 + n % 10);
    }
}

/// A negative number is written as its magnitude behind a minus sign, another one
/// as it is.
pub proof fn signs_are_written_first(n: nat)
    ensures
        n > 0 ==> signed_decimal_text(-n) == seq!['-'] + decimal_text(n),
        signed_decimal_text(n as int) == decimal_text(n),
{
    reveal_strlit("-");
    assert("-"@ =~= seq!['-']);
}

} // verus!
