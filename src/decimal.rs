use vstd::prelude::*;

verus! {

/// The character of the decimal digit `d`.
pub open spec fn digit_char(d: int) -> char {
    seq!['0', '1', '2', '3', '4', '5', '6', '7', '8', '9'][d]
}

/// The decimal digits of `n`, most significant first, without leading zeros.
pub open spec fn digits_of(n: nat) -> Seq<char>
    decreases n,
{
    if n < 10 {
        seq![digit_char(n as int)]
    } else {
        digits_of(n / 10).push(digit_char((n % 10) as int))
    }
}

/// The decimal text of `c`, with a leading `-` when it is negative.
pub open spec fn decimal_spec(c: int) -> Seq<char> {
    if c < 0 {
        seq!['-'] + digits_of((-c) as nat)
    } else {
        digits_of(c as nat)
    }
}

fn digit_text(d: u64) -> (r: String)
    requires
        d < 10,
    ensures
        r@ == seq![digit_char(d as int)],
{
    let t = if d == 0 {
        "0"
    } else if d == 1 {
        "1"
    } else if d == 2 {
        "2"
    } else if d == 3 {
        "3"
    } else if d == 4 {
        "4"
    } else if d == 5 {
        "5"
    } else if d == 6 {
        "6"
    } else if d == 7 {
        "7"
    } else if d == 8 {
        "8"
    } else {
        "9"
    };
    proof {
        reveal_strlit("0");
        reveal_strlit("1");
        reveal_strlit("2");
        reveal_strlit("3");
        reveal_strlit("4");
        reveal_strlit("5");
        reveal_strlit("6");
        reveal_strlit("7");
        reveal_strlit("8");
        reveal_strlit("9");
    }
    let r = String::from_str(t);
    assert(r@ =~= seq![digit_char(d as int)]);
    r
}

fn digits(n: u64) -> (r: String)
    ensures
        r@ == digits_of(n as nat),
{
    let mut m: u64 = n;
    let mut acc = String::new();
    while m >= 10
        invariant
            digits_of(n as nat) == digits_of(m as nat) + acc@,
        decreases m,
    {
        let mut t = digit_text(m % 10);
        t.append(acc.as_str());
        proof {
            assert(digits_of(m as nat) == digits_of((m / 10) as nat).push(
                digit_char((m % 10) as int),
            ));
            assert(digits_of(m as nat) + acc@ =~= digits_of((m / 10) as nat) + t@);
        }
        acc = t;
        m = m / 10;
    }
    let mut r = digit_text(m);
    r.append(acc.as_str());
    r
}

/// The decimal text of `c`.
pub fn decimal(c: i32) -> (r: String)
    ensures
        r@ == decimal_spec(c as int),
{
    if c < 0 {
        let magnitude: u64 = (-(c as i64)) as u64;
        let mut r = String::from_str("-");
        proof {
            reveal_strlit("-");
        }
        let d = digits(magnitude);
        r.append(d.as_str());
        r
    } else {
        digits(c as u64)
    }
}

} // verus!
