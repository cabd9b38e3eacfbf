use vstd::prelude::*;

verus! {

/// The decimal digit character for a value below ten (and '0' otherwise,
/// a case no caller uses).
pub open spec fn digit_char(d: u64) -> char {
    if d == 1 {
        '1'
    } else if d == 2 {
        '2'
    } else if d == 3 {
        '3'
    } else if d == 4 {
        '4'
    } else if d == 5 {
        '5'
    } else if d == 6 {
        '6'
    } else if d == 7 {
        '7'
    } else if d == 8 {
        '8'
    } else if d == 9 {
        '9'
    } else {
        '0'
    }
}

/// The decimal digits of `n`, most significant first, with no leading
/// zeros (a single '0' for zero itself).
pub open spec fn dec_digits(n: u64) -> Seq<char>
    decreases n,
{
    if n < 10 {
        seq![digit_char(n)]
    } else {
        dec_digits(n / 10).push(digit_char(n % 10))
    }
}

/// `n` as decimal digits, zero-padded on the left to at least two places.
pub open spec fn pad2_digits(n: u64) -> Seq<char> {
    if n < 10 {
        seq!['0'] + dec_digits(n)
    } else {
        dec_digits(n)
    }
}

/// A clock display `HH:MM:SS`, each field zero-padded to two places.
pub open spec fn clock_digits(h: u64, m: u64, s: u64) -> Seq<char> {
    pad2_digits(h) + seq![':'] + pad2_digits(m) + seq![':'] + pad2_digits(s)
}

fn digit_str(d: u64) -> (r: &'static str)
    requires
        d < 10,
    ensures
        r@ == seq![digit_char(d)],
{
    if d == 1 {
        let r = "1";
        proof {
            reveal_strlit("1");
            assert(r@ =~= seq![digit_char(d)]);
        }
        r
    } else if d == 2 {
        let r = "2";
        proof {
            reveal_strlit("2");
            assert(r@ =~= seq![digit_char(d)]);
        }
        r
    } else if d == 3 {
        let r = "3";
        proof {
            reveal_strlit("3");
            assert(r@ =~= seq![digit_char(d)]);
        }
        r
    } else if d == 4 {
        let r = "4";
        proof {
            reveal_strlit("4");
            assert(r@ =~= seq![digit_char(d)]);
        }
        r
    } else if d == 5 {
        let r = "5";
        proof {
            reveal_strlit("5");
            assert(r@ =~= seq![digit_char(d)]);
        }
        r
    } else if d == 6 {
        let r = "6";
        proof {
            reveal_strlit("6");
            assert(r@ =~= seq![digit_char(d)]);
        }
        r
    } else if d == 7 {
        let r = "7";
        proof {
            reveal_strlit("7");
            assert(r@ =~= seq![digit_char(d)]);
        }
        r
    } else if d == 8 {
        let r = "8";
        proof {
            reveal_strlit("8");
            assert(r@ =~= seq![digit_char(d)]);
        }
        r
    } else if d == 9 {
        let r = "9";
        proof {
            reveal_strlit("9");
            assert(r@ =~= seq![digit_char(d)]);
        }
        r
    } else {
        let r = "0";
        proof {
            reveal_strlit("0");
            assert(r@ =~= seq![digit_char(d)]);
        }
        r
    }
}

/// `n` rendered as decimal digits, most significant first.
pub fn dec_string(n: u64) -> (r: String)
    ensures
        r@ == dec_digits(n),
    decreases n,
{
    if n < 10 {
        digit_str(n).to_owned()
    } else {
        let mut r = dec_string(n / 10);
        r.append(digit_str(n % 10));
        proof {
            assert(r@ =~= dec_digits(n));
        }
        r
    }
}

/// `n` rendered as decimal digits, zero-padded to at least two places.
pub fn pad2_string(n: u64) -> (r: String)
    ensures
        r@ == pad2_digits(n),
{
    if n < 10 {
        let mut r = "0".to_owned();
        r.append(digit_str(n));
        proof {
            reveal_strlit("0");
            assert(r@ =~= pad2_digits(n));
        }
        r
    } else {
        dec_string(n)
    }
}

/// A clock display `HH:MM:SS`, each field zero-padded to two places.
pub fn clock_string(h: u64, m: u64, s: u64) -> (r: String)
    ensures
        r@ == clock_digits(h, m, s),
{
    let mut r = pad2_string(h);
    r.append(":");
    r.append(pad2_string(m).as_str());
    r.append(":");
    r.append(pad2_string(s).as_str());
    proof {
        reveal_strlit(":");
        assert(r@ =~= clock_digits(h, m, s));
    }
    r
}

} // verus!
