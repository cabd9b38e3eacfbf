use vstd::prelude::*;

verus! {

/// ASCII whitespace as console input carries it.
pub open spec fn is_space(c: char) -> bool {
    c == ' ' || c == '\t' || c == '\r' || c == '\n'
}

/// `s` with leading whitespace removed.
pub open spec fn trim_front(s: Seq<char>) -> Seq<char>
    decreases s.len(),
{
    if s.len() > 0 && is_space(s[0]) {
        trim_front(s.drop_first())
    } else {
        s
    }
}

/// `s` with trailing whitespace removed.
pub open spec fn trim_back(s: Seq<char>) -> Seq<char>
    decreases s.len(),
{
    if s.len() > 0 && is_space(s[s.len() - 1]) {
        trim_back(s.drop_last())
    } else {
        s
    }
}

/// `s` with leading and trailing whitespace removed.
pub open spec fn trimmed(s: Seq<char>) -> Seq<char> {
    trim_back(trim_front(s))
}

proof fn lemma_trim_front_subrange(s: Seq<char>, i: int)
    requires
        0 <= i <= s.len(),
        forall|k: int| 0 <= k < i ==> is_space(s[k]),
        i == s.len() || !is_space(s[i]),
    ensures
        trim_front(s) == s.subrange(i, s.len() as int),
    decreases i,
{
    if i == 0 {
        assert(s.subrange(0, s.len() as int) =~= s);
    } else {
        let t = s.drop_first();
        assert(t =~= s.subrange(1, s.len() as int));
        lemma_trim_front_subrange(t, i - 1);
        assert(t.subrange(i - 1, t.len() as int) =~= s.subrange(i, s.len() as int));
    }
}

proof fn lemma_trim_back_subrange(s: Seq<char>, j: int)
    requires
        0 <= j <= s.len(),
        forall|k: int| j <= k < s.len() ==> is_space(s[k]),
        j == 0 || !is_space(s[j - 1]),
    ensures
        trim_back(s) == s.subrange(0, j),
    decreases s.len(),
{
    if j == s.len() {
        assert(s.subrange(0, j) =~= s);
    } else {
        assert(is_space(s[s.len() - 1]));
        let t = s.drop_last();
        assert(t =~= s.subrange(0, s.len() - 1));
        lemma_trim_back_subrange(t, j);
        assert(t.subrange(0, j) =~= s.subrange(0, j));
    }
}

fn is_space_char(c: char) -> (r: bool)
    ensures
        r == is_space(c),
{
    c == ' ' || c == '\t' || c == '\r' || c == '\n'
}

/// `s` with leading and trailing ASCII whitespace removed, as the console
/// reader strips every line it hands on.
pub fn trim_str(s: &str) -> (r: String)
    ensures
        r@ == trimmed(s@),
{
    let n = s.unicode_len();
    let mut i: usize = 0;
    while i < n && is_space_char(s.get_char(i))
        invariant
            n == s@.len(),
            i <= n,
            forall|k: int| 0 <= k < i ==> is_space(s@[k]),
        decreases n - i,
    {
        i = i + 1;
    }
    let mut j: usize = n;
    while j > i && is_space_char(s.get_char(j - 1))
        invariant
            n == s@.len(),
            i <= j <= n,
            forall|k: int| j <= k < n ==> is_space(s@[k]),
        decreases j,
    {
        j = j - 1;
    }
    let t = s.substring_char(i, j);
    proof {
        lemma_trim_front_subrange(s@, i as int);
        let t1 = s@.subrange(i as int, n as int);
        lemma_trim_back_subrange(t1, j - i);
        assert(t1.subrange(0, j - i) =~= s@.subrange(i as int, j as int));
    }
    t.to_owned()
}

/// A decimal digit.
pub open spec fn is_digit(c: char) -> bool {
    c == '0' || c == '1' || c == '2' || c == '3' || c == '4' || c == '5' || c == '6' || c == '7'
        || c == '8' || c == '9'
}

/// The value of a decimal digit (zero for any other character, a case no
/// caller uses).
pub open spec fn digit_val(c: char) -> u64 {
    if c == '1' {
        1
    } else if c == '2' {
        2
    } else if c == '3' {
        3
    } else if c == '4' {
        4
    } else if c == '5' {
        5
    } else if c == '6' {
        6
    } else if c == '7' {
        7
    } else if c == '8' {
        8
    } else if c == '9' {
        9
    } else {
        0
    }
}

/// Every character of `s` is a decimal digit.
pub open spec fn all_digits(s: Seq<char>) -> bool {
    forall|k: int| 0 <= k < s.len() ==> is_digit(s[k])
}

/// The numeric value of a digit string, most significant digit first.
pub open spec fn digits_value(s: Seq<char>) -> int
    decreases s.len(),
{
    if s.len() == 0 {
        0
    } else {
        digits_value(s.drop_last()) * 10 + digit_val(s.last())
    }
}

proof fn lemma_digits_value_nonneg(s: Seq<char>)
    ensures
        digits_value(s) >= 0,
    decreases s.len(),
{
    if s.len() > 0 {
        lemma_digits_value_nonneg(s.drop_last());
        assert(digits_value(s.drop_last()) * 10 >= 0) by (nonlinear_arith)
            requires
                digits_value(s.drop_last()) >= 0,
        ;
    }
}

proof fn lemma_digits_value_prefix_le(s: Seq<char>, k: int)
    requires
        0 <= k <= s.len(),
    ensures
        digits_value(s.take(k)) <= digits_value(s),
    decreases s.len(),
{
    if k == s.len() {
        assert(s.take(k) =~= s);
    } else {
        let t = s.drop_last();
        lemma_digits_value_prefix_le(t, k);
        assert(t.take(k) =~= s.take(k));
        lemma_digits_value_nonneg(t);
        assert(digits_value(t) * 10 + digit_val(s.last()) >= digits_value(t)) by (nonlinear_arith)
            requires
                digits_value(t) >= 0,
                digit_val(s.last()) >= 0,
        ;
    }
}

fn digit_value_of(c: char) -> (r: Option<u64>)
    ensures
        r is Some <==> is_digit(c),
        r matches Some(v) ==> v == digit_val(c) && v < 10,
{
    if c == '0' {
        Some(0)
    } else if c == '1' {
        Some(1)
    } else if c == '2' {
        Some(2)
    } else if c == '3' {
        Some(3)
    } else if c == '4' {
        Some(4)
    } else if c == '5' {
        Some(5)
    } else if c == '6' {
        Some(6)
    } else if c == '7' {
        Some(7)
    } else if c == '8' {
        Some(8)
    } else if c == '9' {
        Some(9)
    } else {
        None
    }
}

/// Parse an operator line as a non-negative whole number of hours.
/// Succeeds exactly on a non-empty string of decimal digits whose value
/// fits in a `u64`; everything else is rejected and re-prompted for.
pub fn parse_interval_hours(s: &str) -> (r: Option<u64>)
    ensures
        (s@.len() > 0 && all_digits(s@) && digits_value(s@) <= u64::MAX) ==> (r matches Some(v)
            && v == digits_value(s@)),
        r matches Some(v) ==> (s@.len() > 0 && all_digits(s@) && digits_value(s@) == v),
{
    let n = s.unicode_len();
    if n == 0 {
        return None;
    }
    let mut i: usize = 0;
    let mut acc: u64 = 0;
    while i < n
        invariant
            n == s@.len(),
            0 < n,
            i <= n,
            all_digits(s@.take(i as int)),
            acc == digits_value(s@.take(i as int)),
        decreases n - i,
    {
        let c = s.get_char(i);
        match digit_value_of(c) {
            None => {
                proof {
                    assert(!is_digit(s@[i as int]));
                }
                return None;
            },
            Some(d) => {
                proof {
                    let p = s@.take(i + 1);
                    assert(p.drop_last() =~= s@.take(i as int));
                    assert(p.last() == s@[i as int]);
                    vstd::arithmetic::div_mod::lemma_fundamental_div_mod(
                        (u64::MAX - d) as int,
                        10,
                    );
                    vstd::arithmetic::div_mod::lemma_mod_bound((u64::MAX - d) as int, 10);
                }
                if acc > (u64::MAX - d) / 10 {
                    proof {
                        // The first i + 1 digits alone exceed u64::MAX, and
                        // appending further digits never shrinks the value.
                        assert(acc * 10 >= ((u64::MAX - d) / 10 + 1) * 10) by (nonlinear_arith)
                            requires
                                acc >= (u64::MAX - d) / 10 + 1,
                        ;
                        lemma_digits_value_prefix_le(s@, i + 1);
                    }
                    return None;
                }
                proof {
                    assert(acc * 10 <= ((u64::MAX - d) / 10) * 10) by (nonlinear_arith)
                        requires
                            acc <= (u64::MAX - d) / 10,
                    ;
                }
                acc = acc * 10 + d;
            },
        }
        i = i + 1;
    }
    proof {
        assert(s@.take(n as int) =~= s@);
    }
    Some(acc)
}

/// The target name as the watchdog resolves it: the operator's line,
/// trimmed, with the platform executable suffix appended.
pub fn target_with_suffix(name: &str) -> (r: String)
    ensures
        r@ == trimmed(name@) + ".exe"@,
{
    let mut r = trim_str(name);
    r.append(".exe");
    r
}

} // verus!
