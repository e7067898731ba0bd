//! Decimal rendering of numbers and the composed names, descriptors and
//! loop headers that the syntax tables print.
use vstd::prelude::*;

verus! {

/// The character of a decimal digit.
pub open spec fn digit_char(d: nat) -> char {
    if d == 0 {
        '0'
    } else if d == 1 {
        '1'
    } else if d == 2 {
        '2'
    } else if d == 3 {
        '3'
    } else if d == 4 {
        '4'
    } else if d == 5 {
        '5'
    } else if d == 6 {
        '6'
    } else if d == 7 {
        '7'
    } else if d == 8 {
        '8'
    } else {
        '9'
    }
}

/// The decimal text of `n`, most significant digit first, without leading zeros.
pub open spec fn dec(n: nat) -> Seq<char>
    decreases n,
{
    if n < 10 {
        seq![digit_char(n)]
    } else {
        dec(n / 10).push(digit_char(n % 10))
    }
}

/// `name[i]`
pub open spec fn idx1(name: Seq<char>, i: nat) -> Seq<char> {
    name + seq!['['] + dec(i) + seq![']']
}

/// `name[i][j]`
pub open spec fn idx2(name: Seq<char>, i: nat, j: nat) -> Seq<char> {
    idx1(name, i) + seq!['['] + dec(j) + seq![']']
}

/// `name[i][j][k]`
pub open spec fn idx3(name: Seq<char>, i: nat, j: nat, k: nat) -> Seq<char> {
    idx2(name, i, j) + seq!['['] + dec(k) + seq![']']
}

/// The descriptor `u(bits)` of an unsigned fixed-width field.
pub open spec fn u_desc(bits: u32) -> Seq<char> {
    seq!['u', '('] + dec(bits as nat) + seq![')']
}

/// `prefix` + decimal text of `n` + `suffix`.
pub open spec fn around(prefix: Seq<char>, n: nat, suffix: Seq<char>) -> Seq<char> {
    prefix + dec(n) + suffix
}

fn digit_str(d: u64) -> (s: &'static str)
    requires
        d < 10,
    ensures
        s@ == seq![digit_char(d as nat)],
{
    proof {
        reveal_strlit("0");
        reveal_strlit("1");
        reveal_strlit("2");
        reveal_strlit("3");
        reveal_strlit("4");
        reveal_strlit("5");
        reveal_strlit("6");
        reveal_strlit("7");
        reveal_strlit("8");
        reveal_strlit("9");
    }
    if d == 0 {
        "0"
    } else if d == 1 {
        "1"
    } else if d == 2 {
        "2"
    } else if d == 3 {
        "3"
    } else if d == 4 {
        "4"
    } else if d == 5 {
        "5"
    } else if d == 6 {
        "6"
    } else if d == 7 {
        "7"
    } else if d == 8 {
        "8"
    } else {
        "9"
    }
}

/// Appends the decimal text of `n` to `s`.
pub fn push_decimal(s: &mut String, n: u64)
    ensures
        final(s)@ == old(s)@ + dec(n as nat),
    decreases n,
{
    if n < 10 {
        s.append(digit_str(n));
    } else {
        push_decimal(s, n / 10);
        s.append(digit_str(n % 10));
        assert(dec(n as nat) == dec((n / 10) as nat).push(digit_char((n % 10) as nat)));
    }
}

/// The decimal text of `n`.
pub fn decimal(n: u64) -> (s: String)
    ensures
        s@ == dec(n as nat),
{
    let mut s = String::new();
    push_decimal(&mut s, n);
    assert(s@ =~= dec(n as nat));
    s
}

/// `name[i]`
pub fn indexed1(name: &str, i: u64) -> (s: String)
    ensures
        s@ == idx1(name@, i as nat),
{
    proof {
        reveal_strlit("[");
        reveal_strlit("]");
    }
    let mut s = String::from_str(name);
    s.append("[");
    push_decimal(&mut s, i);
    s.append("]");
    s
}

/// `name[i][j]`
pub fn indexed2(name: &str, i: u64, j: u64) -> (s: String)
    ensures
        s@ == idx2(name@, i as nat, j as nat),
{
    proof {
        reveal_strlit("[");
        reveal_strlit("]");
    }
    let mut s = indexed1(name, i);
    s.append("[");
    push_decimal(&mut s, j);
    s.append("]");
    s
}

/// `name[i][j][k]`
pub fn indexed3(name: &str, i: u64, j: u64, k: u64) -> (s: String)
    ensures
        s@ == idx3(name@, i as nat, j as nat, k as nat),
{
    proof {
        reveal_strlit("[");
        reveal_strlit("]");
    }
    let mut s = indexed2(name, i, j);
    s.append("[");
    push_decimal(&mut s, k);
    s.append("]");
    s
}

/// The descriptor `u(bits)`.
pub fn u_descriptor(bits: u32) -> (s: String)
    ensures
        s@ == u_desc(bits),
{
    proof {
        reveal_strlit("u(");
        reveal_strlit(")");
    }
    let mut s = String::from_str("u(");
    push_decimal(&mut s, bits as u64);
    s.append(")");
    assert(s@ =~= u_desc(bits));
    s
}

/// `prefix` followed by the decimal text of `n` and by `suffix`.
pub fn number_between(prefix: &str, n: u64, suffix: &str) -> (s: String)
    ensures
        s@ == around(prefix@, n as nat, suffix@),
{
    let mut s = String::from_str(prefix);
    push_decimal(&mut s, n);
    s.append(suffix);
    s
}

/// `middle` between `prefix` and `suffix`.
pub fn enclose(prefix: &str, middle: String, suffix: &str) -> (s: String)
    ensures
        s@ == prefix@ + middle@ + suffix@,
{
    let mut s = String::from_str(prefix);
    s.append(middle.as_str());
    s.append(suffix);
    s
}

} // verus!
