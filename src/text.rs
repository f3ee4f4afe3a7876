//! Decimal notation of integers and small text helpers.
use vstd::prelude::*;

verus! {

/// The character of a decimal digit `d < 10`.
pub open spec fn digit_char(d: nat) -> char {
    if d == 0 { '0' }
    else if d == 1 { '1' }
    else if d == 2 { '2' }
    else if d == 3 { '3' }
    else if d == 4 { '4' }
    else if d == 5 { '5' }
    else if d == 6 { '6' }
    else if d == 7 { '7' }
    else if d == 8 { '8' }
    else { '9' }
}

/// Decimal digits of `n`, most significant first, without leading zeros.
pub open spec fn digits(n: nat) -> Seq<char>
    decreases n,
{
    if n < 10 {
        seq![digit_char(n)]
    } else {
        digits(n / 10) + seq![digit_char(n % 10)]
    }
}

/// Decimal notation of an integer, with a leading `-` when negative.
pub open spec fn decimal(v: int) -> Seq<char> {
    if v < 0 {
        seq!['-'] + digits((-v) as nat)
    } else {
        digits(v as nat)
    }
}

fn push_digit(out: &mut String, d: u64)
    requires
        d < 10,
    ensures
        final(out)@ == old(out)@ + seq![digit_char(d as nat)],
{
    if d == 0 {
        proof { reveal_strlit("0"); }
        out.append("0");
    } else if d == 1 {
        proof { reveal_strlit("1"); }
        out.append("1");
    } else if d == 2 {
        proof { reveal_strlit("2"); }
        out.append("2");
    } else if d == 3 {
        proof { reveal_strlit("3"); }
        out.append("3");
    } else if d == 4 {
        proof { reveal_strlit("4"); }
        out.append("4");
    } else if d == 5 {
        proof { reveal_strlit("5"); }
        out.append("5");
    } else if d == 6 {
        proof { reveal_strlit("6"); }
        out.append("6");
    } else if d == 7 {
        proof { reveal_strlit("7"); }
        out.append("7");
    } else if d == 8 {
        proof { reveal_strlit("8"); }
        out.append("8");
    } else {
        proof { reveal_strlit("9"); }
        out.append("9");
    }
}

/// Appends the decimal digits of `n`.
pub fn push_digits(out: &mut String, n: u64)
    ensures
        final(out)@ == old(out)@ + digits(n as nat),
    decreases n,
{
    if n >= 10 {
        push_digits(out, n / 10);
        push_digit(out, n % 10);
    } else {
        push_digit(out, n);
    }
}

/// Decimal notation of `v`.
pub fn int_text(v: i64) -> (r: String)
    ensures
        r@ == decimal(v as int),
{
    let mut r = String::new();
    if v < 0 {
        proof { reveal_strlit("-"); }
        r.append("-");
        let m = (0 - (v as i128)) as u64;
        push_digits(&mut r, m);
    } else {
        push_digits(&mut r, v as u64);
    }
    r
}

/// Decimal notation of `v`.
pub fn nat_text(v: u64) -> (r: String)
    ensures
        r@ == decimal(v as int),
{
    let mut r = String::new();
    push_digits(&mut r, v);
    r
}

/// Decimal notation of `v`.
pub fn index_text(v: usize) -> (r: String)
    ensures
        r@ == decimal(v as int),
{
    let mut r = String::new();
    push_digits(&mut r, v as u64);
    r
}

/// No decimal notation holds a line break.
pub proof fn lemma_digits_no_newline(n: nat)
    ensures
        !digits(n).contains('\n'),
    decreases n,
{
    if n >= 10 {
        lemma_digits_no_newline(n / 10);
        let a = digits(n / 10);
        let b = seq![digit_char(n % 10)];
        assert forall|k: int| 0 <= k < (a + b).len() implies (a + b)[k] != '\n' by {
            if k < a.len() {
                assert((a + b)[k] == a[k]);
            } else {
                assert((a + b)[k] == b[k - a.len()]);
            }
        }
    }
}

/// No decimal notation holds a line break.
pub proof fn lemma_decimal_no_newline(v: int)
    ensures
        !decimal(v).contains('\n'),
{
    if v < 0 {
        lemma_digits_no_newline((-v) as nat);
        let a = seq!['-'];
        let b = digits((-v) as nat);
        assert forall|k: int| 0 <= k < (a + b).len() implies (a + b)[k] != '\n' by {
            if k < a.len() {
                assert((a + b)[k] == a[k]);
            } else {
                assert((a + b)[k] == b[k - a.len()]);
            }
        }
    } else {
        lemma_digits_no_newline(v as nat);
    }
}

} // verus!
