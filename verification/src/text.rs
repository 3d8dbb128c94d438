//! Small verified text utilities: character-wise string equality and the
//! decimal rendering used to synthesize parameter names.

use vstd::prelude::*;

verus! {

/// Character-wise equality of two string slices.
pub fn str_eq(a: &str, b: &str) -> (r: bool)
    ensures
        r == (a@ == b@),
{
    let na = a.unicode_len();
    let nb = b.unicode_len();
    if na != nb {
        return false;
    }
    let mut i: usize = 0;
    while i < na
        invariant
            na == a@.len(),
            nb == b@.len(),
            na == nb,
            i <= na,
            forall|k: int| 0 <= k < i ==> a@[k] == b@[k],
        decreases na - i,
    {
        if a.get_char(i) != b.get_char(i) {
            return false;
        }
        i = i + 1;
    }
    proof {
        assert(a@ =~= b@);
    }
    true
}

/// The decimal digit character for `d`.
pub open spec fn digit_char(d: int) -> char {
    if d == 0 { '0' }
    else if d == 1 { '1' }
    else if d == 2 { '2' }
    else if d == 3 { '3' }
    else if d == 4 { '4' }
    else if d == 5 { '5' }
    else if d == 6 { '6' }
    else if d == 7 { '7' }
    else if d == 8 { '8' }
    else { '9' }
}

/// The usual decimal rendering of `n`, most significant digit first, with
/// no leading zeroes (`0` itself renders as `"0"`).
pub open spec fn dec_rep(n: nat) -> Seq<char>
    decreases n,
{
    if n < 10 {
        seq![digit_char(n as int)]
    } else {
        dec_rep(n / 10) + seq![digit_char((n % 10) as int)]
    }
}

/// A decimal rendering is never empty, and is a single character exactly
/// for a single digit.
pub proof fn lemma_dec_rep_len(n: nat)
    ensures
        dec_rep(n).len() >= 1,
        n < 10 <==> dec_rep(n).len() == 1,
    decreases n,
{
    if n >= 10 {
        lemma_dec_rep_len(n / 10);
    }
}

/// Decimal rendering is injective: distinct numbers render as distinct
/// character sequences.
pub proof fn lemma_dec_rep_injective(m: nat, n: nat)
    requires
        dec_rep(m) == dec_rep(n),
    ensures
        m == n,
    decreases m,
{
    let sm = dec_rep(m);
    let sn = dec_rep(n);
    if m < 10 && n < 10 {
        assert(sm[0] == digit_char(m as int));
        assert(sn[0] == digit_char(n as int));
    } else if m < 10 || n < 10 {
        lemma_dec_rep_len(m);
        lemma_dec_rep_len(n);
    } else {
        lemma_dec_rep_len(m / 10);
        lemma_dec_rep_len(n / 10);
        assert(sm.last() == digit_char((m % 10) as int));
        assert(sn.last() == digit_char((n % 10) as int));
        assert(m % 10 == n % 10);
        assert(sm.drop_last() =~= dec_rep(m / 10));
        assert(sn.drop_last() =~= dec_rep(n / 10));
        lemma_dec_rep_injective(m / 10, n / 10);
    }
}

fn digit_str(d: u64) -> (r: &'static str)
    requires
        d < 10,
    ensures
        r@ == seq![digit_char(d as int)],
{
    let r = if d == 0 { "0" }
    else if d == 1 { "1" }
    else if d == 2 { "2" }
    else if d == 3 { "3" }
    else if d == 4 { "4" }
    else if d == 5 { "5" }
    else if d == 6 { "6" }
    else if d == 7 { "7" }
    else if d == 8 { "8" }
    else { "9" };
    proof {
        reveal_strlit("0");
        reveal_strlit("1");
        reveal_strlit("2");
        reveal_strlit("3");
        reveal_strlit("4");
        reveal_strlit("5");
        reveal_strlit("6");
        reveal_strlit("7");
        reveal_strlit("8");
        reveal_strlit("9");
        assert(r@ =~= seq![digit_char(d as int)]);
    }
    r
}

/// Renders `n` in decimal.
pub fn dec_string(n: u64) -> (r: String)
    ensures
        r@ == dec_rep(n as nat),
    decreases n,
{
    if n < 10 {
        digit_str(n).to_owned()
    } else {
        let mut s = dec_string(n / 10);
        s.append(digit_str(n % 10));
        proof {
            assert(s@ =~= dec_rep(n as nat));
        }
        s
    }
}

} // verus!
