//! Decimal rendering of indices and string comparison, used to form the
//! per-position identifiers of the recent-files submenu.

use vstd::prelude::*;
use vstd::string::StringExecFns;

verus! {

/// The character for one decimal digit.
pub open spec fn digit_char(d: nat) -> char {
    if d == 0 {
        '0'
    } else if d == 1 {
        '1'
    } else if d == 2 {
        '2'
    } else if d == 3 {
        '3'
    } else if d == 4 {
        '4'
    } else if d == 5 {
        '5'
    } else if d == 6 {
        '6'
    } else if d == 7 {
        '7'
    } else if d == 8 {
        '8'
    } else {
        '9'
    }
}

/// The usual decimal rendering of `n`: most significant digit first,
/// no leading zeros (a single `'0'` for zero).
pub open spec fn dec_rep(n: nat) -> Seq<char>
    decreases n,
{
    if n < 10 {
        seq![digit_char(n)]
    } else {
        dec_rep(n / 10).push(digit_char(n % 10))
    }
}

/// The numeric value of one decimal digit character; unrelated characters
/// count as 9, which `lemma_dec_val_of_rep` never relies on.
pub open spec fn digit_val(c: char) -> nat {
    if c == '0' {
        0
    } else if c == '1' {
        1
    } else if c == '2' {
        2
    } else if c == '3' {
        3
    } else if c == '4' {
        4
    } else if c == '5' {
        5
    } else if c == '6' {
        6
    } else if c == '7' {
        7
    } else if c == '8' {
        8
    } else {
        9
    }
}

/// The value a sequence of decimal digit characters denotes.
pub open spec fn dec_val(s: Seq<char>) -> nat
    decreases s.len(),
{
    if s.len() == 0 {
        0
    } else if s.len() == 1 {
        digit_val(s[0])
    } else {
        dec_val(s.drop_last()) * 10 + digit_val(s.last())
    }
}

/// Reading back a decimal rendering recovers the number.
pub proof fn lemma_dec_val_of_rep(n: nat)
    ensures
        dec_val(dec_rep(n)) == n,
    decreases n,
{
    if n < 10 {
    } else {
        lemma_dec_val_of_rep(n / 10);
        assert(dec_rep(n).drop_last() =~= dec_rep(n / 10));
        vstd::arithmetic::div_mod::lemma_fundamental_div_mod(n as int, 10);
    }
}

/// Law: decimal renderings are injective — distinct numbers render to
/// distinct character sequences.
pub proof fn lemma_dec_rep_injective(a: nat, b: nat)
    ensures
        dec_rep(a) == dec_rep(b) ==> a == b,
{
    if dec_rep(a) == dec_rep(b) {
        lemma_dec_val_of_rep(a);
        lemma_dec_val_of_rep(b);
    }
}

/// A decimal rendering is never empty.
pub proof fn lemma_dec_rep_len(n: nat)
    ensures
        dec_rep(n).len() >= 1,
    decreases n,
{
    if n >= 10 {
        lemma_dec_rep_len(n / 10);
    }
}

fn digit_str(d: u64) -> (r: &'static str)
    requires
        d < 10,
    ensures
        r@ == seq![digit_char(d as nat)],
{
    proof {
        reveal_strlit("0");
        reveal_strlit("1");
        reveal_strlit("2");
        reveal_strlit("3");
        reveal_strlit("4");
        reveal_strlit("5");
        reveal_strlit("6");
        reveal_strlit("7");
        reveal_strlit("8");
        reveal_strlit("9");
    }
    let r: &'static str = if d == 0 {
        "0"
    } else if d == 1 {
        "1"
    } else if d == 2 {
        "2"
    } else if d == 3 {
        "3"
    } else if d == 4 {
        "4"
    } else if d == 5 {
        "5"
    } else if d == 6 {
        "6"
    } else if d == 7 {
        "7"
    } else if d == 8 {
        "8"
    } else {
        "9"
    };
    proof {
        assert(r@ =~= seq![digit_char(d as nat)]);
    }
    r
}

/// Renders `n` in decimal, most significant digit first.
pub fn u64_to_dec(n: u64) -> (r: String)
    ensures
        r@ == dec_rep(n as nat),
    decreases n,
{
    if n < 10 {
        let r = digit_str(n).to_owned();
        r
    } else {
        let mut s = u64_to_dec(n / 10);
        s.append(digit_str(n % 10));
        proof {
            assert(s@ =~= dec_rep(n as nat));
        }
        s
    }
}

/// The identifier of the recent-files action at position `i`.
pub open spec fn recent_id_seq(i: nat) -> Seq<char> {
    "open-recent-"@ + dec_rep(i)
}

/// Law: recent-action identifiers are injective — distinct positions get
/// distinct identifiers.
pub proof fn lemma_recent_id_injective(a: nat, b: nat)
    ensures
        recent_id_seq(a) == recent_id_seq(b) ==> a == b,
{
    if recent_id_seq(a) == recent_id_seq(b) {
        let p = "open-recent-"@;
        assert(dec_rep(a) =~= recent_id_seq(a).subrange(
            p.len() as int,
            recent_id_seq(a).len() as int,
        ));
        assert(dec_rep(b) =~= recent_id_seq(b).subrange(
            p.len() as int,
            recent_id_seq(b).len() as int,
        ));
        lemma_dec_rep_injective(a, b);
    }
}

/// Builds the `open-recent-<i>` identifier string for position `i`.
pub fn recent_action_id(i: usize) -> (r: String)
    ensures
        r@ == recent_id_seq(i as nat),
{
    let mut s: String = ("open-recent-").to_owned();
    s.append(u64_to_dec(i as u64).as_str());
    s
}

/// Compares two string slices by their characters.
pub fn str_eq(a: &str, b: &str) -> (r: bool)
    ensures
        r == (a@ == b@),
{
    let aa: String = a.to_owned();
    let bb: String = b.to_owned();
    aa == bb
}

} // verus!
