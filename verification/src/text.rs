//! Small string-building helpers shared by the encoders.

use vstd::prelude::*;

verus! {

/// `String::push` appends one `char` at the end of the string; its
/// documentation states exactly this.
pub assume_specification[ String::push ](s: &mut String, ch: char)
    ensures
        final(s)@ == old(s)@.push(ch),
;

} // verus!

verus! {

/// The decimal digits of `n`, most significant first, as `u64`'s `Display`
/// writes them.
pub open spec fn decimal(n: nat) -> Seq<char>
    decreases n,
{
    if n < 10 {
        seq![(48 + n) as char]
    } else {
        decimal(n / 10).push((48 + n % 10) as char)
    }
}

/// The decimal rendering of `n`.
pub fn to_decimal(n: u64) -> (s: String)
    ensures
        s@ == decimal(n as nat),
    decreases n,
{
    if n < 10 {
        let mut s = String::new();
        s.push(((48 + n) as u8) as char);
        s
    } else {
        let mut s = to_decimal(n / 10);
        s.push(((48 + n % 10) as u8) as char);
        s
    }
}

/// Ten to the power `k`.
pub open spec fn pow10(k: nat) -> nat
    decreases k,
{
    if k == 0 {
        1
    } else {
        10 * pow10((k - 1) as nat)
    }
}

proof fn lemma_decimal_len(n: nat, k: nat)
    requires
        k >= 1,
        n < pow10(k),
    ensures
        decimal(n).len() <= k,
    decreases n,
{
    if n >= 10 {
        assert(k >= 2) by {
            if k == 1 {
                assert(pow10(0) == 1);
            }
        }
        lemma_decimal_len(n / 10, (k - 1) as nat);
    }
}

/// Decimal renderings are plain ASCII digits, at most twenty of them.
pub proof fn lemma_decimal_ascii(n: nat)
    requires
        n <= u64::MAX,
    ensures
        vstd::utf8::is_ascii_chars(decimal(n)),
        decimal(n).len() <= 20,
        forall|i: int| 0 <= i < decimal(n).len() ==> '0' <= #[trigger] decimal(n)[i] <= '9',
    decreases n,
{
    if n >= 10 {
        lemma_decimal_ascii(n / 10);
    }
    assert(pow10(20) == 100000000000000000000) by {
        reveal_with_fuel(pow10, 21);
    }
    lemma_decimal_len(n, 20);
}

} // verus!
