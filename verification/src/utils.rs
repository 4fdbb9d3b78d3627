//! Masking of card and account numbers for display.

use vstd::prelude::*;
use crate::text::push_char;

verus! {

/// `s` with every character replaced by `ch`, except the first `head` and
/// the last `tail`.
pub open spec fn masked(s: Seq<char>, ch: char, head: nat, tail: nat) -> Seq<char> {
    Seq::new(
        s.len(),
        |i: int|
            if i < head || i >= s.len() - tail {
                s[i]
            } else {
                ch
            },
    )
}

/// A text no longer than what stays visible is left as it is.
pub proof fn lemma_masked_short(s: Seq<char>, ch: char, head: nat, tail: nat)
    requires
        s.len() <= head + tail,
    ensures
        masked(s, ch, head, tail) == s,
{
    assert(masked(s, ch, head, tail) =~= s);
}

/// Masking hides every character between the visible ends and keeps the
/// length.
pub proof fn lemma_masked_hides(s: Seq<char>, ch: char, head: nat, tail: nat)
    ensures
        masked(s, ch, head, tail).len() == s.len(),
        forall|i: int|
            head <= i < s.len() - tail ==> #[trigger] masked(s, ch, head, tail)[i] == ch,
        forall|i: int|
            0 <= i < s.len() && (i < head || i >= s.len() - tail) ==> #[trigger] masked(
                s,
                ch,
                head,
                tail,
            )[i] == s[i],
{
}

/// The card number with all but its first six and last four characters
/// replaced by `#`. A number of up to ten characters comes back unmasked.
pub fn mask_pan(pan: &str) -> (r: String)
    ensures
        r@ == masked(pan@, '#', 6, 4),
        pan@.len() <= 10 ==> r@ == pan@,
{
    proof {
        if pan@.len() <= 10 {
            lemma_masked_short(pan@, '#', 6, 4);
        }
    }
    mask_number(pan, '#', 6, 4)
}

/// The account number with all but its last four characters replaced by
/// `#`. A number of up to four characters comes back unmasked.
pub fn mask_account_number(num: &str) -> (r: String)
    ensures
        r@ == masked(num@, '#', 0, 4),
        num@.len() <= 4 ==> r@ == num@,
{
    proof {
        if num@.len() <= 4 {
            lemma_masked_short(num@, '#', 0, 4);
        }
    }
    mask_number(num, '#', 0, 4)
}

/// `num` with every character replaced by `ch`, except the first `head`
/// and the last `tail`.
pub fn mask_number(num: &str, ch: char, head: usize, tail: usize) -> (r: String)
    ensures
        r@ == masked(num@, ch, head as nat, tail as nat),
{
    let n = num.unicode_len();
    let mut out = String::new();
    let mut i: usize = 0;
    while i < n
        invariant
            n == num@.len(),
            i <= n,
            out@.len() == i,
            forall|j: int|
                0 <= j < i ==> out@[j] == #[trigger] masked(num@, ch, head as nat, tail as nat)[j],
        decreases n - i,
    {
        let c = if i < head || tail >= n - i {
            num.get_char(i)
        } else {
            ch
        };
        push_char(&mut out, c);
        i += 1;
    }
    assert(out@ =~= masked(num@, ch, head as nat, tail as nat));
    out
}

} // verus!
