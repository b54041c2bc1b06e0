//! Display of musical time as bars:beats:ticks.
use vstd::prelude::*;
use crate::text::{digits, padded, push_char, push_padded, zeros};

verus! {

/// The bars:beats:ticks display of a position: the bar zero-padded to
/// three digits, the beat within the bar to two, the ticks to three.
pub open spec fn bbt_text(bar: int, beat: int, ticks: int) -> Seq<char> {
    padded(bar, 3) + seq![':'] + padded(beat, 2) + seq![':'] + padded(ticks, 3)
}

/// Format a position, given as its (one-based) bar, (one-based) beat within
/// the bar and ticks within the beat, as "bar:beat:ticks" (FL Studio style,
/// "001:01:000" for the very start).
pub fn format_bbt(bar: i32, beat: i32, ticks: i32) -> (r: String)
    ensures
        r@ == bbt_text(bar as int, beat as int, ticks as int),
{
    let mut s = String::new();
    push_padded(&mut s, bar, 3);
    push_char(&mut s, ':');
    push_padded(&mut s, beat, 2);
    push_char(&mut s, ':');
    push_padded(&mut s, ticks, 3);
    assert(s@ =~= bbt_text(bar as int, beat as int, ticks as int));
    s
}

proof fn lemma_digits_fit(n: nat, width: nat)
    requires
        1 <= width <= 3,
        width == 1 ==> n < 10,
        width == 2 ==> n < 100,
        width == 3 ==> n < 1000,
    ensures
        1 <= digits(n).len() <= width,
    decreases n,
{
    if n >= 10 {
        lemma_digits_fit(n / 10, (width - 1) as nat);
    }
}

proof fn lemma_padded_width(n: int, width: nat)
    requires
        1 <= width <= 3,
        0 <= n,
        width == 1 ==> n < 10,
        width == 2 ==> n < 100,
        width == 3 ==> n < 1000,
    ensures
        padded(n, width as int).len() == width,
{
    lemma_digits_fit(n as nat, width);
    assert(zeros(width - digits(n as nat).len()).len() == width - digits(n as nat).len());
}

/// Positions of at most 999 bars, 99 beats and 999 ticks display in a
/// fixed width of ten characters, "BBB:bb:TTT", with the separators in
/// place.
pub proof fn lemma_bbt_fixed_width(bar: int, beat: int, ticks: int)
    requires
        0 <= bar < 1000,
        0 <= beat < 100,
        0 <= ticks < 1000,
    ensures
        bbt_text(bar, beat, ticks).len() == 10,
        bbt_text(bar, beat, ticks)[3] == ':',
        bbt_text(bar, beat, ticks)[6] == ':',
{
    lemma_padded_width(bar, 3);
    lemma_padded_width(beat, 2);
    lemma_padded_width(ticks, 3);
}

} // verus!
