//! The UI-facing logic: mapping the two buttons to count increments, and
//! rendering the live count as decimal digits for the label.

use vstd::prelude::*;
use vstd::arithmetic::div_mod::lemma_div_decreases;

use crate::resources::StarsCount;
use crate::resources::spec_after_increment;

verus! {

/// The two bulk-increase buttons.
#[derive(Clone, Copy, PartialEq, Eq, Structural, Debug)]
pub enum ButtonAction {
    AddThousand,
    AddTenThousand,
}

/// How much each button adds to the count.
pub open spec fn spec_increment_of(a: ButtonAction) -> u64 {
    match a {
        ButtonAction::AddThousand => 1000,
        ButtonAction::AddTenThousand => 10_000,
    }
}

/// One button press: adds the button's fixed increment to the count and
/// flags the change for the coming tick.
pub fn button_system(stars: &mut StarsCount, action: ButtonAction)
    requires
        old(stars).value + spec_increment_of(action) <= u64::MAX,
    ensures
        *final(stars) == spec_after_increment(*old(stars), spec_increment_of(action)),
        old(stars).wf() ==> final(stars).wf(),
{
    match action {
        ButtonAction::AddThousand => stars.increment(1000),
        ButtonAction::AddTenThousand => stars.increment(10_000),
    }
}

/// The count after a sequence of button presses, applied in order.
pub open spec fn spec_after_presses(c: StarsCount, presses: Seq<ButtonAction>) -> StarsCount
    decreases presses.len(),
{
    if presses.len() == 0 {
        c
    } else {
        spec_after_increment(
            spec_after_presses(c, presses.drop_last()),
            spec_increment_of(presses.last()),
        )
    }
}

/// The decimal digits of `n`, most significant first, as ASCII bytes.
pub open spec fn spec_decimal(n: nat) -> Seq<u8>
    decreases n,
{
    if n < 10 {
        seq![(48 + n) as u8]
    } else {
        spec_decimal(n / 10).push((48 + n % 10) as u8)
    }
}

/// Renders `n` in decimal, for the count label.
pub fn decimal_digits(n: u64) -> (v: Vec<u8>)
    ensures
        v@ == spec_decimal(n as nat),
    decreases n,
{
    if n < 10 {
        let mut v: Vec<u8> = Vec::new();
        v.push(48 + (n as u8));
        proof {
            assert(v@ =~= spec_decimal(n as nat));
        }
        v
    } else {
        proof {
            lemma_div_decreases(n as int, 10);
        }
        let mut v = decimal_digits(n / 10);
        v.push(48 + ((n % 10) as u8));
        v
    }
}

} // verus!
