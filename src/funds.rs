//! Funds attached to a call.
use vstd::prelude::*;

verus! {

/// An amount of one token sent along with a call.
#[derive(Clone, Debug, PartialEq, Eq)]
pub struct AttachedCoin {
    pub denom: String,
    pub amount: u128,
}

/// Index of the first coin in `funds` whose denomination is `denom`, or
/// `funds.len()` when there is none.
pub open spec fn first_with_denom(funds: Seq<AttachedCoin>, denom: Seq<char>) -> int
    decreases funds.len(),
{
    if funds.len() == 0 {
        0
    } else if funds[0].denom@ == denom {
        0
    } else {
        1 + first_with_denom(funds.drop_first(), denom)
    }
}

proof fn lemma_first_with_denom(funds: Seq<AttachedCoin>, denom: Seq<char>)
    ensures
        0 <= first_with_denom(funds, denom) <= funds.len(),
        forall|j: int| 0 <= j < first_with_denom(funds, denom) ==> funds[j].denom@ != denom,
        first_with_denom(funds, denom) < funds.len() ==> funds[first_with_denom(funds, denom)].denom@
            == denom,
    decreases funds.len(),
{
    if funds.len() > 0 && funds[0].denom@ != denom {
        lemma_first_with_denom(funds.drop_first(), denom);
        assert forall|j: int| 0 <= j < first_with_denom(funds, denom) implies funds[j].denom@
            != denom by {
            if j > 0 {
                assert(funds[j] == funds.drop_first()[j - 1]);
            }
        }
    }
}

/// The amount of the first coin in `funds` of denomination `denom`, or
/// `None` when no such coin was attached.
pub fn attached_amount(funds: &Vec<AttachedCoin>, denom: &String) -> (r: Option<u128>)
    ensures
        ({
            let k = first_with_denom(funds@, denom@);
            &&& k == funds.len() ==> r is None
            &&& k < funds.len() ==> r == Some(funds@[k].amount)
        }),
{
    proof {
        lemma_first_with_denom(funds@, denom@);
    }
    let mut i: usize = 0;
    while i < funds.len()
        invariant
            0 <= i <= funds.len(),
            forall|j: int| 0 <= j < i ==> funds@[j].denom@ != denom@,
            0 <= first_with_denom(funds@, denom@) <= funds.len(),
            forall|j: int|
                0 <= j < first_with_denom(funds@, denom@) ==> funds@[j].denom@ != denom@,
            first_with_denom(funds@, denom@) < funds.len() ==> funds@[first_with_denom(
                funds@,
                denom@,
            )].denom@ == denom@,
        decreases funds.len() - i,
    {
        if funds[i].denom.eq(denom) {
            return Some(funds[i].amount);
        }
        i = i + 1;
    }
    None
}

} // verus!
