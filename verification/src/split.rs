//! The split itself: four percentages that make up a whole, and the amounts they
//! carve out of a total. Everything here works on plain values.

use vstd::prelude::*;

verus! {

/// The split in force while none has been recorded: spending, savings, bills,
/// insurance.
pub open spec fn default_split() -> Seq<u32> {
    seq![50u32, 30u32, 15u32, 5u32]
}

/// Four percentages make up a whole when they add up to exactly one hundred.
pub open spec fn sums_to_whole(spending: u32, savings: u32, bills: u32, insurance: u32) -> bool {
    spending + savings + bills + insurance == 100
}

/// A split as the ledger records it: four percentages that make up a whole.
pub open spec fn is_valid_split(split: Seq<u32>) -> bool {
    &&& split.len() == 4
    &&& sums_to_whole(split[0], split[1], split[2], split[3])
}

/// The split that applies given what is recorded: the record, or the default where
/// there is none.
pub open spec fn split_in_force(recorded: Option<Seq<u32>>) -> Seq<u32> {
    match recorded {
        Some(split) => split,
        None => default_split(),
    }
}

/// The record after an attempt to set the four percentages: they replace it when
/// they make up a whole, and leave it alone when they do not.
pub open spec fn recorded_after(
    recorded: Option<Seq<u32>>,
    spending: u32,
    savings: u32,
    bills: u32,
    insurance: u32,
) -> Option<Seq<u32>> {
    if sums_to_whole(spending, savings, bills, insurance) {
        Some(seq![spending, savings, bills, insurance])
    } else {
        recorded
    }
}

/// The quotient of `n` by a positive `d`, rounded toward zero.
pub open spec fn truncated_quotient(n: int, d: int) -> int {
    if n >= 0 {
        n / d
    } else {
        -((-n) / d)
    }
}

/// The part of `total` that `percent` hundredths come to, rounded toward zero.
pub open spec fn share(total: int, percent: int) -> int {
    truncated_quotient(total * percent, 100)
}

/// The four amounts that `split` makes of `total`. The first three are the shares
/// of the first three percentages; the last is whatever is left of the total, so
/// that no unit is lost or made in rounding. The fourth percentage is not read.
pub open spec fn amounts_of(split: Seq<u32>, total: int) -> Seq<int> {
    let spending = share(total, split[0] as int);
    let savings = share(total, split[1] as int);
    let bills = share(total, split[2] as int);
    seq![spending, savings, bills, total - spending - savings - bills]
}

/// `value` can be held in an `i128`.
pub open spec fn fits_i128(value: int) -> bool {
    i128::MIN <= value <= i128::MAX
}

/// The amounts that `split` makes of `total` can be computed in `i128`: each of
/// the three products of the total with a percentage fits. The four amounts then
/// fit as well.
pub open spec fn amounts_fit(split: Seq<u32>, total: int) -> bool {
    &&& fits_i128(total * split[0])
    &&& fits_i128(total * split[1])
    &&& fits_i128(total * split[2])
}

/// Tells whether four percentages make up a whole. The sum is taken in a width
/// that four `u32` cannot overflow.
pub fn percentages_sum_to_whole(spending: u32, savings: u32, bills: u32, insurance: u32) -> (ok:
    bool)
    ensures
        ok == sums_to_whole(spending, savings, bills, insurance),
{
    let total: u64 = spending as u64 + savings as u64 + bills as u64 + insurance as u64;
    total == 100
}

/// What a vector that may be missing holds.
pub open spec fn items_of(found: Option<Vec<u32>>) -> Option<Seq<u32>> {
    match found {
        Some(items) => Some(items@),
        None => None,
    }
}

/// The split that applies given what was found in the record: what was found, as it
/// is, or the default where nothing was.
pub fn split_or_default(found: Option<Vec<u32>>) -> (split: Vec<u32>)
    ensures
        split@ == split_in_force(items_of(found)),
{
    match found {
        Some(split) => split,
        None => {
            let split: Vec<u32> = vec![50, 30, 15, 5];
            assert(split@ =~= default_split());
            split
        },
    }
}

/// The product of a total with a percentage has the sign of the total, and so has
/// the share drawn from it, which is no further from zero than the product.
pub proof fn lemma_share_is_toward_zero(total: int, percent: int)
    requires
        percent >= 0,
    ensures
        total >= 0 ==> 0 <= share(total, percent) <= total * percent,
        total <= 0 ==> total * percent <= share(total, percent) <= 0,
{
    assert(total >= 0 ==> total * percent >= 0) by (nonlinear_arith)
        requires
            percent >= 0,
    ;
    assert(total <= 0 ==> total * percent <= 0) by (nonlinear_arith)
        requires
            percent >= 0,
    ;
}

/// Where the three products fit in `i128`, so do the four amounts, and so does
/// every step from the total down to the last amount.
pub proof fn lemma_amounts_fit(split: Seq<u32>, total: int)
    requires
        fits_i128(total),
        amounts_fit(split, total),
    ensures
        forall|i: int| 0 <= i < 4 ==> fits_i128(#[trigger] amounts_of(split, total)[i]),
        fits_i128(total - amounts_of(split, total)[0]),
        fits_i128(total - amounts_of(split, total)[0] - amounts_of(split, total)[1]),
{
    lemma_share_is_toward_zero(total, split[0] as int);
    lemma_share_is_toward_zero(total, split[1] as int);
    lemma_share_is_toward_zero(total, split[2] as int);
}

/// Carves `total_amount` up by `split`: the shares of the first three percentages,
/// each rounded toward zero, and for the last amount what is left of the total.
pub fn apportion(split: &Vec<u32>, total_amount: i128) -> (amounts: Vec<i128>)
    requires
        split@.len() == 4,
        amounts_fit(split@, total_amount as int),
    ensures
        amounts@.len() == 4,
        forall|i: int| 0 <= i < 4 ==> amounts@[i] == amounts_of(split@, total_amount as int)[i],
        amounts@[0] + amounts@[1] + amounts@[2] + amounts@[3] == total_amount,
{
    proof {
        lemma_amounts_fit(split@, total_amount as int);
    }
    let spending: i128 = (total_amount * (split[0] as i128)) / 100;
    let savings: i128 = (total_amount * (split[1] as i128)) / 100;
    let bills: i128 = (total_amount * (split[2] as i128)) / 100;
    let insurance: i128 = total_amount - spending - savings - bills;
    vec![spending, savings, bills, insurance]
}

/// Tells whether `apportion` can be asked for these amounts: the split has four
/// entries, and each of the three products fits in `i128`.
pub fn can_apportion(split: &Vec<u32>, total_amount: i128) -> (ok: bool)
    ensures
        ok == (split@.len() == 4 && amounts_fit(split@, total_amount as int)),
{
    if split.len() != 4 {
        return false;
    }
    total_amount.checked_mul(split[0] as i128).is_some() && total_amount.checked_mul(
        split[1] as i128,
    ).is_some() && total_amount.checked_mul(split[2] as i128).is_some()
}

/// One attempt to put a split on record: the four percentages offered.
pub struct Attempt {
    pub spending: u32,
    pub savings: u32,
    pub bills: u32,
    pub insurance: u32,
}

/// The record after a run of attempts, taken in order.
pub open spec fn recorded_after_all(recorded: Option<Seq<u32>>, attempts: Seq<Attempt>) -> Option<
    Seq<u32>,
>
    decreases attempts.len(),
{
    if attempts.len() == 0 {
        recorded
    } else {
        let earlier = recorded_after_all(recorded, attempts.drop_last());
        let last = attempts.last();
        recorded_after(earlier, last.spending, last.savings, last.bills, last.insurance)
    }
}

/// Percentages that make up a whole are accepted, and are then the split in force,
/// exactly as they were given and whatever was on record before.
pub proof fn lemma_accepted_split_is_in_force(
    recorded: Option<Seq<u32>>,
    spending: u32,
    savings: u32,
    bills: u32,
    insurance: u32,
)
    requires
        spending + savings + bills + insurance == 100,
    ensures
        sums_to_whole(spending, savings, bills, insurance),
        split_in_force(recorded_after(recorded, spending, savings, bills, insurance)) == seq![
            spending,
            savings,
            bills,
            insurance,
        ],
        is_valid_split(split_in_force(recorded_after(recorded, spending, savings, bills, insurance))),
{
}

/// Percentages that do not make up a whole are turned down, and the split in force
/// stays what it was: the earlier record, or the default where there was none.
pub proof fn lemma_rejected_split_changes_nothing(
    recorded: Option<Seq<u32>>,
    spending: u32,
    savings: u32,
    bills: u32,
    insurance: u32,
)
    requires
        spending + savings + bills + insurance != 100,
    ensures
        !sums_to_whole(spending, savings, bills, insurance),
        recorded_after(recorded, spending, savings, bills, insurance) == recorded,
        split_in_force(recorded_after(recorded, spending, savings, bills, insurance))
            == split_in_force(recorded),
{
}

/// Until an attempt is accepted, the split in force is the default, 50/30/15/5:
/// starting with nothing on record, any run of attempts of which none makes up a
/// whole leaves nothing on record.
pub proof fn lemma_default_until_accepted(attempts: Seq<Attempt>)
    requires
        forall|i: int|
            0 <= i < attempts.len() ==> !sums_to_whole(
                (#[trigger] attempts[i]).spending,
                attempts[i].savings,
                attempts[i].bills,
                attempts[i].insurance,
            ),
    ensures
        recorded_after_all(None, attempts) is None,
        split_in_force(recorded_after_all(None, attempts)) == seq![50u32, 30u32, 15u32, 5u32],
    decreases attempts.len(),
{
    if attempts.len() > 0 {
        lemma_default_until_accepted(attempts.drop_last());
    }
}

/// The four amounts always make up the total exactly, whatever the split and
/// whatever the sign of the total; the first three are the products of the total
/// with the first three percentages, divided by one hundred and rounded toward
/// zero.
pub proof fn lemma_amounts_make_up_total(split: Seq<u32>, total: int)
    ensures
        amounts_of(split, total).len() == 4,
        amounts_of(split, total)[0] + amounts_of(split, total)[1] + amounts_of(split, total)[2]
            + amounts_of(split, total)[3] == total,
        amounts_of(split, total)[0] == truncated_quotient(total * split[0], 100),
        amounts_of(split, total)[1] == truncated_quotient(total * split[1], 100),
        amounts_of(split, total)[2] == truncated_quotient(total * split[2], 100),
{
}

/// With a valid split, every total whose hundredfold fits in `i128` can be carved
/// up, and each of the four amounts lies between zero and the total.
pub proof fn lemma_valid_split_fits(split: Seq<u32>, total: int)
    requires
        is_valid_split(split),
        fits_i128(total * 100),
    ensures
        amounts_fit(split, total),
        forall|i: int|
            0 <= i < 4 && total >= 0 ==> 0 <= #[trigger] amounts_of(split, total)[i] <= total,
        forall|i: int|
            0 <= i < 4 && total <= 0 ==> total <= #[trigger] amounts_of(split, total)[i] <= 0,
{
    let s0 = split[0] as int;
    let s1 = split[1] as int;
    let s2 = split[2] as int;
    lemma_share_is_toward_zero(total, s0);
    lemma_share_is_toward_zero(total, s1);
    lemma_share_is_toward_zero(total, s2);
    assert(total * s0 + total * s1 + total * s2 == total * (s0 + s1 + s2)) by (nonlinear_arith);
    assert(total >= 0 ==> total * (s0 + s1 + s2) <= total * 100 && total * s0 <= total * 100
        && total * s1 <= total * 100 && total * s2 <= total * 100) by (nonlinear_arith)
        requires
            0 <= s0,
            0 <= s1,
            0 <= s2,
            s0 + s1 + s2 <= 100,
    ;
    assert(total <= 0 ==> total * (s0 + s1 + s2) >= total * 100 && total * s0 >= total * 100
        && total * s1 >= total * 100 && total * s2 >= total * 100) by (nonlinear_arith)
        requires
            0 <= s0,
            0 <= s1,
            0 <= s2,
            s0 + s1 + s2 <= 100,
    ;
}

} // verus!
