use vstd::prelude::*;

use crate::state::{sum_amounts, Asset};

verus! {

/// The sum over a prefix grows by the next element.
pub proof fn lemma_sum_take_step(s: Seq<Asset>, i: int)
    requires
        0 <= i < s.len(),
    ensures
        sum_amounts(s.take(i + 1)) == sum_amounts(s.take(i)) + s[i].available_amount,
{
    assert(s.take(i + 1).drop_last() =~= s.take(i));
}

/// The sum over a prefix is at most the sum over the whole sequence.
pub proof fn lemma_sum_take_le(s: Seq<Asset>, i: int)
    requires
        0 <= i <= s.len(),
    ensures
        sum_amounts(s.take(i)) <= sum_amounts(s),
    decreases s.len(),
{
    if i == s.len() {
        assert(s.take(i) =~= s);
    } else {
        assert(s.drop_last().take(i) =~= s.take(i));
        lemma_sum_take_le(s.drop_last(), i);
    }
}

/// Replacing one asset changes the sum by the difference of the two amounts.
pub proof fn lemma_sum_update(s: Seq<Asset>, k: int, a: Asset)
    requires
        0 <= k < s.len(),
    ensures
        sum_amounts(s.update(k, a)) == sum_amounts(s) - s[k].available_amount + a.available_amount,
    decreases s.len(),
{
    let u = s.update(k, a);
    if k == s.len() - 1 {
        assert(u.drop_last() =~= s.drop_last());
    } else {
        assert(u.drop_last() =~= s.drop_last().update(k, a));
        lemma_sum_update(s.drop_last(), k, a);
    }
}

/// Each asset's amount is bounded by the sum.
pub proof fn lemma_amount_le_sum(s: Seq<Asset>, k: int)
    requires
        0 <= k < s.len(),
    ensures
        s[k].available_amount <= sum_amounts(s),
{
    lemma_sum_update(s, k, Asset { asset_address: s[k].asset_address, available_amount: 0 });
}

/// The sum of the available amounts, or `None` where it does not fit in a `u64`.
pub fn total_of(assets: &Vec<Asset>) -> (r: Option<u64>)
    ensures
        r is Some <==> sum_amounts(assets@) <= u64::MAX,
        r is Some ==> r->0 == sum_amounts(assets@),
{
    let mut total: u64 = 0;
    let mut i: usize = 0;
    while i < assets.len()
        invariant
            i <= assets.len(),
            total == sum_amounts(assets@.take(i as int)),
        decreases assets.len() - i,
    {
        proof {
            lemma_sum_take_step(assets@, i as int);
        }
        match total.checked_add(assets[i].available_amount) {
            Some(t) => {
                total = t;
            },
            None => {
                proof {
                    lemma_sum_take_le(assets@, i as int + 1);
                }
                return None;
            },
        }
        i = i + 1;
    }
    assert(assets@.take(i as int) =~= assets@);
    Some(total)
}

/// A copy of a list of assets, element for element.
pub fn copy_assets(assets: &Vec<Asset>) -> (r: Vec<Asset>)
    ensures
        r@ == assets@,
{
    let mut out: Vec<Asset> = Vec::new();
    let mut i: usize = 0;
    while i < assets.len()
        invariant
            i <= assets.len(),
            out@ =~= assets@.take(i as int),
        decreases assets.len() - i,
    {
        out.push(assets[i]);
        i = i + 1;
    }
    assert(out@ =~= assets@);
    out
}

} // verus!
