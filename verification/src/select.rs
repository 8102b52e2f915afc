//! Choosing the unspent outputs that pay for a transfer.

use vstd::prelude::*;
use crate::error::TransferError;
use crate::model::{total_value, Utxo};

verus! {

/// The outputs that a greedy scan from the end of `utxos` takes to reach `target`:
/// the last output always, then each earlier one while what was taken is still short.
/// Where all of `utxos` together do not reach `target`, these are all of them.
pub open spec fn greedy_selection(utxos: Seq<Utxo>, target: int) -> Seq<Utxo>
    decreases utxos.len(),
{
    if utxos.len() == 0 {
        Seq::empty()
    } else if utxos.last().value >= target {
        seq![utxos.last()]
    } else {
        seq![utxos.last()] + greedy_selection(utxos.drop_last(), target - utxos.last().value)
    }
}

/// The last `count` outputs of `utxos`, the last one first.
pub open spec fn taken_from_end(utxos: Seq<Utxo>, count: nat) -> Seq<Utxo> {
    Seq::new(count, |i: int| utxos[utxos.len() - 1 - i])
}

/// Adding one output to a list adds its value to the total.
pub proof fn lemma_total_push(utxos: Seq<Utxo>, utxo: Utxo)
    ensures
        total_value(utxos.push(utxo)) == total_value(utxos) + utxo.value,
{
    assert(utxos.push(utxo).drop_last() =~= utxos);
}

/// The total of two lists joined is the sum of their totals.
pub proof fn lemma_total_concat(a: Seq<Utxo>, b: Seq<Utxo>)
    ensures
        total_value(a + b) == total_value(a) + total_value(b),
    decreases b.len(),
{
    if b.len() == 0 {
        assert(a + b =~= a);
    } else {
        lemma_total_concat(a, b.drop_last());
        assert((a + b).drop_last() =~= a + b.drop_last());
    }
}

/// The total of the outputs of `utxos` that `picked` marks.
pub open spec fn picked_total(utxos: Seq<Utxo>, picked: Seq<bool>) -> nat
    decreases utxos.len(),
{
    if utxos.len() == 0 || picked.len() != utxos.len() {
        0
    } else if picked.last() {
        picked_total(utxos.drop_last(), picked.drop_last()) + utxos.last().value as nat
    } else {
        picked_total(utxos.drop_last(), picked.drop_last())
    }
}

/// No choice of outputs holds more than all outputs together.
pub proof fn lemma_picked_total_bounded(utxos: Seq<Utxo>, picked: Seq<bool>)
    ensures
        picked_total(utxos, picked) <= total_value(utxos),
    decreases utxos.len(),
{
    if utxos.len() > 0 && picked.len() == utxos.len() {
        lemma_picked_total_bounded(utxos.drop_last(), picked.drop_last());
    }
}

/// Where any choice of outputs covers the target, so does the greedy selection.
pub proof fn lemma_feasible_is_selected(utxos: Seq<Utxo>, picked: Seq<bool>, target: int)
    requires
        picked.len() == utxos.len(),
        picked_total(utxos, picked) >= target,
    ensures
        total_value(utxos) >= target,
        total_value(greedy_selection(utxos, target)) >= target,
{
    lemma_picked_total_bounded(utxos, picked);
    lemma_selection_total(utxos, target);
}

/// The greedy selection is a run of outputs from the end of the list, in scan order:
/// it is never longer than the list, and never empty unless the list is.
pub proof fn lemma_selection_is_scan(utxos: Seq<Utxo>, target: int)
    ensures
        greedy_selection(utxos, target).len() <= utxos.len(),
        utxos.len() > 0 ==> greedy_selection(utxos, target).len() >= 1,
        greedy_selection(utxos, target) == taken_from_end(
            utxos,
            greedy_selection(utxos, target).len(),
        ),
    decreases utxos.len(),
{
    let selected = greedy_selection(utxos, target);
    if utxos.len() == 0 {
        assert(selected =~= taken_from_end(utxos, 0));
    } else if utxos.last().value >= target {
        assert(selected =~= taken_from_end(utxos, 1));
    } else {
        let rest = utxos.drop_last();
        let inner = greedy_selection(rest, target - utxos.last().value);
        lemma_selection_is_scan(rest, target - utxos.last().value);
        assert forall|i: int| 0 <= i < selected.len() implies selected[i] == taken_from_end(
            utxos,
            selected.len(),
        )[i] by {
            if i > 0 {
                assert(selected[i] == inner[i - 1]);
                assert(inner[i - 1] == taken_from_end(rest, inner.len())[i - 1]);
            }
        }
        assert(selected =~= taken_from_end(utxos, selected.len()));
    }
}

/// What the greedy selection holds: it covers the target whenever the whole list does,
/// it holds everything when the whole list falls short, and it stops as soon as the
/// target is met, so that without the output taken last it would fall short.
pub proof fn lemma_selection_total(utxos: Seq<Utxo>, target: int)
    ensures
        total_value(greedy_selection(utxos, target)) <= total_value(utxos),
        total_value(utxos) >= target ==> total_value(greedy_selection(utxos, target)) >= target,
        total_value(utxos) < target ==> total_value(greedy_selection(utxos, target))
            == total_value(utxos),
        greedy_selection(utxos, target).len() > 1 ==> total_value(
            greedy_selection(utxos, target).drop_last(),
        ) < target,
    decreases utxos.len(),
{
    let selected = greedy_selection(utxos, target);
    if utxos.len() == 0 {
    } else {
        let last = utxos.last();
        assert(seq![last] =~= Seq::<Utxo>::empty().push(last));
        lemma_total_push(Seq::<Utxo>::empty(), last);
        if last.value >= target {
        } else {
            let rest = utxos.drop_last();
            let inner = greedy_selection(rest, target - last.value);
            lemma_selection_total(rest, target - last.value);
            lemma_selection_is_scan(rest, target - last.value);
            lemma_total_concat(seq![last], inner);
            if selected.len() > 1 {
                assert(selected.drop_last() =~= seq![last] + inner.drop_last());
                lemma_total_concat(seq![last], inner.drop_last());
            }
        }
    }
}

/// What the greedy selection holds beyond a target that it covers is less than the
/// output taken last, so it is an amount that an output can hold.
pub proof fn lemma_selection_excess_fits(utxos: Seq<Utxo>, target: int)
    requires
        0 <= target <= total_value(utxos),
    ensures
        0 <= total_value(greedy_selection(utxos, target)) - target <= u64::MAX,
{
    let selected = greedy_selection(utxos, target);
    lemma_selection_total(utxos, target);
    lemma_selection_is_scan(utxos, target);
    if selected.len() > 0 {
        assert(selected =~= selected.drop_last().push(selected.last()));
        lemma_total_push(selected.drop_last(), selected.last());
        if selected.len() == 1 {
            assert(selected.drop_last() =~= Seq::<Utxo>::empty());
        }
    }
}

/// A larger target only extends the selection: what was selected for the smaller
/// target is selected for the larger one too, in the same order.
pub proof fn lemma_selection_grows(utxos: Seq<Utxo>, smaller: int, larger: int)
    requires
        smaller <= larger,
    ensures
        greedy_selection(utxos, smaller).is_prefix_of(greedy_selection(utxos, larger)),
    decreases utxos.len(),
{
    if utxos.len() > 0 {
        let last = utxos.last();
        if last.value >= larger {
        } else if last.value >= smaller {
            assert(greedy_selection(utxos, smaller) =~= greedy_selection(utxos, larger).subrange(
                0,
                1,
            ));
        } else {
            let rest = utxos.drop_last();
            lemma_selection_grows(rest, smaller - last.value, larger - last.value);
            let a = greedy_selection(rest, smaller - last.value);
            let b = greedy_selection(rest, larger - last.value);
            assert(a =~= b.subrange(0, a.len() as int));
            assert(greedy_selection(utxos, smaller) =~= greedy_selection(utxos, larger).subrange(
                0,
                a.len() as int + 1,
            ));
        }
    }
}

/// Selects unspent outputs to cover `amount + fee`, scanning `utxos` from its end.
///
/// Succeeds exactly when all of `utxos` together cover the target, which is when any
/// choice among them does. What is selected then covers the target and is a run of
/// outputs from the end of `utxos`. The error reports what `utxos` hold and what was
/// needed.
pub fn select_utxos(utxos: &[Utxo], amount: u64, fee: u64) -> (result: Result<
    Vec<Utxo>,
    TransferError,
>)
    ensures
        match result {
            Ok(selected) => {
                &&& total_value(utxos@) >= amount + fee
                &&& selected@ == greedy_selection(utxos@, amount + fee)
                &&& selected@ == taken_from_end(utxos@, selected@.len())
                &&& selected@.len() <= utxos@.len()
                &&& total_value(selected@) >= amount + fee
            },
            Err(error) => {
                &&& total_value(utxos@) < amount + fee
                &&& error == (TransferError::InsufficientFunds {
                    have: total_value(utxos@) as u128,
                    need: (amount + fee) as u128,
                    amount,
                    fee,
                })
            },
        },
{
    let target: u128 = amount as u128 + fee as u128;
    let mut selected: Vec<Utxo> = Vec::new();
    let mut total: u128 = 0;
    let mut i: usize = utxos.len();
    proof {
        assert(utxos@.take(i as int) =~= utxos@);
        assert(selected@ + greedy_selection(utxos@, target as int) =~= greedy_selection(
            utxos@,
            target as int,
        ));
    }
    while i > 0
        invariant
            i <= utxos.len(),
            target == amount + fee,
            total == total_value(selected@),
            total_value(utxos@) == total + total_value(utxos@.take(i as int)),
            i < utxos.len() ==> total < target,
            greedy_selection(utxos@, target as int) == selected@ + greedy_selection(
                utxos@.take(i as int),
                target - total,
            ),
        decreases i,
    {
        let utxo = utxos[i - 1];
        proof {
            let rest = utxos@.take(i as int);
            assert(rest.last() == utxo);
            assert(rest.drop_last() =~= utxos@.take(i - 1));
            lemma_total_push(selected@, utxo);
            assert(greedy_selection(rest, target - total) == if utxo.value >= target - total {
                seq![utxo]
            } else {
                seq![utxo] + greedy_selection(rest.drop_last(), target - total - utxo.value)
            });
            assert(selected@ + (seq![utxo] + greedy_selection(
                rest.drop_last(),
                target - total - utxo.value,
            )) =~= selected@.push(utxo) + greedy_selection(
                rest.drop_last(),
                target - total - utxo.value,
            ));
            assert(selected@ + seq![utxo] =~= selected@.push(utxo));
        }
        let ghost before = selected@;
        let ghost short = target - total;
        selected.push(utxo);
        total = total + utxo.value as u128;
        i = i - 1;
        if total >= target {
            proof {
                assert(greedy_selection(utxos@, target as int) == before + seq![utxo]);
                lemma_selection_is_scan(utxos@, target as int);
                lemma_selection_total(utxos@, target as int);
            }
            return Ok(selected);
        }
        assert(greedy_selection(utxos@, target as int) == selected@ + greedy_selection(
            utxos@.take(i as int),
            short - utxo.value,
        ));
    }
    proof {
        assert(utxos@.take(0) =~= Seq::<Utxo>::empty());
        assert(selected@ + Seq::<Utxo>::empty() =~= selected@);
        lemma_selection_is_scan(utxos@, target as int);
        lemma_selection_total(utxos@, target as int);
    }
    if total >= target {
        Ok(selected)
    } else {
        Err(TransferError::InsufficientFunds { have: total, need: target, amount, fee })
    }
}

} // verus!
