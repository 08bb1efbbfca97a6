//! The state of the variables of a program at a statement: what each
//! variable that is alive holds. A statement takes its arguments out of the
//! state and puts its results in.

use std::collections::HashMap;
use vstd::prelude::*;
use vstd::std_specs::hash::*;
use crate::compiler::EditStateError;
use crate::sierra::ids::VarId;

verus! {

broadcast use group_hash_axioms;

/// The state without the first `n` of the variables.
pub open spec fn taken_after<V>(state: Map<u64, V>, ids: Seq<VarId>, n: int) -> Map<u64, V>
    decreases n,
{
    if n <= 0 {
        state
    } else {
        taken_after(state, ids, n - 1).remove(ids[n - 1].id)
    }
}

/// Whether the variable at the place `k` is the first that cannot be taken:
/// the state does not hold it, or a variable before it is the same.
pub open spec fn first_missing_at<V>(state: Map<u64, V>, ids: Seq<VarId>, k: int) -> bool {
    &&& 0 <= k < ids.len()
    &&& forall|i: int| 0 <= i < k ==> #[trigger] taken_after(state, ids, i).contains_key(ids[i].id)
    &&& !taken_after(state, ids, k).contains_key(ids[k].id)
}

/// What the taking of arguments returns: the state without the variables
/// and what they held, in their order; or the first variable that the state
/// does not hold any more.
pub open spec fn take_args_post<V>(
    state: Map<u64, V>,
    ids: Seq<VarId>,
    res: Result<(HashMap<u64, V>, Vec<V>), EditStateError>,
) -> bool {
    match res {
        Ok((rest, values)) => {
            &&& forall|i: int|
                0 <= i < ids.len() ==> #[trigger] taken_after(state, ids, i).contains_key(ids[i].id)
            &&& rest@ == taken_after(state, ids, ids.len() as int)
            &&& values@.len() == ids.len()
            &&& forall|i: int| 0 <= i < ids.len() ==> #[trigger] values@[i] == state[ids[i].id]
        },
        Err(error) => exists|k: int|
            #[trigger] first_missing_at(state, ids, k) && error == EditStateError::MissingReference(
                ids[k],
            ),
    }
}

/// What the state without some variables holds, the state held.
pub proof fn lemma_taken_after<V>(state: Map<u64, V>, ids: Seq<VarId>, n: int, key: u64)
    requires
        taken_after(state, ids, n).contains_key(key),
    ensures
        state.contains_key(key),
        taken_after(state, ids, n)[key] == state[key],
        forall|i: int| 0 <= i < n ==> (#[trigger] ids[i]).id != key,
    decreases n,
{
    if n > 0 {
        lemma_taken_after(state, ids, n - 1, key);
    }
}

/// Takes the variables out of the state, in their order. Fails at the first
/// that the state does not hold, or does not hold any more.
pub fn take_args<V>(state: HashMap<u64, V>, ids: &Vec<VarId>) -> (res: Result<
    (HashMap<u64, V>, Vec<V>),
    EditStateError,
>)
    ensures
        take_args_post(state@, ids@, res),
{
    let ghost before = state@;
    let mut rest = state;
    let mut values: Vec<V> = Vec::new();
    let mut i: usize = 0;
    while i < ids.len()
        invariant
            i <= ids@.len(),
            before == state@,
            rest@ == taken_after(before, ids@, i as int),
            values@.len() == i,
            forall|k: int|
                0 <= k < i ==> #[trigger] taken_after(before, ids@, k).contains_key(ids@[k].id),
            forall|k: int| 0 <= k < i ==> before.contains_key((#[trigger] ids@[k]).id),
            forall|k: int| 0 <= k < i ==> #[trigger] values@[k] == before[ids@[k].id],
        decreases ids@.len() - i,
    {
        let id = ids[i];
        match rest.remove(&id.id) {
            Some(value) => {
                proof {
                    lemma_taken_after(before, ids@, i as int, id.id);
                }
                assert(value == before[id.id]);
                values.push(value);
            },
            None => {
                let res = Err(EditStateError::MissingReference(id));
                assert(first_missing_at(before, ids@, i as int));
                assert(take_args_post(before, ids@, res));
                return res;
            },
        }
        i = i + 1;
    }
    Ok((rest, values))
}

/// The state with the first `n` of the results put in.
pub open spec fn put_after<V>(state: Map<u64, V>, results: Seq<(VarId, V)>, n: int) -> Map<u64, V>
    decreases n,
{
    if n <= 0 {
        state
    } else {
        put_after(state, results, n - 1).insert(results[n - 1].0.id, results[n - 1].1)
    }
}

/// Whether the result at the place `k` is the first that cannot be put in:
/// the state holds its variable, or a result before it is of the same
/// variable.
pub open spec fn first_override_at<V>(state: Map<u64, V>, results: Seq<(VarId, V)>, k: int) -> bool {
    &&& 0 <= k < results.len()
    &&& forall|i: int|
        0 <= i < k ==> !#[trigger] put_after(state, results, i).contains_key(results[i].0.id)
    &&& put_after(state, results, k).contains_key(results[k].0.id)
}

/// What the putting of results returns: the state with the results; or the
/// first variable that the state holds already.
pub open spec fn put_results_post<V>(
    state: Map<u64, V>,
    results: Seq<(VarId, V)>,
    res: Result<HashMap<u64, V>, EditStateError>,
) -> bool {
    match res {
        Ok(next) => {
            &&& forall|i: int|
                0 <= i < results.len() ==> !#[trigger] put_after(state, results, i).contains_key(
                    results[i].0.id,
                )
            &&& next@ == put_after(state, results, results.len() as int)
        },
        Err(error) => exists|k: int|
            #[trigger] first_override_at(state, results, k) && error
                == EditStateError::VariableOverride(results[k].0),
    }
}

/// Puts the results into the state, in their order. Fails at the first whose
/// variable the state holds already.
pub fn put_results<V>(state: HashMap<u64, V>, results: Vec<(VarId, V)>) -> (res: Result<
    HashMap<u64, V>,
    EditStateError,
>)
    ensures
        put_results_post(state@, results@, res),
{
    let ghost before = state@;
    let ghost all = results@;
    let mut next = state;
    let mut rest = results;
    let ghost mut done: int = 0;
    while rest.len() > 0
        invariant
            0 <= done <= all.len(),
            before == state@,
            all == results@,
            rest@ == all.skip(done),
            next@ == put_after(before, all, done),
            forall|k: int|
                0 <= k < done ==> !#[trigger] put_after(before, all, k).contains_key(all[k].0.id),
        decreases rest@.len(),
    {
        let (id, value) = rest.remove(0);
        assert(all.skip(done)[0] == all[done]);
        if next.contains_key(&id.id) {
            let res = Err(EditStateError::VariableOverride(id));
            assert(first_override_at(before, all, done));
            assert(put_results_post(before, all, res));
            return res;
        }
        next.insert(id.id, value);
        proof {
            assert(all.skip(done).remove(0) =~= all.skip(done + 1));
            done = done + 1;
        }
    }
    Ok(next)
}

} // verus!
