use vstd::prelude::*;

verus! {

/// Every job of the set succeeded.
pub open spec fn all_succeeded<T, E>(rs: Seq<Result<T, E>>) -> bool {
    forall|i: int| 0 <= i < rs.len() ==> (#[trigger] rs[i]) is Ok
}

/// The jobs before position `k` all succeeded.
pub open spec fn succeeded_before<T, E>(rs: Seq<Result<T, E>>, k: int) -> bool {
    forall|i: int| 0 <= i < k ==> (#[trigger] rs[i]) is Ok
}

/// The outputs of the jobs, in the order the jobs were submitted.
pub open spec fn outputs<T, E>(rs: Seq<Result<T, E>>) -> Seq<T> {
    rs.map_values(|r: Result<T, E>| r->Ok_0)
}

/// What joining a job set yields: every output in submission order when all
/// jobs succeeded, otherwise the error of the earliest failed job.
pub open spec fn joined<T, E>(rs: Seq<Result<T, E>>) -> Result<Seq<T>, E> {
    if all_succeeded(rs) {
        Ok(outputs(rs))
    } else {
        let k = choose|k: int| 0 <= k < rs.len() && rs[k] is Err && succeeded_before(rs, k);
        Err(rs[k]->Err_0)
    }
}

/// Joins the results of a job set, given in the order the jobs were added.
/// Succeeds only when every job succeeded, with one output per job in that
/// order; otherwise fails with the error of the earliest failed job, whatever
/// the other jobs did.
pub fn join_all<T, E>(results: Vec<Result<T, E>>) -> (r: Result<Vec<T>, E>)
    ensures
        r is Ok <==> all_succeeded(results@),
        r matches Ok(v) ==> joined(results@) == Ok::<Seq<T>, E>(v@),
        r matches Err(e) ==> joined(results@) == Err::<Seq<T>, E>(e),
{
    let ghost all = results@;
    let mut rest = results;
    let mut out: Vec<T> = Vec::new();
    let n: usize = rest.len();
    let mut i: usize = 0;
    while i < n
        invariant
            all == results@,
            n == all.len(),
            i <= n,
            rest@ == all.subrange(i as int, n as int),
            succeeded_before(all, i as int),
            out@ == outputs(all.subrange(0, i as int)),
        decreases n - i,
    {
        let item = rest.remove(0);
        assert(item == all[i as int]);
        match item {
            Ok(v) => {
                out.push(v);
                assert(all.subrange(0, i + 1) == all.subrange(0, i as int).push(all[i as int]));
                i = i + 1;
            },
            Err(e) => {
                proof {
                    assert(all[i as int] is Err);
                    assert(!all_succeeded(all));
                    assert(0 <= i < all.len() && all[i as int] is Err && succeeded_before(all, i as int));
                    let k = choose|k: int|
                        0 <= k < all.len() && all[k] is Err && succeeded_before(all, k);
                    if k < i {
                        assert(all[k] is Ok);
                    } else if k > i {
                        assert(all[i as int] is Ok);
                    }
                }
                return Err(e);
            },
        }
    }
    assert(all.subrange(0, n as int) == all);
    assert(all_succeeded(all));
    Ok(out)
}

/// When every job of a set succeeds, the joined result holds exactly one
/// output per job, in the order the jobs were added.
pub proof fn lemma_join_keeps_every_output<T, E>(rs: Seq<Result<T, E>>)
    requires
        all_succeeded(rs),
    ensures
        joined(rs) is Ok,
        joined(rs)->Ok_0.len() == rs.len(),
        forall|i: int| 0 <= i < rs.len() ==> rs[i] == Ok::<T, E>(#[trigger] joined(rs)->Ok_0[i]),
{
}

/// When any one job of a set fails, the set as a whole fails, whatever its
/// siblings did.
pub proof fn lemma_join_fails_on_any_failure<T, E>(rs: Seq<Result<T, E>>, j: int)
    requires
        0 <= j < rs.len(),
        rs[j] is Err,
    ensures
        joined(rs) is Err,
{
    assert(!all_succeeded(rs));
}

} // verus!
