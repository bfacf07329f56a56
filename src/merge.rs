//! Recording documented responses on an operation. Each status holds one
//! response; a later response for a status already recorded replaces the
//! earlier one.
use vstd::prelude::*;
use crate::openapi::{responses_view, Operation, OperationView, Response, ResponseView};

verus! {

pub open spec fn has_status(rs: Seq<(Option<u16>, ResponseView)>, status: Option<u16>) -> bool {
    exists|i: int| 0 <= i < rs.len() && (#[trigger] rs[i]).0 == status
}

/// No status is recorded twice.
pub open spec fn statuses_unique(rs: Seq<(Option<u16>, ResponseView)>) -> bool {
    forall|i: int, j: int|
        0 <= i < rs.len() && 0 <= j < rs.len() && i != j ==> (#[trigger] rs[i]).0 != (#[trigger] rs[j]).0
}

/// The responses after recording `r` under `status`: it replaces the
/// response recorded under that status, or is added at the end.
pub open spec fn put_response(rs: Seq<(Option<u16>, ResponseView)>, status: Option<u16>, r: ResponseView) -> Seq<
    (Option<u16>, ResponseView),
> {
    if has_status(rs, status) {
        let i = choose|i: int| 0 <= i < rs.len() && (#[trigger] rs[i]).0 == status;
        rs.update(i, (status, r))
    } else {
        rs.push((status, r))
    }
}

/// The responses after recording each pair of `list` in order.
pub open spec fn put_all(rs: Seq<(Option<u16>, ResponseView)>, list: Seq<(Option<u16>, ResponseView)>) -> Seq<
    (Option<u16>, ResponseView),
>
    decreases list.len(),
{
    if list.len() == 0 {
        rs
    } else {
        put_response(put_all(rs, list.drop_last()), list.last().0, list.last().1)
    }
}

/// The operation with its responses replaced by `rs`.
pub open spec fn with_responses(o: OperationView, rs: Seq<(Option<u16>, ResponseView)>) -> OperationView {
    OperationView { responses: rs, ..o }
}

fn same_status(a: Option<u16>, b: Option<u16>) -> (r: bool)
    ensures
        r == (a == b),
{
    match (a, b) {
        (Some(x), Some(y)) => x == y,
        (None, None) => true,
        _ => false,
    }
}

/// Records `response` under `status`, replacing what that status held.
pub fn add_response(operation: &mut Operation, status: Option<u16>, response: Response)
    requires
        statuses_unique(old(operation)@.responses),
    ensures
        statuses_unique(final(operation)@.responses),
        final(operation)@ == with_responses(
            old(operation)@,
            put_response(old(operation)@.responses, status, response@),
        ),
{
    let ghost rs = operation@.responses;
    let mut i: usize = 0;
    while i < operation.responses.len()
        invariant
            i <= operation.responses@.len(),
            rs == operation@.responses,
            rs == old(operation)@.responses,
            statuses_unique(rs),
            operation == old(operation),
            forall|j: int| 0 <= j < i ==> (#[trigger] rs[j]).0 != status,
        decreases operation.responses@.len() - i,
    {
        if same_status(operation.responses[i].0, status) {
            assert(rs[i as int].0 == status);
            let ghost k = choose|k: int| 0 <= k < rs.len() && (#[trigger] rs[k]).0 == status;
            assert(k == i);
            operation.responses.set(i, (status, response));
            assert(operation@.responses =~= put_response(rs, status, response@));
            return;
        }
        i += 1;
    }
    operation.responses.push((status, response));
    assert(operation@.responses =~= put_response(rs, status, response@));
}

/// Records each (status, response) pair in order; where two pairs share a
/// status, the later one is kept.
pub fn record_responses(operation: &mut Operation, responses: Vec<(Option<u16>, Response)>)
    requires
        statuses_unique(old(operation)@.responses),
    ensures
        statuses_unique(final(operation)@.responses),
        final(operation)@ == with_responses(
            old(operation)@,
            put_all(old(operation)@.responses, responses_view(responses@)),
        ),
{
    let ghost all = responses_view(responses@);
    assert(all.len() == responses@.len());
    let mut rest = responses;
    let n: usize = rest.len();
    let mut k: usize = 0;
    while rest.len() > 0
        invariant
            k <= all.len(),
            all.len() == n,
            k + rest@.len() == all.len(),
            responses_view(rest@) == all.subrange(k as int, all.len() as int),
            statuses_unique(operation@.responses),
            operation@ == with_responses(old(operation)@, put_all(old(operation)@.responses, all.subrange(0, k as int))),
        decreases rest@.len(),
    {
        let ghost before = rest@;
        assert(responses_view(before).len() == before.len());
        let pair = rest.remove(0);
        assert(pair == before[0]);
        let (status, response) = pair;
        assert(all[k as int] == (status, response@)) by {
            assert(responses_view(before)[0] == all.subrange(k as int, all.len() as int)[0]);
        };
        assert(responses_view(rest@) =~= all.subrange(k + 1, all.len() as int)) by {
            assert(rest@ =~= before.subrange(1, before.len() as int));
            assert forall|j: int| 0 <= j < rest@.len() implies responses_view(rest@)[j] == all.subrange(
                k + 1,
                all.len() as int,
            )[j] by {
                assert(responses_view(before)[j + 1] == all.subrange(k as int, all.len() as int)[j + 1]);
            };
        };
        add_response(operation, status, response);
        assert(all.subrange(0, k + 1).drop_last() =~= all.subrange(0, k as int));
        k += 1;
    }
    assert(all.subrange(0, k as int) =~= all);
}

} // verus!
