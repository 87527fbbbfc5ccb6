//! Laws that relate several calls of the library.
use vstd::prelude::*;

use crate::request::{
    canonical_header_name, has_header, header_values, overwrite_header, put_header, valid_status_code, HeaderSeq,
    RequestView,
};
use crate::resolution::{resolution_of, resolves_to, RawResolution, Resolution, Response, RuntimeFault};

verus! {

proof fn lemma_values_absent(h: HeaderSeq, name: Seq<char>)
    requires
        !has_header(h, name),
    ensures
        header_values(h, name) == Seq::<Seq<char>>::empty(),
    decreases h.len(),
{
    if h.len() > 0 {
        let d = h.drop_last();
        assert(h[h.len() - 1] == h.last());
        assert(!has_header(d, name)) by {
            if has_header(d, name) {
                let j = choose|j: int| 0 <= j < d.len() && (#[trigger] d[j]).0 == name;
                assert(h[j] == d[j]);
            }
        }
        lemma_values_absent(d, name);
    }
}

proof fn lemma_overwrite_values(h: HeaderSeq, name: Seq<char>, value: Seq<char>)
    ensures
        has_header(h, name) ==> header_values(overwrite_header(h, name, value), name) == seq![
            value,
        ],
        !has_header(h, name) ==> header_values(overwrite_header(h, name, value), name)
            == Seq::<Seq<char>>::empty(),
        forall|other: Seq<char>|
            other != name ==> header_values(overwrite_header(h, name, value), other)
                == header_values(h, other),
    decreases h.len(),
{
    if h.len() > 0 {
        let d = h.drop_last();
        lemma_overwrite_values(d, name, value);
        let rest = overwrite_header(d, name, value);
        assert(h[h.len() - 1] == h.last());
        assert(has_header(h, name) == (has_header(d, name) || h.last().0 == name)) by {
            if has_header(d, name) {
                let j = choose|j: int| 0 <= j < d.len() && (#[trigger] d[j]).0 == name;
                assert(h[j] == d[j]);
            }
            if has_header(h, name) && h.last().0 != name {
                let j = choose|j: int| 0 <= j < h.len() && (#[trigger] h[j]).0 == name;
                assert(d[j] == h[j]);
            }
        }
        if h.last().0 != name {
            assert(rest.push(h.last()).drop_last() =~= rest);
        } else if has_header(d, name) {
        } else {
            assert(rest.push((name, value)).drop_last() =~= rest);
            assert(header_values(rest, name) =~= Seq::<Seq<char>>::empty());
            assert(seq![value] =~= Seq::<Seq<char>>::empty().push(value));
        }
        assert forall|other: Seq<char>| other != name implies header_values(
            overwrite_header(h, name, value),
            other,
        ) == header_values(h, other) by {
            assert(header_values(rest, other) == header_values(d, other));
            if h.last().0 != name {
                assert(rest.push(h.last()).drop_last() =~= rest);
                assert(rest.push(h.last()).last() == h.last());
            } else if !has_header(d, name) {
                assert(rest.push((name, value)).drop_last() =~= rest);
                assert(rest.push((name, value)).last() == (name, value));
            }
        }
    }
}

/// Setting a header leaves exactly one entry of that name, holding the new
/// value, however many entries of that name there were before; the values
/// of every other name are as they were.
pub proof fn set_header_leaves_one_entry(h: HeaderSeq, name: Seq<char>, value: Seq<char>)
    ensures
        header_values(put_header(h, name, value), name) == seq![value],
        forall|other: Seq<char>|
            other != name ==> header_values(put_header(h, name, value), other) == header_values(
                h,
                other,
            ),
{
    lemma_overwrite_values(h, name, value);
    if !has_header(h, name) {
        lemma_values_absent(h, name);
        assert(h.push((name, value)).drop_last() =~= h);
        assert(seq![value] =~= Seq::<Seq<char>>::empty().push(value));
    }
}

/// The header list after a run of header settings, in call order.
pub open spec fn after_header_calls(h: HeaderSeq, calls: Seq<(Seq<char>, Seq<char>)>) -> HeaderSeq
    decreases calls.len(),
{
    if calls.len() == 0 {
        h
    } else {
        let before = after_header_calls(h, calls.drop_last());
        put_header(before, calls.last().0, calls.last().1)
    }
}

/// After any run of header settings in one invocation, a name that was set
/// occurs exactly once, with the value of the last call that set it.
pub proof fn header_calls_leave_last_value(
    h: HeaderSeq,
    calls: Seq<(Seq<char>, Seq<char>)>,
    i: int,
)
    requires
        0 <= i < calls.len(),
        forall|j: int| i < j < calls.len() ==> (#[trigger] calls[j]).0 != calls[i].0,
    ensures
        header_values(after_header_calls(h, calls), calls[i].0) == seq![calls[i].1],
    decreases calls.len(),
{
    let d = calls.drop_last();
    let before = after_header_calls(h, d);
    set_header_leaves_one_entry(before, calls.last().0, calls.last().1);
    if i < calls.len() - 1 {
        assert(calls[calls.len() - 1] == calls.last());
        assert forall|j: int| i < j < d.len() implies (#[trigger] d[j]).0 != d[i].0 by {
            assert(d[j] == calls[j]);
        }
        header_calls_leave_last_value(h, d, i);
    }
}

/// An extension that answers with a valid response gets exactly that
/// response as the resolution, whatever request the invocation was given.
pub proof fn respond_is_independent_of_request(
    r1: Result<Resolution, RuntimeFault>,
    request1: RequestView,
    r2: Result<Resolution, RuntimeFault>,
    request2: RequestView,
    response: Response,
)
    requires
        valid_status_code(response.status_code),
        resolves_to(r1, request1, Ok(RawResolution::Respond(response))),
        resolves_to(r2, request2, Ok(RawResolution::Respond(response))),
    ensures
        r1 == Ok::<Resolution, RuntimeFault>(Resolution::Respond(response)),
        r1 == r2,
{
}

/// What specifications see of a resolution.
pub open spec fn resolution_view(r: Result<Resolution, RuntimeFault>) -> Result<
    Result<RequestView, Response>,
    RuntimeFault,
> {
    match r {
        Ok(Resolution::Forward(q)) => Ok(Ok(q@)),
        Ok(Resolution::Respond(response)) => Ok(Err(response)),
        Err(f) => Err(f),
    }
}

/// Each invocation's resolution is fixed by its own context and its own
/// sandbox result alone: no other invocation running beside it can change
/// it. A trap never yields a forward.
pub proof fn resolution_depends_only_on_own_invocation(
    r1: Result<Resolution, RuntimeFault>,
    r2: Result<Resolution, RuntimeFault>,
    context: RequestView,
    outcome: Result<RawResolution, String>,
)
    requires
        resolves_to(r1, context, outcome),
        resolves_to(r2, context, outcome),
    ensures
        resolution_view(r1) == resolution_view(r2),
        outcome is Err ==> r1 is Err,
{
}

/// The header list after a run of successful `set_header` calls, each
/// with its name as the extension wrote it.
pub open spec fn after_set_header_calls(
    h: HeaderSeq,
    calls: Seq<(Seq<char>, Seq<char>)>,
) -> HeaderSeq {
    after_header_calls(
        h,
        calls.map_values(|c: (Seq<char>, Seq<char>)| (canonical_header_name(c.0), c.1)),
    )
}

/// Within one invocation, after any run of successful `set_header` calls
/// (on that name or others, in any spelling), a name that was set occurs
/// exactly once, holding the value of the last call that set it.
pub proof fn set_header_calls_leave_last_value(
    h: HeaderSeq,
    calls: Seq<(Seq<char>, Seq<char>)>,
    i: int,
)
    requires
        0 <= i < calls.len(),
        forall|j: int|
            i < j < calls.len() ==> canonical_header_name((#[trigger] calls[j]).0)
                != canonical_header_name(calls[i].0),
    ensures
        header_values(after_set_header_calls(h, calls), canonical_header_name(calls[i].0))
            == seq![calls[i].1],
{
    let m = calls.map_values(|c: (Seq<char>, Seq<char>)| (canonical_header_name(c.0), c.1));
    assert forall|j: int| i < j < m.len() implies (#[trigger] m[j]).0 != m[i].0 by {
        assert(m[j].0 == canonical_header_name(calls[j].0));
    }
    header_calls_leave_last_value(h, m, i);
}

/// What an invocation resolves to, seen through `resolution_view`, from its
/// own final context and its own sandbox result.
pub open spec fn expected_resolution(
    context: RequestView,
    outcome: Result<RawResolution, String>,
) -> Result<Result<RequestView, Response>, RuntimeFault> {
    match resolution_of(outcome) {
        Err(f) => Err(f),
        Ok(None) => Ok(Ok(context)),
        Ok(Some(response)) => Ok(Err(response)),
    }
}

/// Any number of invocations against one module, each with its own context:
/// each one's resolution is fixed by its own context and sandbox result
/// alone, so no header or URI change of one invocation reaches another.
pub proof fn invocations_are_independent(
    results: Seq<Result<Resolution, RuntimeFault>>,
    contexts: Seq<RequestView>,
    outcomes: Seq<Result<RawResolution, String>>,
)
    requires
        results.len() == contexts.len(),
        results.len() == outcomes.len(),
        forall|i: int|
            0 <= i < results.len() ==> resolves_to(
                #[trigger] results[i],
                contexts[i],
                outcomes[i],
            ),
    ensures
        forall|i: int|
            0 <= i < results.len() ==> resolution_view(#[trigger] results[i])
                == expected_resolution(contexts[i], outcomes[i]),
{
}

} // verus!
