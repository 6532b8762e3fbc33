//! Properties that relate several operations of the library.
use vstd::prelude::*;
use crate::registry::{after_register, has_name, names_unique, register_all};
use crate::session::{correlated, drive, first_answer, AgentError, AssistantReply, Phase};
use crate::tool::{ToolCall, ToolDefinition, ToolResult};

verus! {

/// A second tool under a name already registered is refused, whatever was
/// registered before.
pub proof fn lemma_duplicate_name_refused(defs: Seq<ToolDefinition>, first: ToolDefinition, second: ToolDefinition)
    requires
        first.name@ == second.name@,
    ensures
        after_register(defs, first) matches Some(next) ==> after_register(next, second) is None,
{
    if let Some(next) = after_register(defs, first) {
        assert(next[defs.len() as int] == first);
        assert(has_name(next, second.name@));
    }
}

/// Tools with distinct names all register, and their definitions come out
/// in registration order.
pub proof fn lemma_definitions_in_registration_order(ds: Seq<ToolDefinition>)
    requires
        names_unique(ds),
    ensures
        register_all(Seq::empty(), ds) == Some(ds),
{
    assert(Seq::<ToolDefinition>::empty() + ds =~= ds);
    lemma_register_rest(Seq::empty(), ds);
}

proof fn lemma_register_rest(done: Seq<ToolDefinition>, rest: Seq<ToolDefinition>)
    requires
        names_unique(done + rest),
    ensures
        register_all(done, rest) == Some(done + rest),
    decreases rest.len(),
{
    let all = done + rest;
    if rest.len() == 0 {
        assert(all =~= done);
    } else {
        assert(all[done.len() as int] == rest[0]);
        if has_name(done, rest[0].name@) {
            let i = choose|i: int| 0 <= i < done.len() && #[trigger] done[i].name@ == rest[0].name@;
            assert(all[i] == done[i]);
            assert(false);
        }
        let next = done.push(rest[0]);
        assert(next + rest.drop_first() =~= all);
        lemma_register_rest(next, rest.drop_first());
    }
}

/// Call ids are pairwise distinct.
pub open spec fn call_ids_distinct(calls: Seq<ToolCall>) -> bool {
    forall|i: int, j: int|
        0 <= i < calls.len() && 0 <= j < calls.len() && i != j ==> #[trigger] calls[i].id@ != #[trigger] calls[j].id@
}

/// Result ids are pairwise distinct.
pub open spec fn result_ids_distinct(pool: Seq<ToolResult>) -> bool {
    forall|i: int, j: int|
        0 <= i < pool.len() && 0 <= j < pool.len() && i != j ==> #[trigger] pool[i].call_id@ != #[trigger] pool[j].call_id@
}

/// Every call has a result among `pool`.
pub open spec fn every_call_answered(calls: Seq<ToolCall>, pool: Seq<ToolResult>) -> bool {
    forall|i: int| 0 <= i < calls.len() ==> has_answer(pool, #[trigger] calls[i].id@)
}

/// Some result in `pool` carries `id`.
pub open spec fn has_answer(pool: Seq<ToolResult>, id: Seq<char>) -> bool {
    exists|j: int| 0 <= j < pool.len() && #[trigger] pool[j].call_id@ == id
}

/// A tool round gives exactly one answer per call, and each answer that was
/// produced carries the id of the call it stands for.
pub proof fn lemma_one_answer_per_call(calls: Seq<ToolCall>, pool: Seq<ToolResult>)
    ensures
        correlated(calls, pool).len() == calls.len(),
        forall|i: int| 0 <= i < calls.len() ==>
            (#[trigger] correlated(calls, pool)[i] matches Some(t) ==> t.call_id@ == calls[i].id@),
{
    assert forall|i: int| 0 <= i < calls.len() implies
        (#[trigger] correlated(calls, pool)[i] matches Some(t) ==> t.call_id@ == calls[i].id@) by {
        crate::session::lemma_answer_ids(calls, pool, i);
    }
    if calls.len() > 0 {
        crate::session::lemma_answer_ids(calls, pool, 0);
    }
}

/// Where each call of a round with distinct ids has exactly one result, each
/// call is answered by the result with its id, whatever order the results
/// came in.
pub proof fn lemma_answers_by_id(calls: Seq<ToolCall>, pool: Seq<ToolResult>)
    requires
        call_ids_distinct(calls),
        result_ids_distinct(pool),
        every_call_answered(calls, pool),
    ensures
        correlated(calls, pool).len() == calls.len(),
        forall|i: int, j: int|
            0 <= i < calls.len() && 0 <= j < pool.len() && #[trigger] pool[j].call_id@ == #[trigger] calls[i].id@
                ==> correlated(calls, pool)[i] == Some(pool[j]),
    decreases calls.len(),
{
    lemma_one_answer_per_call(calls, pool);
    if calls.len() > 0 {
        let id = calls[0].id@;
        assert(has_answer(pool, calls[0].id@));
        let j0 = choose|j: int| 0 <= j < pool.len() && #[trigger] pool[j].call_id@ == calls[0].id@;
        assert(pool[j0].call_id@ == id);
        assert(forall|k: int| 0 <= k < j0 ==> #[trigger] pool[k].call_id@ != id);
        assert(first_answer(pool, id) == Some(j0)) by {
            let c = choose|j: int|
                0 <= j < pool.len() && #[trigger] pool[j].call_id@ == id && forall|k: int|
                    0 <= k < j ==> #[trigger] pool[k].call_id@ != id;
            if c != j0 {
                assert(pool[c].call_id@ == pool[j0].call_id@);
            }
        }
        let rest_calls = calls.drop_first();
        let rest_pool = pool.remove(j0);
        assert(call_ids_distinct(rest_calls)) by {
            assert forall|i: int, j: int|
                0 <= i < rest_calls.len() && 0 <= j < rest_calls.len() && i != j implies
                #[trigger] rest_calls[i].id@ != #[trigger] rest_calls[j].id@ by {
                assert(rest_calls[i] == calls[i + 1] && rest_calls[j] == calls[j + 1]);
            }
        }
        assert(result_ids_distinct(rest_pool)) by {
            assert forall|i: int, j: int|
                0 <= i < rest_pool.len() && 0 <= j < rest_pool.len() && i != j implies
                #[trigger] rest_pool[i].call_id@ != #[trigger] rest_pool[j].call_id@ by {
                let a = if i < j0 { i } else { i + 1 };
                let b = if j < j0 { j } else { j + 1 };
                assert(rest_pool[i] == pool[a] && rest_pool[j] == pool[b]);
            }
        }
        assert(every_call_answered(rest_calls, rest_pool)) by {
            assert forall|i: int| 0 <= i < rest_calls.len() implies has_answer(rest_pool, #[trigger] rest_calls[i].id@) by {
                assert(rest_calls[i] == calls[i + 1]);
                assert(has_answer(pool, calls[i + 1].id@));
                let j = choose|j: int| 0 <= j < pool.len() && #[trigger] pool[j].call_id@ == calls[i + 1].id@;
                assert(calls[i + 1].id@ != calls[0].id@);
                assert(j != j0);
                let k = if j < j0 { j } else { j - 1 };
                assert(rest_pool[k] == pool[j]);
                assert(rest_pool[k].call_id@ == rest_calls[i].id@);
            }
        }
        lemma_answers_by_id(rest_calls, rest_pool);
        assert(correlated(calls, pool) == seq![Some(pool[j0])] + correlated(rest_calls, rest_pool));
        assert forall|i: int, j: int|
            0 <= i < calls.len() && 0 <= j < pool.len() && #[trigger] pool[j].call_id@ == #[trigger] calls[i].id@
                implies correlated(calls, pool)[i] == Some(pool[j]) by {
            if i == 0 {
                if j != j0 {
                    assert(pool[j].call_id@ == pool[j0].call_id@);
                }
            } else {
                assert(rest_calls[i - 1] == calls[i]);
                assert(calls[i].id@ != calls[0].id@);
                assert(j != j0);
                let k = if j < j0 { j } else { j - 1 };
                assert(rest_pool[k] == pool[j]);
                assert(rest_pool[k].call_id@ == rest_calls[i - 1].id@);
            }
        }
    }
}

/// A model that always asks for tools makes the loop fail with
/// `MaxIterationsExceeded` after exactly `max` tool rounds; no reply past
/// the `max`-th is asked for.
pub proof fn lemma_always_tools_stops_at_bound(max: nat, replies: Seq<AssistantReply>)
    requires
        max >= 1,
        replies.len() >= max,
        forall|i: int| 0 <= i < replies.len() ==> #[trigger] replies[i].calls@.len() > 0,
    ensures
        drive(0, max, replies) == (max, Phase::Failed(AgentError::MaxIterationsExceeded)),
        drive(0, max, replies) == drive(0, max, replies.subrange(0, max as int)),
{
    lemma_drive_from(0, max, replies);
}

proof fn lemma_drive_from(k: nat, max: nat, replies: Seq<AssistantReply>)
    requires
        k < max,
        replies.len() >= max - k,
        forall|i: int| 0 <= i < replies.len() ==> #[trigger] replies[i].calls@.len() > 0,
    ensures
        drive(k, max, replies) == (max, Phase::Failed(AgentError::MaxIterationsExceeded)),
        drive(k, max, replies) == drive(k, max, replies.subrange(0, max - k)),
    decreases max - k,
{
    let head = replies.subrange(0, max - k);
    assert(head[0] == replies[0]);
    if k + 1 < max {
        assert(replies.drop_first().subrange(0, max - (k + 1)) =~= head.drop_first());
        assert forall|i: int| 0 <= i < head.drop_first().len() implies #[trigger] head.drop_first()[i].calls@.len() > 0 by {
            assert(head.drop_first()[i] == replies[i + 1]);
        }
        assert forall|i: int| 0 <= i < replies.drop_first().len() implies #[trigger] replies.drop_first()[i].calls@.len() > 0 by {
            assert(replies.drop_first()[i] == replies[i + 1]);
        }
        lemma_drive_from(k + 1, max, replies.drop_first());
        lemma_drive_from(k + 1, max, head.drop_first());
        assert(head.drop_first().subrange(0, max - (k + 1)) =~= head.drop_first());
    }
}

/// A reply without tool calls ends the loop at once, with its text.
pub proof fn lemma_no_tools_done_at_once(iterations: nat, max: nat, replies: Seq<AssistantReply>)
    requires
        replies.len() > 0,
        replies[0].calls@.len() == 0,
    ensures
        drive(iterations, max, replies) == (iterations, Phase::Done(replies[0].text)),
{
}

} // verus!
