//! The agent's turn loop as a state machine.
//!
//! The library decides; the caller does the outside work. A session starts
//! awaiting the model. The caller sends the history and the definitions to
//! the model and hands the reply to [`Session::on_reply`]. While the session
//! is executing tools, the caller runs every pending call (through
//! [`ToolRegistry::dispatch`]) in any order, and hands the results to
//! [`Session::on_tool_results`], which ties them to the calls by id.
use vstd::prelude::*;
use vstd::string::StringExecFns;
use crate::registry::ToolRegistry;
use crate::tool::{Outcome, ToolCall, ToolDefinition, ToolResult};

verus! {

/// One entry of a conversation.
pub enum Turn {
    System(String),
    User(String),
    Assistant { text: String, calls: Vec<ToolCall> },
    ToolResults(Vec<ToolResult>),
}

/// A model's answer to one request.
pub struct AssistantReply {
    pub text: String,
    pub calls: Vec<ToolCall>,
}

/// Why a prompt failed.
pub enum AgentError {
    /// The completion client failed; its message, unchanged.
    Transport(String),
    /// The model kept asking for tools until the bound was reached.
    MaxIterationsExceeded,
}

/// Where a session stands.
pub enum Phase {
    AwaitingModel,
    ExecutingTools,
    Done(String),
    Failed(AgentError),
}

/// A preamble, a registry of tools, and a bound on tool rounds.
pub struct Agent {
    pub preamble: String,
    pub registry: ToolRegistry,
    pub max_tool_iterations: usize,
}

/// The state of one prompt: a fresh conversation and the loop's progress.
pub struct Session {
    history: Vec<Turn>,
    iterations: usize,
    max_tool_iterations: usize,
    phase: Phase,
}

pub open spec fn missing_summary() -> Seq<char> {
    "no result was produced for this call"@
}

/// Position of the first result in `pool` that answers call `id`.
pub open spec fn first_answer(pool: Seq<ToolResult>, id: Seq<char>) -> Option<int> {
    if exists|j: int|
        0 <= j < pool.len() && #[trigger] pool[j].call_id@ == id && forall|k: int|
            0 <= k < j ==> #[trigger] pool[k].call_id@ != id {
        Some(
            choose|j: int|
                0 <= j < pool.len() && #[trigger] pool[j].call_id@ == id && forall|k: int|
                    0 <= k < j ==> #[trigger] pool[k].call_id@ != id,
        )
    } else {
        None
    }
}

/// The answer each call gets, in the calls' order: the first unused result
/// that carries its id, or none.
pub open spec fn correlated(calls: Seq<ToolCall>, pool: Seq<ToolResult>) -> Seq<Option<ToolResult>>
    decreases calls.len(),
{
    if calls.len() == 0 {
        Seq::empty()
    } else {
        match first_answer(pool, calls[0].id@) {
            Some(j) => seq![Some(pool[j])] + correlated(calls.drop_first(), pool.remove(j)),
            None => seq![None] + correlated(calls.drop_first(), pool),
        }
    }
}

/// `results` answers `calls` one for one, as `answers` says: a result that was
/// produced, or a failure saying that none was.
pub open spec fn answers_calls(
    results: Seq<ToolResult>,
    calls: Seq<ToolCall>,
    answers: Seq<Option<ToolResult>>,
) -> bool {
    &&& results.len() == calls.len()
    &&& answers.len() == calls.len()
    &&& forall|i: int|
        0 <= i < calls.len() ==> match #[trigger] answers[i] {
            Some(t) => results[i] == t,
            None => results[i].call_id@ == calls[i].id@ && results[i].outcome.failed_with(
                missing_summary(),
            ),
        }
}

proof fn lemma_correlated_len(calls: Seq<ToolCall>, pool: Seq<ToolResult>)
    ensures
        correlated(calls, pool).len() == calls.len(),
    decreases calls.len(),
{
    if calls.len() > 0 {
        match first_answer(pool, calls[0].id@) {
            Some(j) => lemma_correlated_len(calls.drop_first(), pool.remove(j)),
            None => lemma_correlated_len(calls.drop_first(), pool),
        }
    }
}

/// Every answer carries the id of the call it answers.
pub proof fn lemma_answer_ids(calls: Seq<ToolCall>, pool: Seq<ToolResult>, i: int)
    requires
        0 <= i < calls.len(),
    ensures
        correlated(calls, pool).len() == calls.len(),
        correlated(calls, pool)[i] matches Some(t) ==> t.call_id@ == calls[i].id@,
    decreases calls.len(),
{
    lemma_correlated_len(calls, pool);
    match first_answer(pool, calls[0].id@) {
        Some(j) => {
            if i > 0 {
                lemma_answer_ids(calls.drop_first(), pool.remove(j), i - 1);
            }
        },
        None => {
            if i > 0 {
                lemma_answer_ids(calls.drop_first(), pool, i - 1);
            }
        },
    }
}

/// Takes the first result in `pool` that answers call `id` out of it.
fn take_answer(pool: &mut Vec<ToolResult>, id: &String) -> (r: Option<ToolResult>)
    ensures
        match first_answer(old(pool)@, id@) {
            Some(j) => r == Some(old(pool)@[j]) && final(pool)@ == old(pool)@.remove(j),
            None => r is None && final(pool)@ == old(pool)@,
        },
{
    let mut i: usize = 0;
    while i < pool.len()
        invariant
            i <= pool@.len(),
            pool@ == old(pool)@,
            forall|k: int| 0 <= k < i ==> #[trigger] pool@[k].call_id@ != id@,
        decreases pool@.len() - i,
    {
        if pool[i].call_id == *id {
            let ghost p = pool@;
            assert(0 <= i < p.len() && p[i as int].call_id@ == id@ && forall|k: int|
                0 <= k < i ==> #[trigger] p[k].call_id@ != id@);
            let ghost j = choose|j: int|
                0 <= j < p.len() && #[trigger] p[j].call_id@ == id@ && forall|k: int|
                    0 <= k < j ==> #[trigger] p[k].call_id@ != id@;
            assert(j == i as int) by {
                if j < i as int {
                    assert(p[j].call_id@ != id@);
                } else if j > i as int {
                    assert(p[i as int].call_id@ != id@);
                }
            }
            assert(first_answer(p, id@) == Some(i as int));
            return Some(pool.remove(i));
        }
        i = i + 1;
    }
    assert(first_answer(pool@, id@) is None);
    None
}

/// Puts the results of one tool round in the order of its calls, one per
/// call, matched by id; a call without a result is answered with a failure.
pub fn correlate(calls: &Vec<ToolCall>, completed: Vec<ToolResult>) -> (r: Vec<ToolResult>)
    ensures
        answers_calls(r@, calls@, correlated(calls@, completed@)),
{
    let ghost all = correlated(calls@, completed@);
    proof { lemma_correlated_len(calls@, completed@); }
    let mut pool = completed;
    let mut out: Vec<ToolResult> = Vec::new();
    let mut i: usize = 0;
    assert(calls@.skip(0) =~= calls@);
    while i < calls.len()
        invariant
            i <= calls@.len(),
            all.len() == calls@.len(),
            out@.len() == i,
            all.subrange(i as int, all.len() as int) == correlated(calls@.skip(i as int), pool@),
            forall|k: int|
                0 <= k < i ==> match #[trigger] all[k] {
                    Some(t) => out@[k] == t,
                    None => out@[k].call_id@ == calls@[k].id@ && out@[k].outcome.failed_with(
                        missing_summary(),
                    ),
                },
        decreases calls@.len() - i,
    {
        let ghost rest = calls@.skip(i as int);
        let ghost before = pool@;
        assert(rest.drop_first() =~= calls@.skip(i + 1));
        assert(rest[0] == calls@[i as int]);
        assert(all[i as int] == all.subrange(i as int, all.len() as int)[0]);
        let answer = take_answer(&mut pool, &calls[i].id);
        assert(all.subrange(i + 1, all.len() as int) =~= all.subrange(i as int, all.len() as int).drop_first());
        match answer {
            Some(t) => {
                out.push(t);
            },
            None => {
                out.push(
                    ToolResult {
                        call_id: calls[i].id.clone(),
                        outcome: Outcome::Failure(String::from_str("no result was produced for this call")),
                    },
                );
            },
        }
        i = i + 1;
    }
    out
}

/// The phase a reply leads to.
pub open spec fn reply_phase(reply: AssistantReply) -> Phase {
    if reply.calls@.len() == 0 {
        Phase::Done(reply.text)
    } else {
        Phase::ExecutingTools
    }
}

/// The phase a finished tool round leads to, `iterations` rounds done.
pub open spec fn results_phase(iterations: nat, max: nat) -> Phase {
    if iterations >= max {
        Phase::Failed(AgentError::MaxIterationsExceeded)
    } else {
        Phase::AwaitingModel
    }
}

/// The calls of the last turn, if it is the model's.
pub open spec fn last_calls(history: Seq<Turn>) -> Seq<ToolCall> {
    if history.len() > 0 {
        match history.last() {
            Turn::Assistant { calls, .. } => calls@,
            _ => Seq::empty(),
        }
    } else {
        Seq::empty()
    }
}

impl Agent {
    pub open spec fn wf(&self) -> bool {
        self.registry.wf() && self.max_tool_iterations >= 1
    }

    pub fn new(preamble: String, registry: ToolRegistry, max_tool_iterations: usize) -> (r: Agent)
        requires
            registry.wf(),
            max_tool_iterations >= 1,
        ensures
            r.wf(),
            r.preamble == preamble,
            r.registry == registry,
            r.max_tool_iterations == max_tool_iterations,
    {
        Agent { preamble, registry, max_tool_iterations }
    }

    /// The tool definitions sent with every model request.
    pub fn definitions(&self) -> (r: &Vec<ToolDefinition>)
        ensures
            r@ == self.registry.spec_definitions(),
    {
        self.registry.definitions()
    }

    /// A fresh session for `prompt`: the preamble, then the prompt.
    pub fn start(&self, prompt: String) -> (r: Session)
        requires
            self.wf(),
        ensures
            r.wf(),
            r.spec_history() == seq![Turn::System(self.preamble), Turn::User(prompt)],
            r.spec_iterations() == 0,
            r.spec_max() == self.max_tool_iterations,
            r.spec_phase() == Phase::AwaitingModel,
    {
        let mut history: Vec<Turn> = Vec::new();
        history.push(Turn::System(self.preamble.clone()));
        history.push(Turn::User(prompt));
        let r = Session {
            history,
            iterations: 0,
            max_tool_iterations: self.max_tool_iterations,
            phase: Phase::AwaitingModel,
        };
        assert(r.history@ =~= seq![Turn::System(self.preamble), Turn::User(prompt)]);
        r
    }
}

impl Session {
    pub closed spec fn spec_history(&self) -> Seq<Turn> {
        self.history@
    }

    pub closed spec fn spec_iterations(&self) -> nat {
        self.iterations as nat
    }

    pub closed spec fn spec_max(&self) -> nat {
        self.max_tool_iterations as nat
    }

    pub closed spec fn spec_phase(&self) -> Phase {
        self.phase
    }

    /// The calls that the current tool round must answer.
    pub open spec fn spec_pending(&self) -> Seq<ToolCall> {
        last_calls(self.spec_history())
    }

    pub open spec fn wf(&self) -> bool {
        &&& self.spec_max() >= 1
        &&& (self.spec_phase() is AwaitingModel || self.spec_phase() is ExecutingTools)
            ==> self.spec_iterations() < self.spec_max()
        &&& self.spec_phase() is ExecutingTools ==> {
            &&& self.spec_history().len() > 0
            &&& self.spec_history().last() is Assistant
            &&& self.spec_pending().len() > 0
        }
    }

    /// The conversation so far, to be sent with the next request.
    pub fn history(&self) -> (r: &Vec<Turn>)
        ensures
            r@ == self.spec_history(),
    {
        &self.history
    }

    pub fn phase(&self) -> (r: &Phase)
        ensures
            *r == self.spec_phase(),
    {
        &self.phase
    }

    /// The number of finished tool rounds.
    pub fn iterations(&self) -> (r: usize)
        ensures
            r == self.spec_iterations(),
    {
        self.iterations
    }

    /// Takes the model's reply, or the client's failure.
    pub fn on_reply(&mut self, reply: Result<AssistantReply, String>)
        requires
            old(self).wf(),
            old(self).spec_phase() is AwaitingModel,
        ensures
            final(self).wf(),
            final(self).spec_iterations() == old(self).spec_iterations(),
            final(self).spec_max() == old(self).spec_max(),
            match reply {
                Ok(rep) => {
                    &&& final(self).spec_history() == old(self).spec_history().push(
                        Turn::Assistant { text: rep.text, calls: rep.calls },
                    )
                    &&& final(self).spec_phase() == reply_phase(rep)
                },
                Err(e) => {
                    &&& final(self).spec_history() == old(self).spec_history()
                    &&& final(self).spec_phase() == Phase::Failed(AgentError::Transport(e))
                },
            },
    {
        match reply {
            Ok(rep) => {
                let AssistantReply { text, calls } = rep;
                if calls.len() == 0 {
                    self.phase = Phase::Done(text.clone());
                } else {
                    self.phase = Phase::ExecutingTools;
                }
                self.history.push(Turn::Assistant { text, calls });
            },
            Err(e) => {
                self.phase = Phase::Failed(AgentError::Transport(e));
            },
        }
    }

    /// The calls that the current tool round must answer.
    pub fn pending_calls(&self) -> (r: &Vec<ToolCall>)
        requires
            self.wf(),
            self.spec_phase() is ExecutingTools,
        ensures
            r@ == self.spec_pending(),
            r@.len() > 0,
    {
        match &self.history[self.history.len() - 1] {
            Turn::Assistant { calls, .. } => calls,
            _ => vstd::pervasive::unreached(),
        }
    }

    /// Takes the results of the current tool round, in any order, and
    /// appends them as one turn, one per call in the calls' order.
    pub fn on_tool_results(&mut self, completed: Vec<ToolResult>)
        requires
            old(self).wf(),
            old(self).spec_phase() is ExecutingTools,
        ensures
            final(self).wf(),
            final(self).spec_max() == old(self).spec_max(),
            final(self).spec_iterations() == old(self).spec_iterations() + 1,
            final(self).spec_phase() == results_phase(final(self).spec_iterations(), final(self).spec_max()),
            final(self).spec_history().len() == old(self).spec_history().len() + 1,
            final(self).spec_history().drop_last() == old(self).spec_history(),
            final(self).spec_history().last() matches Turn::ToolResults(rs)
                && answers_calls(rs@, old(self).spec_pending(), correlated(old(self).spec_pending(), completed@)),
    {
        let results = correlate(self.pending_calls(), completed);
        self.history.push(Turn::ToolResults(results));
        self.iterations = self.iterations + 1;
        if self.iterations >= self.max_tool_iterations {
            self.phase = Phase::Failed(AgentError::MaxIterationsExceeded);
        } else {
            self.phase = Phase::AwaitingModel;
        }
        assert(self.history@.drop_last() =~= old(self).history@);
    }
}

/// The loop's progress while the model keeps being answered: the number of
/// finished tool rounds and the phase, after the model has given `replies`
/// in turn, starting from `iterations` rounds done and awaiting the model.
pub open spec fn drive(iterations: nat, max: nat, replies: Seq<AssistantReply>) -> (nat, Phase)
    decreases replies.len(),
{
    if replies.len() == 0 {
        (iterations, Phase::AwaitingModel)
    } else {
        match reply_phase(replies[0]) {
            Phase::ExecutingTools => match results_phase(iterations + 1, max) {
                Phase::AwaitingModel => drive(iterations + 1, max, replies.drop_first()),
                p => (iterations + 1, p),
            },
            p => (iterations, p),
        }
    }
}

/// Runs a session for `prompt` against a scripted model: the `i`-th model
/// request is answered with `replies[i]`, and the `i`-th tool round with
/// `results[i]`. Stops when the session ends or the script runs out; the
/// rounds done and the phase reached are those that [`drive`] gives.
pub fn run_script(
    agent: &Agent,
    prompt: String,
    replies: Vec<AssistantReply>,
    results: Vec<Vec<ToolResult>>,
) -> (s: Session)
    requires
        agent.wf(),
        replies@.len() == results@.len(),
    ensures
        s.wf(),
        (s.spec_iterations(), s.spec_phase()) == drive(0, agent.max_tool_iterations as nat, replies@),
        replies@.len() >= agent.max_tool_iterations && (forall|i: int|
            0 <= i < replies@.len() ==> #[trigger] replies@[i].calls@.len() > 0) ==> {
            &&& s.spec_iterations() == agent.max_tool_iterations
            &&& s.spec_phase() == Phase::Failed(AgentError::MaxIterationsExceeded)
        },
        replies@.len() > 0 && replies@[0].calls@.len() == 0 ==> {
            &&& s.spec_iterations() == 0
            &&& s.spec_phase() == Phase::Done(replies@[0].text)
        },
{
    let ghost max = agent.max_tool_iterations as nat;
    let ghost script = replies@;
    proof {
        if script.len() >= max && (forall|i: int| 0 <= i < script.len() ==> #[trigger] script[i].calls@.len() > 0) {
            crate::laws::lemma_always_tools_stops_at_bound(max, script);
        }
        if script.len() > 0 && script[0].calls@.len() == 0 {
            crate::laws::lemma_no_tools_done_at_once(0, max, script);
        }
    }
    let mut replies = replies;
    let mut results = results;
    let mut s = agent.start(prompt);
    let mut go = replies.len() > 0 && matches!(s.phase(), Phase::AwaitingModel);
    while go
        invariant
            s.wf(),
            s.spec_max() == max,
            replies@.len() == results@.len(),
            go == (replies@.len() > 0 && s.spec_phase() is AwaitingModel),
            s.spec_phase() is AwaitingModel ==> drive(0, max, script) == drive(s.spec_iterations(), max, replies@),
            !(s.spec_phase() is AwaitingModel) ==> drive(0, max, script) == (s.spec_iterations(), s.spec_phase()),
        decreases replies@.len(),
    {
        let ghost k = s.spec_iterations();
        let ghost before = replies@;
        let reply = replies.remove(0);
        let round = results.remove(0);
        assert(before.drop_first() =~= replies@);
        s.on_reply(Ok(reply));
        if matches!(s.phase(), Phase::ExecutingTools) {
            s.on_tool_results(round);
        }
        go = replies.len() > 0 && matches!(s.phase(), Phase::AwaitingModel);
    }
    s
}

} // verus!
