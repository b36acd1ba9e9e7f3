//! The decisions of an agent's completion loop about the tool calls a model
//! asks for: each offered tool is called at most once, by the engine itself
//! where it has the tool; the loop goes on while a called tool's result needs
//! the model again.
use vstd::prelude::*;
use crate::text::{str_eq, texts_of};
use crate::model::{AgentOutput, CompletionRequest, Documents, ToolCall};

verus! {

/// What to do about one tool call of a model.
#[derive(Debug, Clone, Copy, PartialEq, Eq, Structural)]
pub enum CallPlan {
    /// The tool is not (or no longer) offered: the call is skipped.
    Skip,
    /// The engine has the tool and calls it; it is offered no more.
    Local,
    /// The tool is offered but the engine does not have it: nothing is
    /// called; it is offered no more.
    Elsewhere,
}

/// The test that keeps names other than `name`.
pub open spec fn other_than(name: Seq<char>) -> spec_fn(Seq<char>) -> bool {
    |t: Seq<char>| t != name
}

/// The names of `offered` other than `name`, in order.
pub open spec fn without_name(offered: Seq<Seq<char>>, name: Seq<char>) -> Seq<Seq<char>> {
    offered.filter(other_than(name))
}

/// The plan for one call, and the tools offered after it.
pub open spec fn plan_step(offered: Seq<Seq<char>>, name: Seq<char>, local: Set<Seq<char>>) -> (CallPlan, Seq<Seq<char>>) {
    if !offered.contains(name) {
        (CallPlan::Skip, offered)
    } else if local.contains(name) {
        (CallPlan::Local, without_name(offered, name))
    } else {
        (CallPlan::Elsewhere, without_name(offered, name))
    }
}

/// The plans for the calls, in order, and the tools offered after them.
pub open spec fn plan_calls(offered: Seq<Seq<char>>, calls: Seq<Seq<char>>, local: Set<Seq<char>>) -> (Seq<CallPlan>, Seq<Seq<char>>)
    decreases calls.len(),
{
    if calls.len() == 0 {
        (Seq::empty(), offered)
    } else {
        let (plans, rest) = plan_calls(offered, calls.drop_last(), local);
        let (p, after) = plan_step(rest, calls.last(), local);
        (plans.push(p), after)
    }
}


/// How many of the plans call a tool (locally or elsewhere).
pub open spec fn called_count(plans: Seq<CallPlan>) -> nat
    decreases plans.len(),
{
    if plans.len() == 0 {
        0
    } else {
        called_count(plans.drop_last()) + if plans.last() == CallPlan::Skip {
            0nat
        } else {
            1nat
        }
    }
}

/// Taking a name out of the offered tools leaves no tool that was not
/// offered, never that name, and fewer tools when the name was offered.
proof fn lemma_without_name(s: Seq<Seq<char>>, name: Seq<char>)
    ensures
        without_name(s, name).len() <= s.len(),
        s.contains(name) ==> without_name(s, name).len() < s.len(),
        !without_name(s, name).contains(name),
        forall|t: Seq<char>| #[trigger] without_name(s, name).contains(t) ==> s.contains(t),
    decreases s.len(),
{
    let pred = other_than(name);
    if s.len() > 0 {
        let p = s.drop_last();
        lemma_without_name(p, name);
        assert(s =~= p.push(s.last()));
        p.lemma_filter_push(s.last(), pred);
        if s.contains(name) && !p.contains(name) {
            assert(s.last() == name) by {
                let i = choose|i: int| 0 <= i < s.len() && s[i] == name;
                if i < s.len() - 1 {
                    assert(p[i] == name);
                }
            }
        }
        assert forall|t: Seq<char>| #[trigger] without_name(s, name).contains(t) implies s.contains(t) by {
            let w = without_name(s, name);
            let i = choose|i: int| 0 <= i < w.len() && w[i] == t;
            if pred(s.last()) && i == w.len() - 1 {
                assert(s[s.len() - 1] == t);
            } else {
                assert(without_name(p, name).contains(t));
                let j = choose|j: int| 0 <= j < p.len() && p[j] == t;
                assert(s[j] == t);
            }
        }
    } else {
        assert(s.filter(pred) =~= s) by {
            reveal(Seq::filter);
        }
    }
}

/// Each tool a round calls leaves the offered tools, and the offered tools
/// shrink by at least as many tools as the round calls: a tool is called at
/// most once over the whole completion, no tool is offered that was not
/// offered before, and so a completion that offers `n` tools asks the model
/// at most `n + 1` times (another round follows only a round that called a
/// tool).
pub proof fn called_tools_leave_offer(offered: Seq<Seq<char>>, calls: Seq<Seq<char>>, local: Set<Seq<char>>)
    ensures
        plan_calls(offered, calls, local).0.len() == calls.len(),
        forall|k: int|
            #![trigger plan_calls(offered, calls, local).0[k]]
            0 <= k < calls.len() && plan_calls(offered, calls, local).0[k] != CallPlan::Skip
                ==> !plan_calls(offered, calls, local).1.contains(calls[k]),
        plan_calls(offered, calls, local).1.len() + called_count(plan_calls(offered, calls, local).0)
            <= offered.len(),
        forall|t: Seq<char>| #[trigger] plan_calls(offered, calls, local).1.contains(t) ==> offered.contains(t),
    decreases calls.len(),
{
    if calls.len() > 0 {
        let c = calls.drop_last();
        called_tools_leave_offer(offered, c, local);
        let (plans, rest) = plan_calls(offered, c, local);
        let name = calls.last();
        lemma_without_name(rest, name);
        let (all_plans, after) = plan_calls(offered, calls, local);
        assert(all_plans.drop_last() =~= plans);
        assert forall|k: int|
            #![trigger all_plans[k]]
            0 <= k < calls.len() && all_plans[k] != CallPlan::Skip implies !after.contains(calls[k]) by {
            if k < calls.len() - 1 {
                assert(all_plans[k] == plans[k]);
                assert(calls[k] == c[k]);
                assert(!rest.contains(c[k]));
            }
        }
    }
}

/// The tools offered after several rounds of calls, each round's calls
/// planned against what the rounds before left offered.
pub open spec fn offered_after(offered: Seq<Seq<char>>, rounds: Seq<Seq<Seq<char>>>, local: Set<Seq<char>>) -> Seq<Seq<char>>
    decreases rounds.len(),
{
    if rounds.len() == 0 {
        offered
    } else {
        plan_calls(offered_after(offered, rounds.drop_last(), local), rounds.last(), local).1
    }
}

/// Rounds that each call at least one tool are at most as many as the tools
/// first offered.
pub proof fn calling_rounds_bounded(offered: Seq<Seq<char>>, rounds: Seq<Seq<Seq<char>>>, local: Set<Seq<char>>)
    requires
        forall|r: int|
            #![trigger rounds[r]]
            0 <= r < rounds.len() ==> called_count(
                plan_calls(offered_after(offered, rounds.take(r), local), rounds[r], local).0,
            ) >= 1,
    ensures
        offered_after(offered, rounds, local).len() + rounds.len() <= offered.len(),
    decreases rounds.len(),
{
    if rounds.len() > 0 {
        let p = rounds.drop_last();
        assert forall|r: int| #![trigger p[r]] 0 <= r < p.len() implies called_count(
            plan_calls(offered_after(offered, p.take(r), local), p[r], local).0,
        ) >= 1 by {
            assert(p.take(r) =~= rounds.take(r));
            assert(p[r] == rounds[r]);
        }
        calling_rounds_bounded(offered, p, local);
        assert(rounds.take(rounds.len() - 1) =~= p);
        let before = offered_after(offered, p, local);
        called_tools_leave_offer(before, rounds.last(), local);
        assert(rounds[rounds.len() - 1] == rounds.last());
    }
}

/// The names of `v` other than `name`, in order.
fn remove_name(v: &Vec<String>, name: &str) -> (r: Vec<String>)
    ensures
        texts_of(r@) == without_name(texts_of(v@), name@),
{
    let ghost ts = texts_of(v@);
    let ghost pred = other_than(name@);
    let mut r: Vec<String> = Vec::new();
    let mut i: usize = 0;
    assert(ts.take(0).filter(pred) =~= Seq::<Seq<char>>::empty());
    while i < v.len()
        invariant
            i <= v.len(),
            ts == texts_of(v@),
            pred == other_than(name@),
            texts_of(r@) == ts.take(i as int).filter(pred),
        decreases v.len() - i,
    {
        proof {
            assert(ts.take(i + 1) =~= ts.take(i as int).push(ts[i as int]));
            ts.take(i as int).lemma_filter_push(ts[i as int], pred);
        }
        if !str_eq(v[i].as_str(), name) {
            let ghost before = r@;
            r.push(v[i].clone());
            assert(texts_of(r@) =~= texts_of(before).push(v@[i as int]@));
        }
        i = i + 1;
    }
    assert(ts.take(i as int) =~= ts);
    r
}

/// Plans the tool calls a model asks for, in order: a call of a tool that is
/// not offered (any more) is skipped; otherwise the tool is offered no more,
/// and is called by the engine when `local` (the engine's tools) has it.
/// `offered` holds the tools still offered afterwards.
pub fn plan_tool_calls(offered: &mut Vec<String>, calls: &Vec<String>, local: &Vec<String>) -> (r: Vec<CallPlan>)
    ensures
        r@ == plan_calls(texts_of(old(offered)@), texts_of(calls@), texts_of(local@).to_set()).0,
        texts_of(final(offered)@) == plan_calls(
            texts_of(old(offered)@),
            texts_of(calls@),
            texts_of(local@).to_set(),
        ).1,
{
    let ghost start = texts_of(offered@);
    let ghost cs = texts_of(calls@);
    let ghost loc = texts_of(local@).to_set();
    let mut plans: Vec<CallPlan> = Vec::new();
    let mut i: usize = 0;
    while i < calls.len()
        invariant
            i <= calls.len(),
            start == texts_of(old(offered)@),
            cs == texts_of(calls@),
            loc == texts_of(local@).to_set(),
            plans@ == plan_calls(start, cs.take(i as int), loc).0,
            texts_of(offered@) == plan_calls(start, cs.take(i as int), loc).1,
        decreases calls.len() - i,
    {
        proof {
            assert(cs.take(i + 1).drop_last() =~= cs.take(i as int));
            assert(cs.take(i + 1).last() == calls@[i as int]@);
        }
        let name = calls[i].as_str();
        let offered_now = crate::text::listed(name, offered);
        if !offered_now {
            plans.push(CallPlan::Skip);
        } else {
            let rest = remove_name(offered, name);
            *offered = rest;
            if crate::text::listed(name, local) {
                plans.push(CallPlan::Local);
            } else {
                plans.push(CallPlan::Elsewhere);
            }
        }
        i = i + 1;
    }
    proof {
        assert(cs.take(i as int) =~= cs);
    }
    plans
}

/// The completion loop goes on (asking the model again with the results)
/// while some tool that was called asks to continue.
pub fn needs_another_round(continues: &Vec<bool>) -> (b: bool)
    ensures
        b == continues@.contains(true),
{
    let mut i: usize = 0;
    while i < continues.len()
        invariant
            i <= continues.len(),
            forall|k: int| 0 <= k < i ==> !continues@[k],
        decreases continues.len() - i,
    {
        if continues[i] {
            return true;
        }
        i = i + 1;
    }
    false
}

/// The request of the next round: the same tools still offered and the same
/// settings, but no system message, documents or prompt; the chat history is
/// the model's full history of the last round (none when it gave none)
/// followed by the results of the called tools that need the model again.
pub fn next_round_request(req: CompletionRequest, full_history: Option<Vec<String>>, continues: Vec<String>) -> (r: CompletionRequest)
    ensures
        r.system is None,
        r.documents.0@.len() == 0,
        r.prompt@.len() == 0,
        r.chat_history@ == (match full_history {
            Some(h) => h@,
            None => Seq::empty(),
        }) + continues@,
        r.tools == req.tools && r.system_name == req.system_name,
        r.content_parts == req.content_parts && r.prompter_name == req.prompter_name,
        r.tool_choice_required == req.tool_choice_required && r.max_tokens == req.max_tokens,
        r.response_format == req.response_format && r.stop == req.stop,
{
    let mut r = req;
    r.system = None;
    r.documents = Documents::empty();
    r.prompt = String::new();
    let mut history = match full_history {
        Some(h) => h,
        None => Vec::new(),
    };
    let mut more = continues;
    history.append(&mut more);
    r.chat_history = history;
    r
}

/// The output when a called tool fails: the round's output, failed with the
/// tool's error; the completion stops there.
pub fn failed_by_tool(out: AgentOutput, error: String) -> (r: AgentOutput)
    ensures
        r.failed_reason == Some(error),
        r.content == out.content && r.tool_calls == out.tool_calls,
        r.full_history == out.full_history && r.usage == out.usage,
{
    let mut r = out;
    r.failed_reason = Some(error);
    r
}

/// The tool calls the final output reports: all those of every round, none
/// when there were none.
pub fn reported_tool_calls(calls: Vec<ToolCall>) -> (r: Option<Vec<ToolCall>>)
    ensures
        calls@.len() == 0 ==> r is None,
        calls@.len() > 0 ==> r == Some(calls),
{
    if calls.len() == 0 {
        None
    } else {
        Some(calls)
    }
}

} // verus!
