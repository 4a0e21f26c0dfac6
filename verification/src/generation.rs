//! The diagnostic streaming path: a fixed short token stream, delivered one
//! token at a time through the host's callbacks, honouring the host's stop
//! requests, and always closed by exactly one completion report.

use vstd::prelude::*;

use crate::sink::{Event, TokenSink, event_code, event_text, is_token_event};

verus! {

/// The fixed plan of the diagnostic stream: six literal tokens followed by
/// the prompt itself, echoed back as the last token.
pub open spec fn token_plan(prompt: Seq<char>) -> Seq<Seq<char>> {
    seq!["Hello"@, ","@, " "@, "tokens"@, "!"@, "  You said: "@, prompt]
}

/// The prompt text a run works with: a missing prompt is treated as the
/// empty prompt.
pub open spec fn prompt_text(prompt: Option<&str>) -> Seq<char> {
    match prompt {
        Some(p) => p@,
        None => Seq::empty(),
    }
}

/// Exactly the event records one generation run may append to a sink:
/// some nonempty prefix of the token plan, in order; every host answer
/// before the last delivered token was 0; the stream stops short of the
/// full plan only on a nonzero answer; and a single completion report with
/// status 0 closes the run.
pub open spec fn valid_emission(prompt: Seq<char>, ev: Seq<Event>) -> bool {
    let plan = token_plan(prompt);
    let k = ev.len() - 1;
    &&& 2 <= ev.len()
    &&& ev.len() <= plan.len() + 1
    &&& (forall|j: int|
        0 <= j < k ==> is_token_event(#[trigger] ev[j]) && event_text(ev[j]) == plan[j])
    &&& (forall|j: int| 0 <= j < k - 1 ==> event_code(#[trigger] ev[j]) == 0)
    &&& (k == plan.len() || event_code(ev[k - 1]) != 0)
    &&& ev[k] == (Event::Done { status: 0 })
}

/// The tokens of the plan as owned strings, in order.
fn build_token_plan(prompt: &str) -> (toks: Vec<String>)
    ensures
        toks@.len() == token_plan(prompt@).len(),
        forall|j: int| 0 <= j < toks@.len() ==> toks@[j]@ == token_plan(prompt@)[j],
{
    let mut toks: Vec<String> = Vec::new();
    toks.push("Hello".to_owned());
    toks.push(",".to_owned());
    toks.push(" ".to_owned());
    toks.push("tokens".to_owned());
    toks.push("!".to_owned());
    toks.push("  You said: ".to_owned());
    toks.push(prompt.to_owned());
    toks
}

/// Diagnostic generation: streams the fixed token plan for `prompt` into
/// `sink`, stopping early as soon as a token delivery answers nonzero, then
/// reports completion with status 0 exactly once. Returns 0 for every
/// input; a missing prompt is treated as the empty prompt.
pub fn generate_text<S: TokenSink>(prompt: Option<&str>, sink: &mut S) -> (r: i32)
    ensures
        r == 0,
        final(sink).events().len() > old(sink).events().len(),
        final(sink).events().subrange(0, old(sink).events().len() as int) == old(
            sink,
        ).events(),
        valid_emission(
            prompt_text(prompt),
            final(sink).events().subrange(
                old(sink).events().len() as int,
                final(sink).events().len() as int,
            ),
        ),
{
    let p: &str = match prompt {
        Some(s) => s,
        None => "",
    };
    proof {
        reveal_strlit("");
        assert(p@ == prompt_text(prompt));
    }
    let ghost plan = token_plan(prompt_text(prompt));
    let ghost base = sink.events();
    let toks = build_token_plan(p);
    let n = toks.len();
    let mut i: usize = 0;
    while i < n
        invariant_except_break
            n == toks@.len(),
            toks@.len() == plan.len(),
            forall|j: int| 0 <= j < toks@.len() ==> toks@[j]@ == plan[j],
            plan == token_plan(prompt_text(prompt)),
            0 <= i <= n,
            sink.events().len() == base.len() + i,
            sink.events().subrange(0, base.len() as int) == base,
            forall|j: int|
                0 <= j < i ==> is_token_event(#[trigger] sink.events()[base.len() + j])
                    && event_text(sink.events()[base.len() + j]) == plan[j],
            forall|j: int| 0 <= j < i ==> event_code(#[trigger] sink.events()[base.len() + j]) == 0,
        ensures
            n == toks@.len(),
            toks@.len() == plan.len(),
            plan == token_plan(prompt_text(prompt)),
            1 <= i <= n,
            sink.events().len() == base.len() + i,
            sink.events().subrange(0, base.len() as int) == base,
            forall|j: int|
                0 <= j < i ==> is_token_event(#[trigger] sink.events()[base.len() + j])
                    && event_text(sink.events()[base.len() + j]) == plan[j],
            forall|j: int|
                0 <= j < i - 1 ==> event_code(#[trigger] sink.events()[base.len() + j]) == 0,
            i == n || event_code(sink.events()[base.len() + i - 1]) != 0,
        decreases n - i,
    {
        let code = sink.on_token(toks[i].as_str());
        proof {
            assert(sink.events().subrange(0, base.len() as int) =~= base);
        }
        i = i + 1;
        if code != 0 {
            break;
        }
    }
    let ghost before_done = sink.events();
    sink.on_done(0);
    proof {
        let all = sink.events();
        let delta = all.subrange(base.len() as int, all.len() as int);
        assert(all.subrange(0, base.len() as int) =~= base);
        assert(delta.len() == i + 1);
        assert forall|j: int| 0 <= j < i implies is_token_event(#[trigger] delta[j]) && event_text(
            delta[j],
        ) == plan[j] by {
            assert(delta[j] == before_done[base.len() + j]);
        }
        assert forall|j: int| 0 <= j < i - 1 implies event_code(#[trigger] delta[j]) == 0 by {
            assert(delta[j] == before_done[base.len() + j]);
        }
        assert(delta[i as int] == (Event::Done { status: 0 }));
        if i < n {
            assert(delta[i - 1] == before_done[base.len() + i - 1]);
        }
        assert(valid_emission(prompt_text(prompt), delta));
    }
    0
}

/// Every generation run delivers at least one and at most seven tokens,
/// each drawn in order from the fixed plan, and closes with a single
/// completion report of status 0; when the run was not stopped early, the
/// last token delivered is exactly the prompt.
pub proof fn lemma_emission_token_bounds(prompt: Seq<char>, ev: Seq<Event>)
    requires
        valid_emission(prompt, ev),
    ensures
        2 <= ev.len() <= 8,
        forall|j: int| 0 <= j < ev.len() - 1 ==> is_token_event(#[trigger] ev[j]),
        ev[ev.len() - 1] == (Event::Done { status: 0 }),
        ev.len() == 8 ==> event_text(ev[ev.len() - 2]) == prompt,
{
    assert(token_plan(prompt).len() == 7);
    assert(token_plan(prompt)[6] == prompt);
}

/// A nonzero host answer stops the stream: the token that received it is
/// the last one delivered, and the single completion report still follows
/// immediately afterwards.
pub proof fn lemma_early_stop(prompt: Seq<char>, ev: Seq<Event>, j: int)
    requires
        valid_emission(prompt, ev),
        0 <= j < ev.len() - 1,
        event_code(ev[j]) != 0,
    ensures
        ev.len() == j + 2,
        ev[j + 1] == (Event::Done { status: 0 }),
{
}

} // verus!
