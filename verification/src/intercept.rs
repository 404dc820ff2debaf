//! The interception callback's decision logic: for one hardware key
//! event, resolve the abstract key, drive both layout decoders, and
//! decide whether to suppress the original event and emit a replacement,
//! or to pass it through to the next hook in the chain.

use vstd::prelude::*;

use crate::key_mapping::{get_key_code_for_scancode, spec_key_for_scancode};
use crate::layout_decode::{
    jis_decode, jis_history, us_decode, us_history, DecodedSymbol, JisLayoutState, UsLayoutState,
};

verus! {

/// What the callback tells the OS to do with the original hardware
/// event: forward it to the next hook unchanged, or block it and emit a
/// synthetic replacement for the given target-layout symbol.
#[derive(Debug, Clone, Copy, PartialEq, Eq)]
pub enum RemapDecision {
    Passthrough,
    Suppress(DecodedSymbol),
}

/// The two long-lived layout decoders the callback drives: one for the
/// layout the keyboard is wired in (source, JIS) and one for the layout
/// it should behave as (target, US). Each incoming event is run through
/// both, from the same scancode, so neither decode can affect the other.
pub struct Interceptor {
    jis: JisLayoutState,
    us: UsLayoutState,
}

/// The mathematical state of an `Interceptor`: the scancode bytes each
/// of its two decoders has consumed, oldest first.
pub ghost struct InterceptorView {
    pub jis: Seq<u8>,
    pub us: Seq<u8>,
}

impl View for Interceptor {
    type V = InterceptorView;

    closed spec fn view(&self) -> InterceptorView {
        InterceptorView { jis: jis_history(self.jis), us: us_history(self.us) }
    }
}

/// The state of a freshly initialized interceptor: neither decoder has
/// consumed anything.
pub open spec fn fresh_view() -> InterceptorView {
    InterceptorView { jis: Seq::<u8>::empty(), us: Seq::<u8>::empty() }
}

/// Whether one hardware event reaches the layout decoders at all: the
/// hook must have handed the event over for processing, only key-down
/// edges are examined, both layout-state locks must have been acquired
/// without blocking, and the scancode must be in the allow-list.
pub open spec fn event_examined(
    processable: bool,
    key_down: bool,
    contended: bool,
    scancode: u8,
) -> bool {
    processable && key_down && !contended && spec_key_for_scancode(scancode) is Some
}

/// The decision for one hardware event, given the decoders' states: a
/// remap fires only if the event is examined and both layouts decode it
/// to a concrete symbol, and what is suppressed-and-replaced is always
/// the target-layout symbol. Everything else passes through.
pub open spec fn spec_decision(
    v: InterceptorView,
    processable: bool,
    key_down: bool,
    contended: bool,
    scancode: u8,
) -> RemapDecision {
    if event_examined(processable, key_down, contended, scancode) {
        match (jis_decode(v.jis, scancode), us_decode(v.us, scancode)) {
            (Some(_source), Some(target)) => RemapDecision::Suppress(target),
            _ => RemapDecision::Passthrough,
        }
    } else {
        RemapDecision::Passthrough
    }
}

/// The decoders' states after one hardware event: both consume the
/// scancode when the event is examined, neither is touched otherwise.
pub open spec fn spec_next(
    v: InterceptorView,
    processable: bool,
    key_down: bool,
    contended: bool,
    scancode: u8,
) -> InterceptorView {
    if event_examined(processable, key_down, contended, scancode) {
        InterceptorView { jis: v.jis.push(scancode), us: v.us.push(scancode) }
    } else {
        v
    }
}

impl Interceptor {
    /// Two freshly initialized layout decoders, as at process start.
    pub fn new() -> (r: Interceptor)
        ensures
            r@ == fresh_view(),
    {
        Interceptor { jis: JisLayoutState::new(), us: UsLayoutState::new() }
    }

    /// Handles one hardware key event.
    ///
    /// `processable` is the hook's leave to examine the event (a
    /// non-negative hook code), `key_down` whether the event is a
    /// key-down edge, `contended` whether either layout-state lock could
    /// not be acquired without blocking, and `scancode` the hardware
    /// position code. The decision and the new decoder states are
    /// exactly those of `spec_decision` and `spec_next`.
    pub fn handle_event(
        &mut self,
        processable: bool,
        key_down: bool,
        contended: bool,
        scancode: u8,
    ) -> (d: RemapDecision)
        ensures
            d == spec_decision(old(self)@, processable, key_down, contended, scancode),
            final(self)@ == spec_next(old(self)@, processable, key_down, contended, scancode),
    {
        if !processable || !key_down {
            return RemapDecision::Passthrough;
        }
        if contended {
            return RemapDecision::Passthrough;
        }
        if get_key_code_for_scancode(scancode).is_none() {
            return RemapDecision::Passthrough;
        }
        let source = self.jis.drive(scancode);
        let target = self.us.drive(scancode);
        match (source, target) {
            (Some(_source_symbol), Some(target_symbol)) => RemapDecision::Suppress(target_symbol),
            _ => RemapDecision::Passthrough,
        }
    }
}

/// The decision for one processable, uncontended key-down event.
pub open spec fn down_decision(v: InterceptorView, scancode: u8) -> RemapDecision {
    spec_decision(v, true, true, false, scancode)
}

/// The decoders' states after one processable, uncontended key-down
/// event.
pub open spec fn next_down(v: InterceptorView, scancode: u8) -> InterceptorView {
    spec_next(v, true, true, false, scancode)
}

/// The decoders' states after a whole sequence of processable,
/// uncontended key-down events, oldest first.
pub open spec fn run_state(v: InterceptorView, events: Seq<u8>) -> InterceptorView
    decreases events.len(),
{
    if events.len() == 0 {
        v
    } else {
        run_state(next_down(v, events[0]), events.drop_first())
    }
}

/// The decisions a whole sequence of processable, uncontended key-down
/// events draws, in order, starting from the given decoder states.
pub open spec fn decision_trace(v: InterceptorView, events: Seq<u8>) -> Seq<RemapDecision>
    decreases events.len(),
{
    if events.len() == 0 {
        Seq::<RemapDecision>::empty()
    } else {
        seq![down_decision(v, events[0])] + decision_trace(next_down(v, events[0]), events.drop_first())
    }
}

/// Extending an event sequence by one event extends its trace by that
/// event's decision, drawn in the state the earlier events left behind.
proof fn lemma_trace_snoc(v: InterceptorView, events: Seq<u8>, scancode: u8)
    ensures
        run_state(v, events.push(scancode)) == next_down(run_state(v, events), scancode),
        decision_trace(v, events.push(scancode)) == decision_trace(v, events).push(
            down_decision(run_state(v, events), scancode),
        ),
    decreases events.len(),
{
    let extended = events.push(scancode);
    if events.len() == 0 {
        assert(extended[0] == scancode);
        assert(extended.drop_first() =~= Seq::<u8>::empty());
        assert(run_state(next_down(v, scancode), Seq::<u8>::empty()) == next_down(v, scancode));
        assert(decision_trace(next_down(v, scancode), Seq::<u8>::empty())
            =~= Seq::<RemapDecision>::empty());
        assert(run_state(v, extended) == next_down(v, scancode));
        assert(decision_trace(v, extended) =~= decision_trace(v, events).push(
            down_decision(run_state(v, events), scancode),
        ));
    } else {
        assert(extended[0] == events[0]);
        assert(extended.drop_first() =~= events.drop_first().push(scancode));
        lemma_trace_snoc(next_down(v, events[0]), events.drop_first(), scancode);
        assert(decision_trace(v, extended) =~= decision_trace(v, events).push(
            down_decision(run_state(v, events), scancode),
        ));
    }
}

/// Replays a finite sequence of key-down events, as the hook would see
/// them, against a pair of freshly initialized layout decoders, and
/// returns the decision drawn for each event, in order.
pub fn run_key_downs(events: &Vec<u8>) -> (decisions: Vec<RemapDecision>)
    ensures
        decisions@ == decision_trace(fresh_view(), events@),
{
    let mut interceptor = Interceptor::new();
    let mut decisions: Vec<RemapDecision> = Vec::new();
    let mut i: usize = 0;
    while i < events.len()
        invariant
            i <= events.len(),
            interceptor@ == run_state(fresh_view(), events@.take(i as int)),
            decisions@ == decision_trace(fresh_view(), events@.take(i as int)),
        decreases events.len() - i,
    {
        let d = interceptor.handle_event(true, true, false, events[i]);
        decisions.push(d);
        proof {
            let prefix = events@.take(i as int);
            lemma_trace_snoc(fresh_view(), prefix, events@[i as int]);
            assert(events@.take(i as int + 1) =~= prefix.push(events@[i as int]));
        }
        i = i + 1;
    }
    proof {
        assert(events@.take(events@.len() as int) =~= events@);
    }
    decisions
}

/// Replaying an identical finite event sequence against two
/// independently freshly-initialized pairs of layout decoders yields
/// identical decision sequences.
pub proof fn lemma_fresh_replay_deterministic(
    first: InterceptorView,
    second: InterceptorView,
    events: Seq<u8>,
)
    requires
        first == fresh_view(),
        second == fresh_view(),
    ensures
        decision_trace(first, events) == decision_trace(second, events),
{
}

/// An event whose scancode is outside the allow-list always passes
/// through, and neither layout state is touched, whatever else holds of
/// the event.
pub proof fn lemma_unmapped_passthrough(
    v: InterceptorView,
    processable: bool,
    key_down: bool,
    contended: bool,
    scancode: u8,
)
    requires
        spec_key_for_scancode(scancode) is None,
    ensures
        spec_decision(v, processable, key_down, contended, scancode) == RemapDecision::Passthrough,
        spec_next(v, processable, key_down, contended, scancode) == v,
{
}

/// An examined event that either layout absorbs into pending state or
/// decodes to no symbol passes through.
pub proof fn lemma_undecodable_passthrough(
    v: InterceptorView,
    processable: bool,
    key_down: bool,
    contended: bool,
    scancode: u8,
)
    requires
        jis_decode(v.jis, scancode) is None || us_decode(v.us, scancode) is None,
    ensures
        spec_decision(v, processable, key_down, contended, scancode) == RemapDecision::Passthrough,
{
}

/// An examined event that both layouts decode to a concrete symbol is
/// suppressed, and the replacement is exactly the target-layout decode
/// of the event — never the source-layout decode.
pub proof fn lemma_both_decoded_suppress(v: InterceptorView, scancode: u8)
    requires
        spec_key_for_scancode(scancode) is Some,
        jis_decode(v.jis, scancode) is Some,
        us_decode(v.us, scancode) is Some,
    ensures
        spec_decision(v, true, true, false, scancode) == RemapDecision::Suppress(
            us_decode(v.us, scancode).unwrap(),
        ),
{
}

/// A layout-state lock that could not be acquired without blocking
/// forces Passthrough for that single event, and neither layout state is
/// touched; the next event gets a fresh attempt.
pub proof fn lemma_contended_passthrough(
    v: InterceptorView,
    processable: bool,
    key_down: bool,
    scancode: u8,
)
    ensures
        spec_decision(v, processable, key_down, true, scancode) == RemapDecision::Passthrough,
        spec_next(v, processable, key_down, true, scancode) == v,
{
}

} // verus!
