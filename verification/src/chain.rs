//! The fallback chain executor: for one requested fact, the eligible
//! strategies are tried strictly in preference order; the first whose
//! invocation and parse both succeed settles the outcome, and when
//! every eligible strategy fails the outcome aggregates every cause in
//! order. The calling layer performs each requested invocation and
//! feeds the result back; the decisions all live here.

use vstd::prelude::*;

use crate::doc::{parsed_doc_of, DIGIT_RUN_LIMIT};
use crate::outcome::{
    FactValue, FactValueView, InvocationError, InvocationErrorView, ParseError, ParseErrorView,
    ProbeError, ProbeErrorView, ProbeOutcome, ProbeOutcomeView,
};
use crate::probe::{
    gate_admits, spec_gate_admits, spec_strategies, strategies_for, LogicalFact, ParserKind,
    ProbeCall, ProbeStrategy, RawProbeOutput, RawProbeOutputView,
};
use crate::sip::get_sip;
use crate::version::SemanticVersion;
use crate::text::{has_digit_run, spec_dedup, spec_has_digit_run};
use crate::wifi::{
    current_network_from_doc, get_nearby_wifi_airport, get_nearby_wifi_ffi, is_wifi_on,
    nearby_networks_from_doc, parse_current_network, spec_airport_names,
    spec_current_network_doc, spec_current_network_text, spec_nearby_doc, spec_scan_errored,
    spec_scan_names, spec_wifi_power,
};

verus! {

// ---------------------------------------------------------------------------
// Parsing one strategy's raw output
// ---------------------------------------------------------------------------

/// What the strategy's parser makes of the raw output: a typed fact
/// value, or the cause of the strategy's failure.
pub open spec fn spec_apply_parser(parser: ParserKind, raw: RawProbeOutputView) -> Result<
    FactValueView,
    ProbeErrorView,
> {
    match (parser, raw) {
        (ParserKind::PowerKeyValue, RawProbeOutputView::Text(t)) => match spec_wifi_power(t) {
            Ok(b) => Ok(FactValueView::Power(b)),
            Err(e) => Err(ProbeErrorView::Parse(e)),
        },
        (ParserKind::CurrentNetworkText, RawProbeOutputView::Text(t)) => match
            spec_current_network_text(t) {
            Ok(s) => Ok(FactValueView::NetworkName(s)),
            Err(e) => Err(ProbeErrorView::Parse(e)),
        },
        (ParserKind::TabularNames, RawProbeOutputView::Text(t)) => match spec_airport_names(t) {
            Some(ns) => Ok(FactValueView::Networks(ns)),
            None => Err(ProbeErrorView::Parse(ParseErrorView::HeaderFieldMissing)),
        },
        (ParserKind::NestedCurrentNetwork, RawProbeOutputView::Text(t)) => {
            if spec_has_digit_run(t, DIGIT_RUN_LIMIT as int + 1) {
                Err(ProbeErrorView::Parse(ParseErrorView::MalformedDocument))
            } else {
                match parsed_doc_of(t) {
                    None => Err(ProbeErrorView::Parse(ParseErrorView::MalformedDocument)),
                    Some(d) => match spec_current_network_doc(d) {
                        Some(s) => Ok(FactValueView::NetworkName(s)),
                        None => Err(ProbeErrorView::Parse(ParseErrorView::MissingPathSegment)),
                    },
                }
            }
        },
        (ParserKind::NestedNearby, RawProbeOutputView::Text(t)) => {
            if spec_has_digit_run(t, DIGIT_RUN_LIMIT as int + 1) {
                Err(ProbeErrorView::Parse(ParseErrorView::MalformedDocument))
            } else {
                match parsed_doc_of(t) {
                    None => Err(ProbeErrorView::Parse(ParseErrorView::MalformedDocument)),
                    Some(d) => match spec_nearby_doc(d) {
                        Some(ns) => Ok(FactValueView::Networks(ns)),
                        None => Err(ProbeErrorView::Parse(ParseErrorView::MissingPathSegment)),
                    },
                }
            }
        },
        (ParserKind::NativeName, RawProbeOutputView::CurrentSsid(o)) => match o {
            Some(s) => Ok(FactValueView::NetworkName(s)),
            None => Err(ProbeErrorView::Parse(ParseErrorView::MissingField)),
        },
        (ParserKind::NativeNameList, RawProbeOutputView::ScanEntries(es)) => {
            if spec_scan_errored(es) && spec_dedup(spec_scan_names(es)).len() == 0 {
                Err(ProbeErrorView::Parse(ParseErrorView::EmptyScan))
            } else {
                Ok(FactValueView::Networks(spec_dedup(spec_scan_names(es))))
            }
        },
        (ParserKind::NativeConfigWord, RawProbeOutputView::ConfigWord { code, value }) => {
            if code == 0 {
                Ok(FactValueView::ConfigBits(value))
            } else {
                Err(
                    ProbeErrorView::Invocation(
                        InvocationErrorView {
                            kind: crate::outcome::InvocationErrorKind::NativeCallFailed,
                            detail: "security configuration call returned a failure code"@,
                        },
                    ),
                )
            }
        },
        _ => Err(ProbeErrorView::Parse(ParseErrorView::WrongShape)),
    }
}

/// Run the strategy's parser on the raw output.
pub fn apply_parser(parser: &ParserKind, raw: &RawProbeOutput) -> (r: Result<FactValue, ProbeError>)
    ensures
        match r {
            Ok(v) => spec_apply_parser(*parser, raw@) == Ok::<FactValueView, ProbeErrorView>(v@),
            Err(e) => spec_apply_parser(*parser, raw@) == Err::<FactValueView, ProbeErrorView>(e@),
        },
{
    match (parser, raw) {
        (ParserKind::PowerKeyValue, RawProbeOutput::Text(t)) => match is_wifi_on(t.as_str()) {
            Ok(b) => Ok(FactValue::Power(b)),
            Err(e) => Err(ProbeError::Parse(e)),
        },
        (ParserKind::CurrentNetworkText, RawProbeOutput::Text(t)) => match parse_current_network(
            t.as_str(),
        ) {
            Ok(s) => Ok(FactValue::NetworkName(s)),
            Err(e) => Err(ProbeError::Parse(e)),
        },
        (ParserKind::TabularNames, RawProbeOutput::Text(t)) => match get_nearby_wifi_airport(
            t.as_str(),
        ) {
            Some(ns) => Ok(FactValue::Networks(ns)),
            None => Err(ProbeError::Parse(ParseError::HeaderFieldMissing)),
        },
        (ParserKind::NestedCurrentNetwork, RawProbeOutput::Text(t)) => {
            if has_digit_run(t.as_str(), DIGIT_RUN_LIMIT + 1) {
                Err(ProbeError::Parse(ParseError::MalformedDocument))
            } else {
                match crate::doc::parse_structured(t.as_str()) {
                    None => Err(ProbeError::Parse(ParseError::MalformedDocument)),
                    Some(d) => match current_network_from_doc(&d) {
                        Some(s) => Ok(FactValue::NetworkName(s)),
                        None => Err(ProbeError::Parse(ParseError::MissingPathSegment)),
                    },
                }
            }
        },
        (ParserKind::NestedNearby, RawProbeOutput::Text(t)) => {
            if has_digit_run(t.as_str(), DIGIT_RUN_LIMIT + 1) {
                Err(ProbeError::Parse(ParseError::MalformedDocument))
            } else {
                match crate::doc::parse_structured(t.as_str()) {
                    None => Err(ProbeError::Parse(ParseError::MalformedDocument)),
                    Some(d) => match nearby_networks_from_doc(&d) {
                        Some(ns) => Ok(FactValue::Networks(ns)),
                        None => Err(ProbeError::Parse(ParseError::MissingPathSegment)),
                    },
                }
            }
        },
        (ParserKind::NativeName, RawProbeOutput::CurrentSsid(o)) => match o {
            Some(s) => Ok(FactValue::NetworkName(s.clone())),
            None => Err(ProbeError::Parse(ParseError::MissingField)),
        },
        (ParserKind::NativeNameList, RawProbeOutput::ScanEntries(es)) => match get_nearby_wifi_ffi(
            es,
        ) {
            Some(ns) => Ok(FactValue::Networks(ns)),
            None => Err(ProbeError::Parse(ParseError::EmptyScan)),
        },
        (ParserKind::NativeConfigWord, RawProbeOutput::ConfigWord { code, value }) => match get_sip(
            *code,
            *value,
        ) {
            Ok(b) => Ok(FactValue::ConfigBits(b)),
            Err(e) => Err(ProbeError::Invocation(e)),
        },
        _ => Err(ProbeError::Parse(ParseError::WrongShape)),
    }
}

// ---------------------------------------------------------------------------
// The chain's state
// ---------------------------------------------------------------------------

/// The strategies whose gate admits `version`, in original order.
pub open spec fn spec_eligible(strats: Seq<ProbeStrategy>, version: Option<SemanticVersion>)
    -> Seq<ProbeStrategy>
    decreases strats.len(),
{
    if strats.len() == 0 {
        Seq::empty()
    } else {
        let pre = spec_eligible(strats.drop_last(), version);
        if spec_gate_admits(strats.last().gate, version) {
            pre.push(strats.last())
        } else {
            pre
        }
    }
}

/// One in-flight resolution of a fact: the eligible strategies, how
/// many have failed so far, their causes in order, and the outcome once
/// settled.
#[derive(Debug)]
pub struct ChainState {
    pub fact: LogicalFact,
    pub eligible: Vec<ProbeStrategy>,
    pub tried: usize,
    pub causes: Vec<ProbeError>,
    pub outcome: Option<ProbeOutcome>,
}

#[verifier::ext_equal]
pub struct ChainStateView {
    pub fact: LogicalFact,
    pub eligible: Seq<ProbeStrategy>,
    pub tried: int,
    pub causes: Seq<ProbeErrorView>,
    pub outcome: Option<ProbeOutcomeView>,
}

impl View for ChainState {
    type V = ChainStateView;

    open spec fn view(&self) -> ChainStateView {
        ChainStateView {
            fact: self.fact,
            eligible: self.eligible@,
            tried: self.tried as int,
            causes: self.causes@.map_values(|e: ProbeError| e@),
            outcome: (match self.outcome {
                Some(o) => Some(o@),
                None => None,
            }),
        }
    }
}

impl ChainStateView {
    /// While unsettled, some strategy is pending and every earlier one
    /// has left its cause.
    pub open spec fn wf(self) -> bool {
        &&& 0 <= self.tried <= self.eligible.len()
        &&& (self.outcome is None ==> self.tried < self.eligible.len() && self.causes.len()
            == self.tried)
    }
}

/// Starting a chain: keep the strategies whose version predicate admits
/// the running version; with nothing eligible the outcome is
/// `Unsupported` at once - a distinct, expected condition, not a
/// failure.
pub open spec fn spec_chain_start(fact: LogicalFact, version: Option<SemanticVersion>)
    -> ChainStateView {
    let elig = spec_eligible(spec_strategies(fact), version);
    ChainStateView {
        fact,
        eligible: elig,
        tried: 0,
        causes: Seq::empty(),
        outcome: if elig.len() == 0 {
            Some(ProbeOutcomeView::Unsupported)
        } else {
            None
        },
    }
}

pub fn chain_start(fact: LogicalFact, version: &Option<SemanticVersion>) -> (s: ChainState)
    ensures
        s@ == spec_chain_start(fact, *version),
        s@.wf(),
{
    let strats = strategies_for(fact);
    let mut elig: Vec<ProbeStrategy> = Vec::new();
    let mut i: usize = 0;
    proof {
        assert(strats@.take(0) =~= Seq::<ProbeStrategy>::empty());
    }
    while i < strats.len()
        invariant
            0 <= i <= strats@.len(),
            strats@ == spec_strategies(fact),
            elig@ == spec_eligible(strats@.take(i as int), *version),
        decreases strats@.len() - i,
    {
        proof {
            assert(strats@.take(i + 1).drop_last() =~= strats@.take(i as int));
            assert(strats@.take(i + 1).last() == strats@[i as int]);
        }
        if gate_admits(&strats[i].gate, version) {
            elig.push(strats[i]);
        }
        i = i + 1;
    }
    proof {
        assert(strats@.take(i as int) =~= strats@);
    }
    let outcome = if elig.len() == 0 {
        Some(ProbeOutcome::Unsupported)
    } else {
        None
    };
    let s = ChainState { fact, eligible: elig, tried: 0, causes: Vec::new(), outcome };
    proof {
        assert(s@.causes =~= Seq::<ProbeErrorView>::empty());
        assert(s@ =~= spec_chain_start(fact, *version));
    }
    s
}

/// The next invocation the chain asks for: none once settled, else the
/// pending strategy's call. Strictly sequential: one call at a time, so
/// a slower strategy is only paid for when the faster ones have failed.
pub open spec fn spec_next_call(s: ChainStateView) -> Option<ProbeCall> {
    if s.outcome is Some {
        None
    } else {
        Some(s.eligible[s.tried].call)
    }
}

pub fn next_call(s: &ChainState) -> (r: Option<ProbeCall>)
    requires
        s@.wf(),
    ensures
        r == spec_next_call(s@),
{
    match &s.outcome {
        Some(_) => None,
        None => Some(s.eligible[s.tried].call),
    }
}

// ---------------------------------------------------------------------------
// Feeding one invocation's result
// ---------------------------------------------------------------------------

pub open spec fn spec_event_view(e: Result<RawProbeOutput, InvocationError>) -> Result<
    RawProbeOutputView,
    InvocationErrorView,
> {
    match e {
        Ok(raw) => Ok(raw@),
        Err(err) => Err(err@),
    }
}

/// One step: an invocation failure or a parse failure appends its cause
/// and moves to the next strategy - exhaustion aggregates every cause
/// into `Failure` - while a parse success settles the outcome on that
/// value, discarding the earlier causes from the report.
pub open spec fn spec_chain_feed(
    s: ChainStateView,
    ev: Result<RawProbeOutputView, InvocationErrorView>,
) -> ChainStateView {
    let res = match ev {
        Err(e) => Err(ProbeErrorView::Invocation(e)),
        Ok(raw) => spec_apply_parser(s.eligible[s.tried].parser, raw),
    };
    match res {
        Ok(v) => ChainStateView { outcome: Some(ProbeOutcomeView::Success(v)), ..s },
        Err(c) => {
            let causes2 = s.causes.push(c);
            if s.tried + 1 == s.eligible.len() {
                ChainStateView {
                    tried: s.tried + 1,
                    causes: Seq::empty(),
                    outcome: Some(ProbeOutcomeView::Failure(causes2)),
                    ..s
                }
            } else {
                ChainStateView { tried: s.tried + 1, causes: causes2, ..s }
            }
        },
    }
}

pub fn chain_feed(s: ChainState, event: Result<RawProbeOutput, InvocationError>) -> (s2: ChainState)
    requires
        s@.wf(),
        s@.outcome is None,
    ensures
        s2@ == spec_chain_feed(s@, spec_event_view(event)),
        s2@.wf(),
{
    let ChainState { fact, eligible, tried, mut causes, outcome: _ } = s;
    let pending = eligible.len();
    proof {
        assert((tried as int) < eligible@.len());
        assert(tried < pending);
    }
    let res: Result<FactValue, ProbeError> = match event {
        Err(e) => Err(ProbeError::Invocation(e)),
        Ok(raw) => apply_parser(&eligible[tried].parser, &raw),
    };
    match res {
        Ok(v) => {
            let s2 = ChainState {
                fact,
                eligible,
                tried,
                causes,
                outcome: Some(ProbeOutcome::Success(v)),
            };
            proof {
                assert(s2@ =~= spec_chain_feed(s@, spec_event_view(event)));
            }
            s2
        },
        Err(c) => {
            let ghost old_causes = causes@.map_values(|e: ProbeError| e@);
            let ghost cv = c@;
            causes.push(c);
            proof {
                assert(causes@.map_values(|e: ProbeError| e@) =~= old_causes.push(cv));
            }
            let tried2 = tried + 1;
            if tried2 == eligible.len() {
                let s2 = ChainState {
                    fact,
                    eligible,
                    tried: tried2,
                    causes: Vec::new(),
                    outcome: Some(ProbeOutcome::Failure(causes)),
                };
                proof {
                    assert(s2@.causes =~= Seq::<ProbeErrorView>::empty());
                    assert(s2@ =~= spec_chain_feed(s@, spec_event_view(event)));
                }
                s2
            } else {
                let s2 = ChainState {
                    fact,
                    eligible,
                    tried: tried2,
                    causes,
                    outcome: None,
                };
                proof {
                    assert(s2@ =~= spec_chain_feed(s@, spec_event_view(event)));
                }
                s2
            }
        },
    }
}

// ---------------------------------------------------------------------------
// Laws of the executor
// ---------------------------------------------------------------------------

/// Law (first success wins): when the pending strategy's parse of the
/// raw output succeeds, the chain settles on exactly that value and
/// asks for no further call - later strategies are never invoked.
pub proof fn lemma_first_success_wins(
    s: ChainStateView,
    raw: RawProbeOutputView,
    v: FactValueView,
)
    requires
        s.wf(),
        s.outcome is None,
        spec_apply_parser(s.eligible[s.tried].parser, raw) == Ok::<FactValueView, ProbeErrorView>(
            v,
        ),
    ensures
        spec_chain_feed(s, Ok(raw)).outcome == Some(ProbeOutcomeView::Success(v)),
        spec_next_call(spec_chain_feed(s, Ok(raw))) is None,
{
}

/// Law (fallback order): when the pending strategy fails and the next
/// one's parse succeeds, the outcome after the two steps is exactly the
/// second strategy's value, the first strategy's cause is discarded
/// from the report, and no third call is asked for.
pub proof fn lemma_fallback_order(
    s: ChainStateView,
    ev1: Result<RawProbeOutputView, InvocationErrorView>,
    raw2: RawProbeOutputView,
    v: FactValueView,
)
    requires
        s.wf(),
        s.outcome is None,
        s.tried + 1 < s.eligible.len(),
        (match ev1 {
            Ok(raw) => spec_apply_parser(s.eligible[s.tried].parser, raw) is Err,
            Err(_) => true,
        }),
        spec_apply_parser(s.eligible[s.tried + 1].parser, raw2) == Ok::<
            FactValueView,
            ProbeErrorView,
        >(v),
    ensures
        spec_chain_feed(spec_chain_feed(s, ev1), Ok(raw2)).outcome == Some(
            ProbeOutcomeView::Success(v),
        ),
        spec_next_call(spec_chain_feed(spec_chain_feed(s, ev1), Ok(raw2))) is None,
{
}

/// Law (unsupported is not failure): `Unsupported` arises exactly when
/// no strategy was eligible at the start, and feeding results never
/// produces it - a fact that was tried and failed reports `Failure`,
/// never `Unsupported`.
pub proof fn lemma_unsupported_only_without_eligible(
    fact: LogicalFact,
    version: Option<SemanticVersion>,
    ev: Result<RawProbeOutputView, InvocationErrorView>,
)
    ensures
        (spec_chain_start(fact, version).outcome == Some(ProbeOutcomeView::Unsupported))
            <==> spec_eligible(spec_strategies(fact), version).len() == 0,
        ({
            let c = spec_chain_start(fact, version);
            c.outcome is None ==> spec_chain_feed(c, ev).outcome != Some(
                ProbeOutcomeView::Unsupported,
            )
        }),
{
}

/// Law (aggregation): a failing step appends exactly its cause in
/// strategy order, and the step that exhausts the eligible strategies
/// returns `Failure` carrying every cause - nothing is lost and nothing
/// is reported early.
pub proof fn lemma_failure_aggregates(
    s: ChainStateView,
    ev: Result<RawProbeOutputView, InvocationErrorView>,
    c: ProbeErrorView,
)
    requires
        s.wf(),
        s.outcome is None,
        (match ev {
            Ok(raw) => spec_apply_parser(s.eligible[s.tried].parser, raw) == Err::<
                FactValueView,
                ProbeErrorView,
            >(c),
            Err(e) => c == ProbeErrorView::Invocation(e),
        }),
    ensures
        s.tried + 1 < s.eligible.len() ==> spec_chain_feed(s, ev) == (ChainStateView {
            tried: s.tried + 1,
            causes: s.causes.push(c),
            ..s
        }),
        s.tried + 1 == s.eligible.len() ==> spec_chain_feed(s, ev).outcome == Some(
            ProbeOutcomeView::Failure(s.causes.push(c)),
        ),
{
}

} // verus!
