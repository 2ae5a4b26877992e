//! Probe strategies: which ordered, version-gated routes exist for each
//! logical fact, what each route invokes, and which parser interprets
//! what came back.

use vstd::prelude::*;

use crate::command::{CommandLine, CommandLineView};
use crate::version::{el_capitan, sequoia, SemanticVersion, spec_el_capitan, spec_sequoia};

verus! {

/// One queryable piece of system state.
#[derive(Clone, Copy, Debug, PartialEq, Eq, Structural)]
pub enum LogicalFact {
    WirelessPower,
    CurrentNetworkName,
    NearbyNetworkSet,
    SecurityConfigBits,
}

/// What one strategy invokes: an external command or a native call.
#[derive(Clone, Copy, Debug, PartialEq, Eq, Structural)]
pub enum ProbeCall {
    /// Query the radio-power state.
    AirportPowerQuery,
    /// Query the current network by the status command.
    AirportNetworkQuery,
    /// Scan for nearby networks with the tabular scanner.
    AirportScan,
    /// Produce the wireless report as structured text.
    AirportDataReport,
    /// Native lookup of the current network's name.
    NativeCurrentSsid,
    /// Native scan for nearby network names.
    NativeScanSsids,
    /// Native read of the security-configuration bitfield.
    NativeSecurityConfig,
}

/// Which parser interprets a strategy's raw output.
#[derive(Clone, Copy, Debug, PartialEq, Eq, Structural)]
pub enum ParserKind {
    PowerKeyValue,
    CurrentNetworkText,
    TabularNames,
    NestedCurrentNetwork,
    NestedNearby,
    NativeName,
    NativeNameList,
    NativeConfigWord,
}

/// A strategy's applicability predicate over the version. An unknown
/// version disqualifies every gated strategy rather than guessing.
#[derive(Clone, Copy, Debug, PartialEq, Eq, Structural)]
pub enum VersionGate {
    Always,
    Before(SemanticVersion),
    AtOrPast(SemanticVersion),
}

/// One route to a fact: when it applies, what it invokes, and how its
/// output is read. Strategies are immutable and ordered by preference.
#[derive(Clone, Copy, Debug, PartialEq, Eq, Structural)]
pub struct ProbeStrategy {
    pub gate: VersionGate,
    pub call: ProbeCall,
    pub parser: ParserKind,
}

pub open spec fn spec_gate_admits(gate: VersionGate, version: Option<SemanticVersion>) -> bool {
    match gate {
        VersionGate::Always => true,
        VersionGate::Before(t) => (match version {
            Some(v) => v.spec_lt(t),
            None => false,
        }),
        VersionGate::AtOrPast(t) => (match version {
            Some(v) => v.spec_ge(t),
            None => false,
        }),
    }
}

/// Whether a strategy applies: `Always` holds even with the version
/// unknown; a gated strategy needs a known version on the right side of
/// its threshold.
pub fn gate_admits(gate: &VersionGate, version: &Option<SemanticVersion>) -> (r: bool)
    ensures
        r == spec_gate_admits(*gate, *version),
{
    match gate {
        VersionGate::Always => true,
        VersionGate::Before(t) => match version {
            Some(v) => v.is_below(t),
            None => false,
        },
        VersionGate::AtOrPast(t) => match version {
            Some(v) => v.is_at_least(t),
            None => false,
        },
    }
}

/// The ordered strategy list of each fact, most reliable or fastest
/// first.
pub open spec fn spec_strategies(fact: LogicalFact) -> Seq<ProbeStrategy> {
    match fact {
        LogicalFact::WirelessPower => seq![
            ProbeStrategy {
                gate: VersionGate::Always,
                call: ProbeCall::AirportPowerQuery,
                parser: ParserKind::PowerKeyValue,
            },
        ],
        LogicalFact::CurrentNetworkName => seq![
            ProbeStrategy {
                gate: VersionGate::Before(spec_sequoia()),
                call: ProbeCall::AirportNetworkQuery,
                parser: ParserKind::CurrentNetworkText,
            },
            ProbeStrategy {
                gate: VersionGate::Always,
                call: ProbeCall::NativeCurrentSsid,
                parser: ParserKind::NativeName,
            },
            ProbeStrategy {
                gate: VersionGate::Always,
                call: ProbeCall::AirportDataReport,
                parser: ParserKind::NestedCurrentNetwork,
            },
        ],
        LogicalFact::NearbyNetworkSet => seq![
            ProbeStrategy {
                gate: VersionGate::Always,
                call: ProbeCall::AirportScan,
                parser: ParserKind::TabularNames,
            },
            ProbeStrategy {
                gate: VersionGate::Always,
                call: ProbeCall::NativeScanSsids,
                parser: ParserKind::NativeNameList,
            },
            ProbeStrategy {
                gate: VersionGate::Always,
                call: ProbeCall::AirportDataReport,
                parser: ParserKind::NestedNearby,
            },
        ],
        LogicalFact::SecurityConfigBits => seq![
            ProbeStrategy {
                gate: VersionGate::AtOrPast(spec_el_capitan()),
                call: ProbeCall::NativeSecurityConfig,
                parser: ParserKind::NativeConfigWord,
            },
        ],
    }
}

pub fn strategies_for(fact: LogicalFact) -> (v: Vec<ProbeStrategy>)
    ensures
        v@ == spec_strategies(fact),
{
    let mut v: Vec<ProbeStrategy> = Vec::new();
    match fact {
        LogicalFact::WirelessPower => {
            v.push(
                ProbeStrategy {
                    gate: VersionGate::Always,
                    call: ProbeCall::AirportPowerQuery,
                    parser: ParserKind::PowerKeyValue,
                },
            );
        },
        LogicalFact::CurrentNetworkName => {
            v.push(
                ProbeStrategy {
                    gate: VersionGate::Before(sequoia()),
                    call: ProbeCall::AirportNetworkQuery,
                    parser: ParserKind::CurrentNetworkText,
                },
            );
            v.push(
                ProbeStrategy {
                    gate: VersionGate::Always,
                    call: ProbeCall::NativeCurrentSsid,
                    parser: ParserKind::NativeName,
                },
            );
            v.push(
                ProbeStrategy {
                    gate: VersionGate::Always,
                    call: ProbeCall::AirportDataReport,
                    parser: ParserKind::NestedCurrentNetwork,
                },
            );
        },
        LogicalFact::NearbyNetworkSet => {
            v.push(
                ProbeStrategy {
                    gate: VersionGate::Always,
                    call: ProbeCall::AirportScan,
                    parser: ParserKind::TabularNames,
                },
            );
            v.push(
                ProbeStrategy {
                    gate: VersionGate::Always,
                    call: ProbeCall::NativeScanSsids,
                    parser: ParserKind::NativeNameList,
                },
            );
            v.push(
                ProbeStrategy {
                    gate: VersionGate::Always,
                    call: ProbeCall::AirportDataReport,
                    parser: ParserKind::NestedNearby,
                },
            );
        },
        LogicalFact::SecurityConfigBits => {
            v.push(
                ProbeStrategy {
                    gate: VersionGate::AtOrPast(el_capitan()),
                    call: ProbeCall::NativeSecurityConfig,
                    parser: ParserKind::NativeConfigWord,
                },
            );
        },
    }
    proof {
        assert(v@ =~= spec_strategies(fact));
    }
    v
}

// ---------------------------------------------------------------------------
// The concrete command behind each command-backed call
// ---------------------------------------------------------------------------

pub open spec fn spec_command_line(call: ProbeCall) -> Option<CommandLineView> {
    match call {
        ProbeCall::AirportPowerQuery => Some(
            CommandLineView {
                program: "networksetup"@,
                args: seq!["-getairportpower"@, "en0"@],
            },
        ),
        ProbeCall::AirportNetworkQuery => Some(
            CommandLineView {
                program: "networksetup"@,
                args: seq!["-getairportnetwork"@, "en0"@],
            },
        ),
        ProbeCall::AirportScan => Some(
            CommandLineView {
                program:
                    "/System/Library/PrivateFrameworks/Apple80211.framework/Versions/Current/Resources/airport"@,
                args: seq!["-s"@],
            },
        ),
        ProbeCall::AirportDataReport => Some(
            CommandLineView {
                program: "system_profiler"@,
                args: seq!["-json"@, "SPAirPortDataType"@],
            },
        ),
        _ => None,
    }
}

/// The command tokens behind a command-backed call; a native call has
/// none and is performed by the calling layer's native route instead.
pub fn command_line(call: &ProbeCall) -> (r: Option<CommandLine>)
    ensures
        match r {
            Some(c) => spec_command_line(*call) == Some(c@),
            None => spec_command_line(*call) is None,
        },
{
    match call {
        ProbeCall::AirportPowerQuery => {
            let mut args: Vec<String> = Vec::new();
            args.push(String::from_str("-getairportpower"));
            args.push(String::from_str("en0"));
            let c = CommandLine { program: String::from_str("networksetup"), args };
            proof {
                assert(c@.args =~= seq!["-getairportpower"@, "en0"@]);
            }
            Some(c)
        },
        ProbeCall::AirportNetworkQuery => {
            let mut args: Vec<String> = Vec::new();
            args.push(String::from_str("-getairportnetwork"));
            args.push(String::from_str("en0"));
            let c = CommandLine { program: String::from_str("networksetup"), args };
            proof {
                assert(c@.args =~= seq!["-getairportnetwork"@, "en0"@]);
            }
            Some(c)
        },
        ProbeCall::AirportScan => {
            let mut args: Vec<String> = Vec::new();
            args.push(String::from_str("-s"));
            let c = CommandLine {
                program: String::from_str(
                    "/System/Library/PrivateFrameworks/Apple80211.framework/Versions/Current/Resources/airport",
                ),
                args,
            };
            proof {
                assert(c@.args =~= seq!["-s"@]);
            }
            Some(c)
        },
        ProbeCall::AirportDataReport => {
            let mut args: Vec<String> = Vec::new();
            args.push(String::from_str("-json"));
            args.push(String::from_str("SPAirPortDataType"));
            let c = CommandLine { program: String::from_str("system_profiler"), args };
            proof {
                assert(c@.args =~= seq!["-json"@, "SPAirPortDataType"@]);
            }
            Some(c)
        },
        _ => None,
    }
}

// ---------------------------------------------------------------------------
// What an invocation hands back
// ---------------------------------------------------------------------------

/// The raw result of one successful invocation, before parsing.
#[derive(Debug)]
pub enum RawProbeOutput {
    /// A command's captured standard output.
    Text(String),
    /// A native current-network lookup: the name, if one was reported.
    CurrentSsid(Option<String>),
    /// A native scan: each entry's name, where readable.
    ScanEntries(Vec<Option<String>>),
    /// A native configuration read: the status code and the value.
    ConfigWord { code: i32, value: u32 },
}

pub enum RawProbeOutputView {
    Text(Seq<char>),
    CurrentSsid(Option<Seq<char>>),
    ScanEntries(Seq<Option<Seq<char>>>),
    ConfigWord { code: i32, value: u32 },
}

impl View for RawProbeOutput {
    type V = RawProbeOutputView;

    open spec fn view(&self) -> RawProbeOutputView {
        match self {
            RawProbeOutput::Text(s) => RawProbeOutputView::Text(s@),
            RawProbeOutput::CurrentSsid(o) => RawProbeOutputView::CurrentSsid(
                match o {
                    Some(s) => Some(s@),
                    None => None,
                },
            ),
            RawProbeOutput::ScanEntries(v) => RawProbeOutputView::ScanEntries(
                crate::wifi::spec_scan_views(v@),
            ),
            RawProbeOutput::ConfigWord { code, value } => RawProbeOutputView::ConfigWord {
                code: *code,
                value: *value,
            },
        }
    }
}

} // verus!
