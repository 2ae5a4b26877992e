//! Wireless state: the key-value parser for radio power, the
//! fixed-column tabular parser for nearby networks, the current-network
//! text parser, the native-lookup decision functions, and the document
//! extraction for the profiler fallback.

use vstd::prelude::*;

use crate::command::CommandLine;
use crate::doc::{
    at_step, key_step, parse_structured, parsed_doc_of, spec_at_step, spec_key_step, DocNode,
    DIGIT_RUN_LIMIT,
};
use crate::outcome::{ParseError, ParseErrorView};
use crate::text::{
    find_substring, has_digit_run, push_unique, spec_dedup, spec_find, spec_has_digit_run,
    spec_insert_unique, spec_split, spec_trim, split_str, str_eq_str, strip_prefix_str,
    strip_suffix_str, trim_str,
};
use crate::version::{SemanticVersion, sequoia, spec_sequoia};

verus! {

/// What one look at the wireless state yielded: the current network, if
/// it could be determined, and the nearby networks, if they could.
#[derive(Debug)]
pub struct WifiInfo {
    pub current: Option<String>,
    pub nearby: Option<Vec<String>>,
}

/// Session state for the wireless screen: the cached info plus the
/// user's in-progress selection and password entry.
#[derive(Debug)]
pub struct WifiData {
    pub wifi_info: Option<WifiInfo>,
    pub selected_network: String,
    pub password: String,
}

impl Default for WifiData {
    /// An empty session: nothing probed, nothing selected, no password.
    fn default() -> (d: Self)
        ensures
            d.wifi_info is None,
            d.selected_network@ == Seq::<char>::empty(),
            d.password@ == Seq::<char>::empty(),
    {
        WifiData { wifi_info: None, selected_network: String::new(), password: String::new() }
    }
}

// ---------------------------------------------------------------------------
// Radio power: key-value parsing and the toggle command
// ---------------------------------------------------------------------------

/// The radio-power answer hidden in a `key: value` line: the second
/// colon-delimited field, trimmed, must read `On` or `Off`.
pub open spec fn spec_wifi_power(text: Seq<char>) -> Result<bool, ParseErrorView> {
    let parts = spec_split(text, ':');
    if parts.len() < 2 {
        Err(ParseErrorView::MissingField)
    } else {
        let tok = spec_trim(parts[1]);
        if tok == "On"@ {
            Ok(true)
        } else if tok == "Off"@ {
            Ok(false)
        } else {
            Err(ParseErrorView::UnexpectedToken(tok))
        }
    }
}

/// Read the radio-power state out of the status command's output.
pub fn is_wifi_on(output: &str) -> (r: Result<bool, ParseError>)
    ensures
        match r {
            Ok(b) => spec_wifi_power(output@) == Ok::<bool, ParseErrorView>(b),
            Err(e) => spec_wifi_power(output@) == Err::<bool, ParseErrorView>(e@),
        },
{
    let parts = split_str(output, ':');
    proof {
        assert(parts@.map_values(|p: String| p@).len() == parts@.len());
    }
    if parts.len() < 2 {
        return Err(ParseError::MissingField);
    }
    proof {
        assert(parts@.map_values(|p: String| p@)[1] == parts@[1]@);
    }
    let tok = trim_str(parts[1].as_str());
    if str_eq_str(tok.as_str(), "On") {
        Ok(true)
    } else if str_eq_str(tok.as_str(), "Off") {
        Ok(false)
    } else {
        Err(ParseError::UnexpectedToken(tok))
    }
}

/// The command that turns the wireless radio on or off. State-changing:
/// the caller spawns it and must not retry it silently.
pub fn set_wifi(on: bool) -> (cmd: CommandLine)
    ensures
        cmd@.program == "networksetup"@,
        cmd@.args.len() == 3,
        cmd@.args[0] == "-setairportpower"@,
        cmd@.args[1] == "en0"@,
        cmd@.args[2] == (if on {
            "On"@
        } else {
            "Off"@
        }),
{
    let mut args: Vec<String> = Vec::new();
    args.push(String::from_str("-setairportpower"));
    args.push(String::from_str("en0"));
    args.push(String::from_str(if on { "On" } else { "Off" }));
    let cmd = CommandLine { program: String::from_str("networksetup"), args };
    proof {
        assert(cmd@.args =~= seq![
            "-setairportpower"@,
            "en0"@,
            if on {
                "On"@
            } else {
                "Off"@
            },
        ]);
    }
    cmd
}

/// The command that joins a network. The name and password travel as
/// discrete tokens, never through a shell.
pub fn join_network(ssid: &str, network_password: &str) -> (cmd: CommandLine)
    ensures
        cmd@.program == "networksetup"@,
        cmd@.args.len() == 4,
        cmd@.args[0] == "-setairportnetwork"@,
        cmd@.args[1] == "en0"@,
        cmd@.args[2] == ssid@,
        cmd@.args[3] == network_password@,
{
    let mut args: Vec<String> = Vec::new();
    args.push(String::from_str("-setairportnetwork"));
    args.push(String::from_str("en0"));
    args.push(String::from_str(ssid));
    args.push(String::from_str(network_password));
    let cmd = CommandLine { program: String::from_str("networksetup"), args };
    proof {
        assert(cmd@.args =~= seq!["-setairportnetwork"@, "en0"@, ssid@, network_password@]);
    }
    cmd
}

// ---------------------------------------------------------------------------
// The current network, from the status command's text
// ---------------------------------------------------------------------------

/// The current-network answer: either the fixed not-associated sentence,
/// or a prefixed name terminated by a newline.
pub open spec fn spec_current_network_text(text: Seq<char>) -> Result<Seq<char>, ParseErrorView> {
    if text == "You are not associated with an AirPort network.\n"@ {
        Ok("Not connected"@)
    } else {
        let p = "Current Wi-Fi Network: "@;
        if text.len() > p.len() && text.take(p.len() as int) == p && text.last() == '\n' {
            Ok(text.subrange(p.len() as int, text.len() - 1))
        } else {
            Err(ParseErrorView::MissingField)
        }
    }
}

/// Read the current network name out of the status command's output.
pub fn parse_current_network(output: &str) -> (r: Result<String, ParseError>)
    ensures
        match r {
            Ok(s) => spec_current_network_text(output@) == Ok::<Seq<char>, ParseErrorView>(s@),
            Err(e) => spec_current_network_text(output@) == Err::<Seq<char>, ParseErrorView>(e@),
        },
{
    if str_eq_str(output, "You are not associated with an AirPort network.\n") {
        return Ok(String::from_str("Not connected"));
    }
    let prefix = "Current Wi-Fi Network: ";
    match strip_prefix_str(output, prefix) {
        Some(rest) => match strip_suffix_str(rest.as_str(), "\n") {
            Some(name) => {
                proof {
                    reveal_strlit("\n");
                    let p = prefix@;
                    let t = output@;
                    assert(rest@.len() >= 1);
                    assert(t.len() > p.len());
                    assert(t.last() == rest@[rest@.len() - 1]) by {
                        assert(rest@ == t.skip(p.len() as int));
                    }
                    assert(rest@.skip(rest@.len() - 1)[0] == rest@[rest@.len() - 1]);
                    assert(t.last() == '\n');
                    assert(name@ =~= t.subrange(p.len() as int, t.len() - 1)) by {
                        assert(rest@ == t.skip(p.len() as int));
                        assert(name@ == rest@.take(rest@.len() - 1));
                    }
                }
                Ok(name)
            },
            None => {
                proof {
                    reveal_strlit("\n");
                    let p = prefix@;
                    let t = output@;
                    if t.len() > p.len() && t.take(p.len() as int) == p && t.last() == '\n' {
                        assert(rest@ == t.skip(p.len() as int));
                        assert(rest@.len() >= 1);
                        assert(rest@[rest@.len() - 1] == t.last());
                        assert(rest@.skip(rest@.len() - 1) =~= "\n"@);
                    }
                }
                Err(ParseError::MissingField)
            },
        },
        None => {
            proof {
                let p = prefix@;
                let t = output@;
                assert(!(t.len() > p.len() && t.take(p.len() as int) == p));
            }
            Err(ParseError::MissingField)
        },
    }
}

/// The original status-command route to the current network: only used
/// below the release that removed it, and only when the text parses.
pub fn get_current_wifi_networksetup(os_version: &SemanticVersion, output: &str) -> (r: Option<
    String,
>)
    ensures
        os_version.spec_ge(spec_sequoia()) ==> r is None,
        !os_version.spec_ge(spec_sequoia()) ==> match r {
            Some(s) => spec_current_network_text(output@) == Ok::<Seq<char>, ParseErrorView>(s@),
            None => spec_current_network_text(output@) is Err,
        },
{
    if os_version.is_below(&sequoia()) {
        match parse_current_network(output) {
            Ok(s) => Some(s),
            Err(_) => None,
        }
    } else {
        None
    }
}

// ---------------------------------------------------------------------------
// Native lookups: the decision parts
// ---------------------------------------------------------------------------

/// What a native current-network lookup reported.
#[derive(Debug)]
pub enum SsidLookup {
    /// No wireless interface was found.
    NoInterface,
    /// The interface exists but reported no current network name.
    NoSsid,
    /// The current network's name.
    Ssid(String),
}

/// The decision after a native current-network lookup: only a reported
/// name counts; a missing interface or name yields nothing.
pub fn get_current_wifi_ffi(lookup: SsidLookup) -> (r: Option<String>)
    ensures
        match lookup {
            SsidLookup::Ssid(s) => r == Some(s),
            _ => r is None,
        },
{
    match lookup {
        SsidLookup::Ssid(s) => Some(s),
        _ => None,
    }
}

/// The names among the scanned entries, in scan order; entries whose
/// name could not be read contribute nothing.
pub open spec fn spec_scan_names(entries: Seq<Option<Seq<char>>>) -> Seq<Seq<char>>
    decreases entries.len(),
{
    if entries.len() == 0 {
        Seq::empty()
    } else {
        let pre = spec_scan_names(entries.drop_last());
        match entries.last() {
            Some(s) => pre.push(s),
            None => pre,
        }
    }
}

/// Whether some scanned entry's name could not be read.
pub open spec fn spec_scan_errored(entries: Seq<Option<Seq<char>>>) -> bool {
    exists|i: int| 0 <= i < entries.len() && entries[i] is None
}

/// The scanned entries, each name by its characters.
pub open spec fn spec_scan_views(entries: Seq<Option<String>>) -> Seq<Option<Seq<char>>> {
    entries.map_values(
        |o: Option<String>|
            match o {
                Some(s) => Some(s@),
                None => None::<Seq<char>>,
            },
    )
}

/// The decision after a native scan: collect the distinct readable
/// names; only when every entry was unreadable and none yielded a name
/// is the scan itself a failure - an empty scan with no errors is a
/// valid empty set.
pub fn get_nearby_wifi_ffi(scan: &Vec<Option<String>>) -> (r: Option<Vec<String>>)
    ensures
        ({
            let ev = spec_scan_views(scan@);
            match r {
                Some(names) => names@.map_values(|s: String| s@) == spec_dedup(spec_scan_names(ev))
                    && !(spec_scan_errored(ev) && spec_dedup(spec_scan_names(ev)).len() == 0),
                None => spec_scan_errored(ev) && spec_dedup(spec_scan_names(ev)).len() == 0,
            }
        }),
{
    let ghost ev = spec_scan_views(scan@);
    let mut names: Vec<String> = Vec::new();
    let mut errored = false;
    let mut i: usize = 0;
    proof {
        assert(ev.take(0) =~= Seq::<Option<Seq<char>>>::empty());
        assert(names@.map_values(|s: String| s@) =~= Seq::<Seq<char>>::empty());
    }
    while i < scan.len()
        invariant
            0 <= i <= scan@.len(),
            ev == spec_scan_views(scan@),
            ev.len() == scan@.len(),
            names@.map_values(|s: String| s@) == spec_dedup(spec_scan_names(ev.take(i as int))),
            errored == spec_scan_errored(ev.take(i as int)),
        decreases scan@.len() - i,
    {
        let ghost pre = ev.take(i as int);
        proof {
            assert(ev.take(i + 1).drop_last() =~= pre);
            assert(ev.take(i + 1).last() == ev[i as int]);
        }
        match &scan[i] {
            Some(s) => {
                proof {
                    assert(ev[i as int] == Some(s@));
                }
                push_unique(&mut names, s.clone());
                proof {
                    let ns = spec_scan_names(pre);
                    assert(spec_scan_names(ev.take(i + 1)) == ns.push(s@));
                    assert(ns.push(s@).drop_last() =~= ns);
                    assert(ns.push(s@).last() == s@);
                    assert(spec_dedup(ns.push(s@)) == spec_insert_unique(spec_dedup(ns), s@));
                }
            },
            None => {
                errored = true;
                proof {
                    assert(ev.take(i + 1)[i as int] is None);
                }
            },
        }
        proof {
            if spec_scan_errored(ev.take(i + 1)) && !spec_scan_errored(pre) {
                let k = choose|k: int|
                    0 <= k < ev.take(i + 1).len() && #[trigger] ev.take(i + 1)[k] is None;
                if k < i as int {
                    assert(pre[k] is None);
                }
            }
        }
        i = i + 1;
    }
    proof {
        assert(ev.take(ev.len() as int) =~= ev);
    }
    if errored && names.len() == 0 {
        proof {
            assert(names@.map_values(|s: String| s@).len() == 0);
        }
        None
    } else {
        Some(names)
    }
}

// ---------------------------------------------------------------------------
// Nearby networks: the fixed-column tabular parser
// ---------------------------------------------------------------------------

/// The entity names in fixed-column data lines: for every line at least
/// `k` characters long, the trimmed prefix `[0, k)`; lines shorter than
/// the column offset contribute nothing.
pub open spec fn spec_tab_names(lines: Seq<Seq<char>>, k: int) -> Seq<Seq<char>>
    decreases lines.len(),
{
    if lines.len() == 0 {
        Seq::empty()
    } else {
        let pre = spec_tab_names(lines.drop_last(), k);
        if lines.last().len() >= k {
            pre.push(spec_trim(lines.last().take(k)))
        } else {
            pre
        }
    }
}

/// Line `j` is long enough for column offset `k` and names `x`.
pub open spec fn spec_line_name_at(lines: Seq<Seq<char>>, j: int, k: int, x: Seq<char>) -> bool {
    0 <= j < lines.len() && lines[j].len() >= k && x == spec_trim(lines[j].take(k))
}

proof fn lemma_tab_names_elements(lines: Seq<Seq<char>>, k: int)
    ensures
        forall|x: Seq<char>|
            #[trigger] spec_tab_names(lines, k).contains(x) <==> exists|j: int|
                spec_line_name_at(lines, j, k, x),
    decreases lines.len(),
{
    if lines.len() == 0 {
    } else {
        let pre = lines.drop_last();
        lemma_tab_names_elements(pre, k);
        let tp = spec_tab_names(pre, k);
        let last = lines.last();
        assert forall|x: Seq<char>|
            #[trigger] spec_tab_names(lines, k).contains(x) <==> exists|j: int|
                spec_line_name_at(lines, j, k, x) by {
            if last.len() >= k {
                crate::text::lemma_push_contains(tp, spec_trim(last.take(k)), x);
            }
            if spec_tab_names(lines, k).contains(x) {
                if tp.contains(x) {
                    let j = choose|j: int| spec_line_name_at(pre, j, k, x);
                    assert(pre[j] == lines[j]);
                    assert(spec_line_name_at(lines, j, k, x));
                } else {
                    assert(last.len() >= k && x == spec_trim(last.take(k)));
                    assert(spec_line_name_at(lines, lines.len() - 1, k, x));
                }
            }
            if exists|j: int| spec_line_name_at(lines, j, k, x) {
                let j = choose|j: int| spec_line_name_at(lines, j, k, x);
                if j < lines.len() - 1 {
                    assert(pre[j] == lines[j]);
                    assert(spec_line_name_at(pre, j, k, x));
                    assert(tp.contains(x));
                }
            }
        }
    }
}

/// What the tabular parser yields on the whole text: `None` when the
/// header line lacks the column token, else the distinct trimmed
/// prefixes of the long-enough data lines, in first-occurrence order.
pub open spec fn spec_airport_names(text: Seq<char>) -> Option<Seq<Seq<char>>> {
    let lines = spec_split(text, '\n');
    match spec_find(lines[0], "BSSID"@) {
        Some(k) => Some(spec_dedup(spec_tab_names(lines.skip(1), k))),
        None => None,
    }
}

/// The fixed-column tabular route to the nearby networks: locate the
/// column token in the header line, then take each later line's trimmed
/// prefix up to that offset as an entity name.
pub fn get_nearby_wifi_airport(output: &str) -> (r: Option<Vec<String>>)
    ensures
        match r {
            Some(names) => spec_airport_names(output@) == Some(
                names@.map_values(|s: String| s@),
            ),
            None => spec_airport_names(output@) is None,
        },
{
    let lines = split_str(output, '\n');
    let ghost lviews = lines@.map_values(|p: String| p@);
    proof {
        assert(lviews[0] == lines@[0]@);
    }
    let k = match find_substring(lines[0].as_str(), "BSSID") {
        Some(k) => k,
        None => {
            return None;
        },
    };
    let ghost data = lviews.skip(1);
    let mut names: Vec<String> = Vec::new();
    let mut i: usize = 1;
    proof {
        assert(data.take(0) =~= Seq::<Seq<char>>::empty());
        assert(names@.map_values(|s: String| s@) =~= Seq::<Seq<char>>::empty());
    }
    while i < lines.len()
        invariant
            1 <= i <= lines@.len(),
            lviews == lines@.map_values(|p: String| p@),
            data == lviews.skip(1),
            names@.map_values(|s: String| s@) == spec_dedup(
                spec_tab_names(data.take(i - 1), k as int),
            ),
        decreases lines@.len() - i,
    {
        let ghost pre = data.take(i - 1);
        proof {
            assert(data.take(i as int).drop_last() =~= pre);
            assert(data.take(i as int).last() == data[i - 1]);
            assert(data[i - 1] == lviews[i as int]);
            assert(lviews[i as int] == lines@[i as int]@);
        }
        let line = &lines[i];
        if line.unicode_len() >= k {
            let name = trim_str(line.substring_char(0, k));
            proof {
                assert(line@.subrange(0, k as int) =~= line@.take(k as int));
            }
            let ghost tn = spec_tab_names(pre, k as int);
            push_unique(&mut names, name);
            proof {
                assert(spec_tab_names(data.take(i as int), k as int) == tn.push(
                    spec_trim(line@.take(k as int)),
                ));
                assert(tn.push(spec_trim(line@.take(k as int))).drop_last() =~= tn);
                assert(spec_dedup(tn.push(spec_trim(line@.take(k as int))))
                    == spec_insert_unique(spec_dedup(tn), spec_trim(line@.take(k as int))));
            }
        } else {
            proof {
                assert(spec_tab_names(data.take(i as int), k as int) == spec_tab_names(
                    pre,
                    k as int,
                ));
            }
        }
        i = i + 1;
    }
    proof {
        assert(data.take(i - 1) =~= data);
    }
    Some(names)
}

/// Law (tabular parse): when the header holds the column token first at
/// offset `k`, the parse succeeds and yields exactly the trimmed
/// prefixes `[0, k)` of the data lines at least `k` characters long -
/// shorter lines are skipped - with duplicates collapsed into one.
pub proof fn lemma_airport_names_exact(text: Seq<char>, k: int, names: Seq<Seq<char>>)
    requires
        spec_find(spec_split(text, '\n')[0], "BSSID"@) == Some(k),
        spec_airport_names(text) == Some(names),
    ensures
        names.no_duplicates(),
        forall|x: Seq<char>|
            #[trigger] names.contains(x) <==> exists|j: int|
                spec_line_name_at(spec_split(text, '\n').skip(1), j, k, x),
{
    let data = spec_split(text, '\n').skip(1);
    let raw = spec_tab_names(data, k);
    crate::text::lemma_dedup_elements(raw);
    lemma_tab_names_elements(data, k);
}

// ---------------------------------------------------------------------------
// The profiler document: the nested-structure route
// ---------------------------------------------------------------------------

/// The interfaces node of a profiler document: the first interface of
/// the first data entry.
pub open spec fn spec_interfaces_node(doc: DocNode) -> Option<DocNode> {
    spec_at_step(
        spec_key_step(
            spec_at_step(spec_key_step(Some(doc), "SPAirPortDataType"@), 0),
            "spairport_airport_interfaces"@,
        ),
        0,
    )
}

/// The current network's name in a profiler document.
pub open spec fn spec_current_network_doc(doc: DocNode) -> Option<Seq<char>> {
    match spec_key_step(
        spec_key_step(spec_interfaces_node(doc), "spairport_current_network_information"@),
        "_name"@,
    ) {
        Some(DocNode::Text(s)) => Some(s@),
        _ => None,
    }
}

/// Extract the current network's name from a profiler document; absence
/// of any path segment, or a non-text leaf, is a hard failure.
pub fn current_network_from_doc(doc: &DocNode) -> (r: Option<String>)
    ensures
        match r {
            Some(s) => spec_current_network_doc(*doc) == Some(s@),
            None => spec_current_network_doc(*doc) is None,
        },
{
    let a = key_step(Some(doc), "SPAirPortDataType");
    let b = at_step(a, 0);
    let c = key_step(b, "spairport_airport_interfaces");
    let d = at_step(c, 0);
    let e = key_step(d, "spairport_current_network_information");
    let f = key_step(e, "_name");
    match f {
        Some(n) => match n {
            DocNode::Text(s) => Some(s.clone()),
            _ => None,
        },
        None => None,
    }
}

/// The `_name` texts of the members, in order; a member without a text
/// `_name` makes the whole extraction fail.
pub open spec fn spec_member_names(items: Seq<DocNode>) -> Option<Seq<Seq<char>>>
    decreases items.len(),
{
    if items.len() == 0 {
        Some(Seq::empty())
    } else {
        match spec_member_names(items.drop_last()) {
            None => None,
            Some(pre) => match spec_key_step(Some(items.last()), "_name"@) {
                Some(DocNode::Text(s)) => Some(pre.push(s@)),
                _ => None,
            },
        }
    }
}

proof fn lemma_member_names_none_extends(items: Seq<DocNode>, j: int)
    requires
        0 <= j <= items.len(),
        spec_member_names(items.take(j)) is None,
    ensures
        spec_member_names(items) is None,
    decreases items.len() - j,
{
    if j == items.len() {
        assert(items.take(j) =~= items);
    } else {
        assert(items.take(j + 1).drop_last() =~= items.take(j));
        lemma_member_names_none_extends(items, j + 1);
    }
}

/// The nearby networks in a profiler document: the distinct `_name`
/// texts of the other-local-networks members.
pub open spec fn spec_nearby_doc(doc: DocNode) -> Option<Seq<Seq<char>>> {
    match spec_key_step(
        spec_interfaces_node(doc),
        "spairport_airport_other_local_wireless_networks"@,
    ) {
        Some(DocNode::List(items)) => match spec_member_names(items@) {
            Some(ns) => Some(spec_dedup(ns)),
            None => None,
        },
        _ => None,
    }
}

/// Extract the nearby networks from a profiler document.
pub fn nearby_networks_from_doc(doc: &DocNode) -> (r: Option<Vec<String>>)
    ensures
        match r {
            Some(names) => spec_nearby_doc(*doc) == Some(names@.map_values(|s: String| s@)),
            None => spec_nearby_doc(*doc) is None,
        },
{
    let a = key_step(Some(doc), "SPAirPortDataType");
    let b = at_step(a, 0);
    let c = key_step(b, "spairport_airport_interfaces");
    let d = at_step(c, 0);
    let e = key_step(d, "spairport_airport_other_local_wireless_networks");
    let items: &Vec<DocNode> = match e {
        Some(n) => match n {
            DocNode::List(items) => items,
            _ => {
                return None;
            },
        },
        None => {
            return None;
        },
    };
    let mut names: Vec<String> = Vec::new();
    let ghost mut ns: Seq<Seq<char>> = Seq::empty();
    let mut i: usize = 0;
    proof {
        assert(items@.take(0) =~= Seq::<DocNode>::empty());
        assert(names@.map_values(|s: String| s@) =~= Seq::<Seq<char>>::empty());
    }
    while i < items.len()
        invariant
            0 <= i <= items@.len(),
            spec_member_names(items@.take(i as int)) == Some(ns),
            names@.map_values(|s: String| s@) == spec_dedup(ns),
            spec_nearby_doc(*doc) == (match spec_member_names(items@) {
                Some(full) => Some(spec_dedup(full)),
                None => None,
            }),
        decreases items@.len() - i,
    {
        proof {
            assert(items@.take(i + 1).drop_last() =~= items@.take(i as int));
            assert(items@.take(i + 1).last() == items@[i as int]);
        }
        let m = key_step(Some(&items[i]), "_name");
        let text = match m {
            Some(n) => match n {
                DocNode::Text(s) => s,
                _ => {
                    proof {
                        lemma_member_names_none_extends(items@, i + 1);
                    }
                    return None;
                },
            },
            None => {
                proof {
                    lemma_member_names_none_extends(items@, i + 1);
                }
                return None;
            },
        };
        push_unique(&mut names, text.clone());
        proof {
            assert(spec_member_names(items@.take(i + 1)) == Some(ns.push(text@)));
            assert(ns.push(text@).drop_last() =~= ns);
            assert(spec_dedup(ns.push(text@)) == spec_insert_unique(spec_dedup(ns), text@));
            ns = ns.push(text@);
        }
        i = i + 1;
    }
    proof {
        assert(items@.take(i as int) =~= items@);
    }
    Some(names)
}

// ---------------------------------------------------------------------------
// Combining the routes into one look at the wireless state
// ---------------------------------------------------------------------------

pub open spec fn spec_opt_name(o: Option<String>) -> Option<Seq<char>> {
    match o {
        Some(s) => Some(s@),
        None => None,
    }
}

pub open spec fn spec_opt_names(o: Option<Vec<String>>) -> Option<Seq<Seq<char>>> {
    match o {
        Some(v) => Some(v@.map_values(|s: String| s@)),
        None => None,
    }
}

/// One look at the wireless state: keep whatever the faster routes
/// already answered, and fill each gap from the profiler document when
/// its text is available, within the digit-run bound, and parses; a gap
/// that nothing answers stays empty and is reported as such.
pub fn get_wifi_info_heuristic(
    nearby: Option<Vec<String>>,
    current: Option<String>,
    profiler_output: Option<&str>,
) -> (info: WifiInfo)
    ensures
        ({
            let doc = (match profiler_output {
                Some(t) => if spec_has_digit_run(t@, DIGIT_RUN_LIMIT as int + 1) {
                    None
                } else {
                    parsed_doc_of(t@)
                },
                None => None,
            });
            &&& spec_opt_name(info.current) == (match (current, doc) {
                (Some(s), _) => Some(s@),
                (None, Some(d)) => spec_current_network_doc(d),
                (None, None) => None::<Seq<char>>,
            })
            &&& spec_opt_names(info.nearby) == (match (nearby, doc) {
                (Some(v), _) => Some(v@.map_values(|s: String| s@)),
                (None, Some(d)) => spec_nearby_doc(d),
                (None, None) => None::<Seq<Seq<char>>>,
            })
        }),
{
    let mut cur = current;
    let mut near = nearby;
    if cur.is_none() || near.is_none() {
        let parsed = match profiler_output {
            Some(text) => if has_digit_run(text, DIGIT_RUN_LIMIT + 1) {
                None
            } else {
                parse_structured(text)
            },
            None => None,
        };
        match parsed {
            Some(docnode) => {
                if cur.is_none() {
                    cur = current_network_from_doc(&docnode);
                }
                if near.is_none() {
                    near = nearby_networks_from_doc(&docnode);
                }
            },
            None => {},
        }
    }
    WifiInfo { current: cur, nearby: near }
}

// ---------------------------------------------------------------------------
// Preference order among the routes
// ---------------------------------------------------------------------------

/// The nearby-network preference: the tabular route when it answered,
/// otherwise the native scan.
pub fn get_nearby_wifi_heuristic(airport: Option<Vec<String>>, native_scan: Option<Vec<String>>)
    -> (r: Option<Vec<String>>)
    ensures
        airport is Some ==> r == airport,
        airport is None ==> r == native_scan,
{
    match airport {
        Some(n) => Some(n),
        None => native_scan,
    }
}

/// The current-network preference: the status command when it answered,
/// otherwise the native lookup.
pub fn get_current_wifi_heuristic(networksetup: Option<String>, native: Option<String>) -> (r:
    Option<String>)
    ensures
        networksetup is Some ==> r == networksetup,
        networksetup is None ==> r == native,
{
    match networksetup {
        Some(n) => Some(n),
        None => native,
    }
}

} // verus!
