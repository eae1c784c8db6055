//! One chunk through all stages: the scans of its text, the step of the
//! correlator, and the alert that is due.

use crate::classify::{classify, has_marker, is_online_event, is_restart_log, EVENT_TYPE,
    LOG_EVENT, PROCESS_EVENT, RESTART_EVENT};
use crate::correlator::{after_observe, fires, Correlator};
use crate::decode::{chunk_text, decode_chunk};
use crate::payload::{embedded_object, extract_embedded_object, object_fields, parse_obj,
    payload_from_fields, payload_of, MalformedObject, ProcessEventPayload};
use crate::restart::{find_process, restart_id};
use crate::text::contains;
use vstd::prelude::*;

verus! {

/// What the search for the restart sentence came to.
#[derive(Clone, Copy, Debug, PartialEq, Eq, Structural)]
pub enum RestartScan {
    /// The text is no log record of a kill for memory: nothing was searched.
    NotChecked,
    /// The text was searched and carries no readable identifier.
    NoIdentifier,
    /// The restart sentence carries this identifier.
    Found(i64),
}

/// What the search for the payload of a process event came to.
#[derive(Debug)]
pub enum EventScan {
    /// The text is no process record of a running process: nothing was parsed.
    NotChecked,
    /// No delimiter stands in the text, so there is no embedded object.
    NoDelimiter,
    /// The embedded object is no JSON text.
    Malformed(MalformedObject),
    /// The object lacks the identifier or the name of the process.
    MissingFields,
    /// The event of a running process.
    Online(ProcessEventPayload),
}

/// An `EventScan` without what only serves the log: the parser's words.
pub enum EventScanView {
    NotChecked,
    NoDelimiter,
    Malformed,
    MissingFields,
    Online(i64, Seq<char>),
}

impl View for EventScan {
    type V = EventScanView;

    open spec fn view(&self) -> EventScanView {
        match self {
            EventScan::NotChecked => EventScanView::NotChecked,
            EventScan::NoDelimiter => EventScanView::NoDelimiter,
            EventScan::Malformed(_) => EventScanView::Malformed,
            EventScan::MissingFields => EventScanView::MissingFields,
            EventScan::Online(payload) => EventScanView::Online(payload.pm_id, payload.name@),
        }
    }
}

/// The restart scan of a text: the sentence is looked for only in a log
/// record of a kill for memory.
pub open spec fn restart_scan_of(text: Seq<char>) -> RestartScan {
    if is_restart_log(text) {
        match restart_id(text) {
            Some(id) => RestartScan::Found(id),
            None => RestartScan::NoIdentifier,
        }
    } else {
        RestartScan::NotChecked
    }
}

/// The event scan of a text: the object is looked for only in a process
/// record of a running process.
pub open spec fn event_scan_of(text: Seq<char>) -> EventScanView {
    if is_online_event(text) {
        match embedded_object(text) {
            Some(json) => match object_fields(json) {
                Some(fields) => match payload_of(fields) {
                    Some((pm_id, name)) => EventScanView::Online(pm_id, name),
                    None => EventScanView::MissingFields,
                },
                None => EventScanView::Malformed,
            },
            None => EventScanView::NoDelimiter,
        }
    } else {
        EventScanView::NotChecked
    }
}

/// The pending identifier after the restart scan: a scan that was not made
/// leaves it, one that was made replaces it by what it found.
pub open spec fn pending_after_restart(pending: Option<i64>, restart: RestartScan) -> Option<i64> {
    match restart {
        RestartScan::NotChecked => pending,
        RestartScan::NoIdentifier => None,
        RestartScan::Found(id) => Some(id),
    }
}

/// The pending identifier after both scans of one chunk: first the restart
/// scan, then the process event, if there is one, observed.
pub open spec fn pending_after(
    pending: Option<i64>,
    restart: RestartScan,
    event: EventScanView,
) -> Option<i64> {
    let scanned = pending_after_restart(pending, restart);
    match event {
        EventScanView::Online(pm_id, _) => after_observe(scanned, pm_id),
        _ => scanned,
    }
}

/// The name to alert on after both scans of one chunk: that of a running
/// process whose identifier is pending once the restart scan is applied.
pub open spec fn emitted_by(
    pending: Option<i64>,
    restart: RestartScan,
    event: EventScanView,
) -> Option<Seq<char>> {
    let scanned = pending_after_restart(pending, restart);
    match event {
        EventScanView::Online(pm_id, name) if fires(scanned, pm_id) => Some(name),
        _ => None,
    }
}

/// Looks for the restart sentence, in a log record of a kill for memory only.
pub fn scan_restart(text: &str) -> (scan: RestartScan)
    ensures
        scan == restart_scan_of(text@),
{
    if classify(text).log_event && has_marker(text, RESTART_EVENT) {
        match find_process(text) {
            Some(id) => RestartScan::Found(id),
            None => RestartScan::NoIdentifier,
        }
    } else {
        RestartScan::NotChecked
    }
}

/// Looks for the payload of a process event, in a process record of a running
/// process only.
pub fn scan_event(text: &str) -> (scan: EventScan)
    ensures
        scan@ == event_scan_of(text@),
{
    if !(classify(text).process_event && has_marker(text, EVENT_TYPE)) {
        return EventScan::NotChecked;
    }
    let json = match extract_embedded_object(text) {
        Some(json) => json,
        None => {
            return EventScan::NoDelimiter;
        },
    };
    let fields = match parse_obj(json.as_str()) {
        Ok(fields) => fields,
        Err(malformed) => {
            return EventScan::Malformed(malformed);
        },
    };
    match payload_from_fields(fields) {
        Some(payload) => EventScan::Online(payload),
        None => EventScan::MissingFields,
    }
}

/// Applies the two scans of one chunk to the correlator, the restart scan
/// first, and hands out the name to alert on, if the event completes the
/// pending restart.
pub fn correlate(
    correlator: &mut Correlator,
    restart: RestartScan,
    event: &EventScan,
) -> (emitted: Option<String>)
    ensures
        final(correlator)@ == pending_after(old(correlator)@, restart, event@),
        match emitted {
            Some(name) => emitted_by(old(correlator)@, restart, event@) == Some(name@),
            None => emitted_by(old(correlator)@, restart, event@) is None,
        },
{
    match restart {
        RestartScan::NotChecked => {},
        RestartScan::NoIdentifier => {
            correlator.set_pending(None);
        },
        RestartScan::Found(id) => {
            correlator.set_pending(Some(id));
        },
    }
    match event {
        EventScan::Online(payload) => correlator.observe(payload.pm_id, payload.name.as_str()),
        _ => None,
    }
}

/// Where an alert goes: the label under which the collector knows this host,
/// and the key of the item that takes the alerts.
#[derive(Debug)]
pub struct AlertTarget {
    pub host: String,
    pub key: String,
}

/// One alert for the collector. Its value is the name of the process that
/// was killed for its memory use and has restarted.
#[derive(Debug)]
pub struct AlertMessage {
    pub host: String,
    pub key: String,
    pub value: String,
}

impl View for AlertMessage {
    type V = (Seq<char>, Seq<char>, Seq<char>);

    open spec fn view(&self) -> (Seq<char>, Seq<char>, Seq<char>) {
        (self.host@, self.key@, self.value@)
    }
}

/// What one chunk came to: the two scans, and the alert to send, if any.
#[derive(Debug)]
pub struct ChunkReport {
    pub restart: RestartScan,
    pub event: EventScan,
    pub alert: Option<AlertMessage>,
}

/// The alert that a text calls for when `pending` is the pending identifier:
/// addressed as the target says, with the emitted name as its value.
pub open spec fn alert_for(
    pending: Option<i64>,
    host: Seq<char>,
    key: Seq<char>,
    text: Seq<char>,
) -> Option<(Seq<char>, Seq<char>, Seq<char>)> {
    match emitted_by(pending, restart_scan_of(text), event_scan_of(text)) {
        Some(name) => Some((host, key, name)),
        None => None,
    }
}

/// Takes the text of one chunk through all stages: scans it for the restart
/// sentence and for the payload of a process event, steps the correlator, and
/// reports the scans together with the one alert that is due where the event
/// completes the pending restart.
pub fn process_text(
    correlator: &mut Correlator,
    target: &AlertTarget,
    text: &str,
) -> (report: ChunkReport)
    ensures
        report.restart == restart_scan_of(text@),
        report.event@ == event_scan_of(text@),
        final(correlator)@ == pending_after(
            old(correlator)@,
            restart_scan_of(text@),
            event_scan_of(text@),
        ),
        match report.alert {
            Some(alert) => alert_for(old(correlator)@, target.host@, target.key@, text@) == Some(
                alert@,
            ),
            None => alert_for(old(correlator)@, target.host@, target.key@, text@) is None,
        },
{
    let restart = scan_restart(text);
    let event = scan_event(text);
    let alert = match correlate(correlator, restart, &event) {
        Some(name) => Some(
            AlertMessage { host: target.host.clone(), key: target.key.clone(), value: name },
        ),
        None => None,
    };
    ChunkReport { restart, event, alert }
}

/// Takes the bytes of one read through all stages: decodes them leniently,
/// removes the null padding at the end, and goes on as `process_text` does.
pub fn process_chunk(
    correlator: &mut Correlator,
    target: &AlertTarget,
    bytes: &[u8],
) -> (report: ChunkReport)
    ensures
        report.restart == restart_scan_of(chunk_text(bytes@)),
        report.event@ == event_scan_of(chunk_text(bytes@)),
        final(correlator)@ == pending_after(
            old(correlator)@,
            restart_scan_of(chunk_text(bytes@)),
            event_scan_of(chunk_text(bytes@)),
        ),
        match report.alert {
            Some(alert) => alert_for(
                old(correlator)@,
                target.host@,
                target.key@,
                chunk_text(bytes@),
            ) == Some(alert@),
            None => alert_for(old(correlator)@, target.host@, target.key@, chunk_text(bytes@))
                is None,
        },
{
    let text = decode_chunk(bytes);
    process_text(correlator, target, text.as_str())
}

/// The restart sentence is looked for only in a text that holds both the
/// marker of a log record and that of a kill for memory; a text that lacks
/// either is not searched, and its restart scan leaves the pending
/// identifier as it was.
pub proof fn law_restart_scan_is_gated(pending: Option<i64>, text: Seq<char>)
    requires
        !contains(text, LOG_EVENT@) || !contains(text, RESTART_EVENT@),
    ensures
        restart_scan_of(text) == RestartScan::NotChecked,
        pending_after_restart(pending, restart_scan_of(text)) == pending,
{
}

/// A text that is searched for the restart sentence leaves pending exactly
/// the identifier that the sentence carries, whatever was pending before; if
/// it carries none, nothing is pending afterwards.
pub proof fn law_restart_scan_replaces_pending(pending: Option<i64>, text: Seq<char>)
    requires
        contains(text, LOG_EVENT@),
        contains(text, RESTART_EVENT@),
    ensures
        pending_after_restart(pending, restart_scan_of(text)) == restart_id(text),
        restart_id(text) is None ==> restart_scan_of(text) == RestartScan::NoIdentifier,
        restart_id(text) matches Some(id) ==> restart_scan_of(text) == RestartScan::Found(id),
{
}

/// A text without the marker of a running process is not parsed: its event
/// scan fires no alert and leaves the pending identifier as the restart scan
/// left it, and where that scan was not made either, as it was.
pub proof fn law_event_scan_is_gated(pending: Option<i64>, text: Seq<char>)
    requires
        !contains(text, EVENT_TYPE@),
    ensures
        event_scan_of(text) is NotChecked,
        emitted_by(pending, restart_scan_of(text), event_scan_of(text)) is None,
        pending_after(pending, restart_scan_of(text), event_scan_of(text)) == pending_after_restart(
            pending,
            restart_scan_of(text),
        ),
        !is_restart_log(text) ==> pending_after(
            pending,
            restart_scan_of(text),
            event_scan_of(text),
        ) == pending,
{
}

/// A text with neither record marker is ignored: nothing is searched or
/// parsed, no alert is due, and the pending identifier stays as it was.
pub proof fn law_unrecognized_chunk_is_ignored(pending: Option<i64>, text: Seq<char>)
    requires
        !contains(text, LOG_EVENT@),
        !contains(text, PROCESS_EVENT@),
    ensures
        restart_scan_of(text) == RestartScan::NotChecked,
        event_scan_of(text) is NotChecked,
        emitted_by(pending, restart_scan_of(text), event_scan_of(text)) is None,
        pending_after(pending, restart_scan_of(text), event_scan_of(text)) == pending,
{
}

/// A restart that is found and then confirmed by the event of the same
/// process alerts once, with the name of the process, and leaves nothing
/// pending: the same event seen again alerts no more.
pub proof fn law_confirmed_restart_alerts_once(pending: Option<i64>, id: i64, name: Seq<char>)
    ensures
        ({
            let found = pending_after(pending, RestartScan::Found(id), EventScanView::NotChecked);
            let event = EventScanView::Online(id, name);
            let confirmed = pending_after(found, RestartScan::NotChecked, event);
            &&& found == Some(id)
            &&& emitted_by(pending, RestartScan::Found(id), EventScanView::NotChecked) is None
            &&& emitted_by(found, RestartScan::NotChecked, event) == Some(name)
            &&& confirmed is None
            &&& emitted_by(confirmed, RestartScan::NotChecked, event) is None
            &&& pending_after(confirmed, RestartScan::NotChecked, event) is None
        }),
{
}

/// Of two restarts found one after the other, only the second is pending: the
/// event of the first process alerts no more and leaves the second pending.
pub proof fn law_overwritten_restart_is_stale(
    pending: Option<i64>,
    first: i64,
    second: i64,
    name: Seq<char>,
)
    requires
        first != second,
    ensures
        ({
            let one = pending_after(pending, RestartScan::Found(first), EventScanView::NotChecked);
            let two = pending_after(one, RestartScan::Found(second), EventScanView::NotChecked);
            let event = EventScanView::Online(first, name);
            &&& two == Some(second)
            &&& emitted_by(two, RestartScan::NotChecked, event) is None
            &&& pending_after(two, RestartScan::NotChecked, event) == Some(second)
        }),
{
}

/// With nothing pending, the event of a running process alerts nothing and
/// leaves nothing pending.
pub proof fn law_event_without_pending_restart(id: i64, name: Seq<char>)
    ensures
        emitted_by(None, RestartScan::NotChecked, EventScanView::Online(id, name)) is None,
        pending_after(None, RestartScan::NotChecked, EventScanView::Online(id, name)) is None,
{
}

} // verus!
