use vstd::prelude::*;

use dashmap::DashMap;

use crate::emission::{
    emission_opt_view, opt_view, spec_emission, Emission, EmissionView, OsLog, SignpostType,
};
use crate::id::SignpostId;
use crate::text::{is_message_field, qualified_name, spec_qualified_name};

verus! {

#[verifier::external_type_specification]
#[verifier::external_body]
#[verifier::reject_recursive_types(K)]
#[verifier::reject_recursive_types(V)]
#[verifier::reject_recursive_types(S)]
pub struct ExDashMap<K, V, S>(DashMap<K, V, S>);

/// An interval opened for a structured-logging span and not yet closed.
#[derive(Debug)]
pub struct ActiveInterval {
    id: SignpostId,
    name: String,
}

/// The mathematical content of an [`ActiveInterval`].
pub ghost struct ActiveIntervalView {
    pub id: SignpostId,
    pub name: Seq<char>,
}

impl View for ActiveInterval {
    type V = ActiveIntervalView;

    closed spec fn view(&self) -> ActiveIntervalView {
        ActiveIntervalView { id: self.id, name: self.name@ }
    }
}

impl ActiveInterval {
    /// The interval of a span, opened with this id and name.
    pub fn new(id: SignpostId, name: String) -> (r: Self)
        ensures
            r@ == (ActiveIntervalView { id, name: name@ }),
    {
        ActiveInterval { id, name }
    }
}

/// The begin signpost for a span named `name` in module `target_path`.
pub open spec fn spec_span_begin(
    id: SignpostId,
    target_path: Seq<char>,
    name: Seq<char>,
    message: Option<Seq<char>>,
) -> EmissionView {
    spec_emission(SignpostType::IntervalBegin, id, spec_qualified_name(target_path, name), message)
}

/// The point signpost for a log event in module `target_path`, raised inside the
/// span named `span_name` (empty outside any span).
pub open spec fn spec_log_event(
    id: SignpostId,
    target_path: Seq<char>,
    span_name: Seq<char>,
    message: Option<Seq<char>>,
) -> EmissionView {
    spec_emission(SignpostType::Event, id, spec_qualified_name(target_path, span_name), message)
}

/// What closing a span emits, given the interval that was taken out of the map for
/// it: its end signpost, without a message, when tracing is enabled and there was one.
pub open spec fn spec_span_end(enabled: bool, removed: Option<ActiveIntervalView>) -> Option<
    EmissionView,
> {
    match removed {
        Some(iv) => if enabled {
            Some(spec_emission(SignpostType::IntervalEnd, iv.id, iv.name, None))
        } else {
            None
        },
        None => None,
    }
}

/// Collects the `message` field of a span or event; every other field is ignored.
#[derive(Debug)]
pub struct MessageVisitor {
    message: Option<String>,
}

impl View for MessageVisitor {
    type V = Option<Seq<char>>;

    closed spec fn view(&self) -> Option<Seq<char>> {
        match self.message {
            Some(m) => Some(m@),
            None => None,
        }
    }
}

impl MessageVisitor {
    /// A visitor that has seen no message.
    pub fn new() -> (r: Self)
        ensures
            r@ is None,
    {
        MessageVisitor { message: None }
    }

    /// Records a string field: its value becomes the message when the field is
    /// named `message`.
    pub fn record_str(&mut self, field_name: &str, value: &str)
        ensures
            field_name@ == "message"@ ==> final(self)@ == Some(value@),
            field_name@ != "message"@ ==> final(self)@ == old(self)@,
    {
        if is_message_field(field_name) {
            self.message = Some(String::from_str(value));
        }
    }

    /// Records a field that is not a string, given in its debug rendering: the
    /// rendering becomes the message when the field is named `message`.
    pub fn record_debug(&mut self, field_name: &str, rendered: &str)
        ensures
            field_name@ == "message"@ ==> final(self)@ == Some(rendered@),
            field_name@ != "message"@ ==> final(self)@ == old(self)@,
    {
        if is_message_field(field_name) {
            self.message = Some(String::from_str(rendered));
        }
    }

    /// The message collected, if any.
    pub fn message(&self) -> (r: Option<&str>)
        ensures
            opt_view(r) == self@,
    {
        match &self.message {
            Some(m) => Some(m.as_str()),
            None => None,
        }
    }
}

/// Relies on dashmap::DashMap::new to make an empty concurrent map.
#[verifier::external_body]
fn intervals_new() -> (r: DashMap<u64, ActiveInterval>) {
    DashMap::new()
}

/// Relies on dashmap::DashMap::insert to store the interval of a span.
#[verifier::external_body]
fn intervals_insert(intervals: &DashMap<u64, ActiveInterval>, span_id: u64, interval: ActiveInterval) {
    intervals.insert(span_id, interval);
}

/// Relies on dashmap::DashMap::remove to take the interval of a span out of the map;
/// other threads work on the map meanwhile, so nothing is promised of what it holds.
#[verifier::external_body]
fn intervals_remove(intervals: &DashMap<u64, ActiveInterval>, span_id: u64) -> (r: Option<
    ActiveInterval,
>) {
    intervals.remove(&span_id).map(|entry| entry.1)
}

/// Bridges structured-logging spans and events onto signposts: a span becomes an
/// interval, and a log event becomes a point event.
///
/// Spans open and close on many threads; the intervals in flight are kept in a
/// concurrent map keyed by span id, so unrelated spans do not wait on each other.
pub struct TracingSubscriber {
    intervals: DashMap<u64, ActiveInterval>,
}

impl TracingSubscriber {
    /// A subscriber with no interval in flight.
    pub fn new() -> (r: Self) {
        TracingSubscriber { intervals: intervals_new() }
    }

    /// A span was created. When tracing is enabled this draws a fresh id from
    /// `generate`, decides the begin signpost named `"<target_path>::<name>"` with the
    /// span's `message` field, and keeps the interval until the span closes. When
    /// tracing is disabled nothing happens and `generate` is not called.
    pub fn on_new_span<F: FnOnce() -> SignpostId>(
        &self,
        log: &OsLog,
        enabled: bool,
        span_id: u64,
        target_path: &str,
        name: &str,
        message: Option<&str>,
        generate: F,
    ) -> (r: Option<Emission>)
        requires
            generate.requires(()),
        ensures
            !enabled ==> r is None,
            enabled ==> exists|id: SignpostId|
                #![trigger generate.ensures((), id)]
                generate.ensures((), id) && emission_opt_view(r) == Some(
                    spec_span_begin(id, target_path@, name@, opt_view(message)),
                ),
    {
        if !enabled {
            return None;
        }
        let full_name = qualified_name(target_path, name);
        let id = generate();
        let begin = log.emit(enabled, id, full_name.as_str(), message, SignpostType::IntervalBegin);
        intervals_insert(&self.intervals, span_id, ActiveInterval::new(id, full_name));
        begin
    }

    /// A field was recorded on a span that is already open. The native facility
    /// cannot attach data to an open interval, so nothing is emitted.
    pub fn on_record(&self, span_id: u64) -> (r: Option<Emission>)
        ensures
            r is None,
    {
        None
    }

    /// A log event was raised. When tracing is enabled this draws a fresh id from
    /// `generate` and decides a point signpost named `"<target_path>::<span>"`, where
    /// `<span>` is the current span's name (empty outside any span), with the
    /// event's `message` field.
    pub fn on_event<F: FnOnce() -> SignpostId>(
        &self,
        log: &OsLog,
        enabled: bool,
        target_path: &str,
        current_span: Option<&str>,
        message: Option<&str>,
        generate: F,
    ) -> (r: Option<Emission>)
        requires
            generate.requires(()),
        ensures
            !enabled ==> r is None,
            enabled ==> exists|id: SignpostId|
                #![trigger generate.ensures((), id)]
                generate.ensures((), id) && emission_opt_view(r) == Some(
                    spec_log_event(
                        id,
                        target_path@,
                        match current_span {
                            Some(s) => s@,
                            None => Seq::empty(),
                        },
                        opt_view(message),
                    ),
                ),
    {
        if !enabled {
            return None;
        }
        let span_name = match current_span {
            Some(s) => s,
            None => "",
        };
        proof {
            reveal_strlit("");
        }
        let full_name = qualified_name(target_path, span_name);
        let id = generate();
        log.emit(enabled, id, full_name.as_str(), message, SignpostType::Event)
    }

    /// A span closed. When tracing is enabled its interval is taken out of the map
    /// and its end signpost decided; a span that has no interval (it opened while
    /// tracing was disabled) closes silently.
    pub fn on_close(&self, log: &OsLog, enabled: bool, span_id: u64) -> (r: Option<Emission>)
        ensures
            !enabled ==> r is None,
            r is Some ==> r->0.kind == SignpostType::IntervalEnd && r->0.message is None,
    {
        if !enabled {
            return None;
        }
        let removed = intervals_remove(&self.intervals, span_id);
        close_span(log, enabled, removed)
    }
}

/// Decides the end signpost of a closed span from the interval taken out of the map
/// for it, if any.
pub fn close_span(log: &OsLog, enabled: bool, removed: Option<ActiveInterval>) -> (r: Option<
    Emission,
>)
    ensures
        emission_opt_view(r) == spec_span_end(
            enabled,
            match removed {
                Some(iv) => Some(iv@),
                None => None,
            },
        ),
{
    match removed {
        Some(interval) => log.emit(
            enabled,
            interval.id,
            interval.name.as_str(),
            None,
            SignpostType::IntervalEnd,
        ),
        None => None,
    }
}

/// A span whose message field was recorded at creation opens with that message; a
/// span that has no interval in flight closes with no emission.
pub proof fn lemma_span_lifecycle(
    id: SignpostId,
    target_path: Seq<char>,
    name: Seq<char>,
    message: Seq<char>,
    enabled: bool,
)
    ensures
        spec_span_begin(id, target_path, name, Some(message)).kind == SignpostType::IntervalBegin,
        spec_span_begin(id, target_path, name, Some(message)).message == Some(
            crate::text::spec_native_text(message),
        ),
        spec_span_end(enabled, None) is None,
{
}

} // verus!
