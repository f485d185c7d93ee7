use vstd::prelude::*;

use crate::emission::{
    emission_opt_view, opt_view, spec_emission, Emission, EmissionView, OsLog, SignpostType,
};
use crate::id::SignpostId;

verus! {

/// The mathematical content of a [`SignpostInterval`].
pub ghost struct IntervalView {
    pub id: SignpostId,
    pub name: Seq<char>,
    pub message: Option<Seq<char>>,
    pub ended: bool,
}

/// An interval just opened with this id, name and begin message.
pub open spec fn spec_opened(
    id: SignpostId,
    name: Seq<char>,
    message: Option<Seq<char>>,
) -> IntervalView {
    IntervalView { id, name, message, ended: false }
}

/// What opening an interval emits: its begin signpost, when tracing is enabled.
pub open spec fn spec_begin(
    enabled: bool,
    id: SignpostId,
    name: Seq<char>,
    message: Option<Seq<char>>,
) -> Option<EmissionView> {
    if enabled {
        Some(spec_emission(SignpostType::IntervalBegin, id, name, message))
    } else {
        None
    }
}

/// What ending an interval emits: its end signpost, without the begin message, the
/// first time only and when tracing is enabled.
pub open spec fn spec_end(v: IntervalView, enabled: bool) -> Option<EmissionView> {
    if enabled && !v.ended {
        Some(spec_emission(SignpostType::IntervalEnd, v.id, v.name, None))
    } else {
        None
    }
}

/// The interval after it has been ended.
pub open spec fn spec_ended(v: IntervalView) -> IntervalView {
    IntervalView { ended: true, ..v }
}

/// An interval being measured.
///
/// Opening it emits the begin signpost (when tracing is enabled); [`SignpostInterval::end`]
/// emits the matching end signpost, once, whichever way the measured operation was
/// left.
#[derive(Debug)]
pub struct SignpostInterval {
    id: SignpostId,
    name: String,
    message: Option<String>,
    ended: bool,
}

impl View for SignpostInterval {
    type V = IntervalView;

    closed spec fn view(&self) -> IntervalView {
        IntervalView {
            id: self.id,
            name: self.name@,
            message: match self.message {
                Some(m) => Some(m@),
                None => None,
            },
            ended: self.ended,
        }
    }
}

impl SignpostInterval {
    /// Opens an interval and decides its begin signpost.
    pub fn new(
        log: &OsLog,
        enabled: bool,
        id: SignpostId,
        name: &str,
        message: Option<&str>,
    ) -> (r: (SignpostInterval, Option<Emission>))
        ensures
            r.0@ == spec_opened(id, name@, opt_view(message)),
            emission_opt_view(r.1) == spec_begin(enabled, id, name@, opt_view(message)),
    {
        let owned_message = match message {
            Some(m) => Some(String::from_str(m)),
            None => None,
        };
        let interval = SignpostInterval {
            id,
            name: String::from_str(name),
            message: owned_message,
            ended: false,
        };
        let begin = interval.start_interval(log, enabled);
        (interval, begin)
    }

    fn start_interval(&self, log: &OsLog, enabled: bool) -> (r: Option<Emission>)
        ensures
            emission_opt_view(r) == spec_begin(enabled, self@.id, self@.name, self@.message),
    {
        let message = match &self.message {
            Some(m) => Some(m.as_str()),
            None => None,
        };
        log.emit(enabled, self.id, self.name.as_str(), message, SignpostType::IntervalBegin)
    }

    /// Ends the interval and decides its end signpost. The begin message is not
    /// repeated. Only the first call emits anything.
    pub fn end(&mut self, log: &OsLog, enabled: bool) -> (r: Option<Emission>)
        ensures
            final(self)@ == spec_ended(old(self)@),
            emission_opt_view(r) == spec_end(old(self)@, enabled),
    {
        if self.ended {
            return None;
        }
        self.ended = true;
        log.emit(enabled, self.id, self.name.as_str(), None, SignpostType::IntervalEnd)
    }

    /// The id that matches this interval's begin and end.
    pub fn id(&self) -> (r: SignpostId)
        ensures
            r == self@.id,
    {
        self.id
    }

    /// Whether the end signpost has been decided.
    pub fn is_ended(&self) -> (r: bool)
        ensures
            r == self@.ended,
    {
        self.ended
    }
}

impl OsLog {
    /// Opens an interval named `name`.
    pub fn interval(&self, enabled: bool, id: SignpostId, name: &str) -> (r: (
        SignpostInterval,
        Option<Emission>,
    ))
        ensures
            r.0@ == spec_opened(id, name@, None),
            emission_opt_view(r.1) == spec_begin(enabled, id, name@, None),
    {
        SignpostInterval::new(self, enabled, id, name, None)
    }

    /// Opens an interval named `name` whose begin signpost carries `message`.
    pub fn interval_with_message(
        &self,
        enabled: bool,
        id: SignpostId,
        name: &str,
        message: &str,
    ) -> (r: (SignpostInterval, Option<Emission>))
        ensures
            r.0@ == spec_opened(id, name@, Some(message@)),
            emission_opt_view(r.1) == spec_begin(enabled, id, name@, Some(message@)),
    {
        SignpostInterval::new(self, enabled, id, name, Some(message))
    }
}

/// An interval opened and ended while tracing is disabled emits nothing: no begin,
/// and no end.
pub proof fn lemma_disabled_interval_is_silent(
    id: SignpostId,
    name: Seq<char>,
    message: Option<Seq<char>>,
)
    ensures
        spec_begin(false, id, name, message) is None,
        spec_end(spec_opened(id, name, message), false) is None,
{
}

/// An interval opened and ended while tracing is enabled emits exactly one begin and
/// one end, with the same id and name; the end carries no message, and ending it
/// again emits nothing.
pub proof fn lemma_enabled_interval_pairs(
    id: SignpostId,
    name: Seq<char>,
    message: Option<Seq<char>>,
    enabled_again: bool,
)
    ensures
        ({
            let opened = spec_opened(id, name, message);
            let begin = spec_begin(true, id, name, message);
            let end = spec_end(opened, true);
            &&& begin is Some && end is Some
            &&& begin->0.kind == SignpostType::IntervalBegin
            &&& end->0.kind == SignpostType::IntervalEnd
            &&& begin->0.id == end->0.id
            &&& begin->0.name == end->0.name
            &&& end->0.message is None
            &&& spec_end(spec_ended(opened), enabled_again) is None
        }),
{
}

} // verus!
