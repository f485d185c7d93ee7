use vstd::prelude::*;

use crate::categories::Category;
use crate::id::SignpostId;
use crate::interval::SignpostInterval;
use crate::text::{native_text, spec_native_text};

verus! {

/// The kind of a signpost emission.
#[derive(Debug, Clone, Copy, PartialEq, Eq, Structural)]
pub enum SignpostType {
    /// A single point in time.
    Event,
    /// The beginning of an interval.
    IntervalBegin,
    /// The end of an interval.
    IntervalEnd,
}

/// The native facility's code for each kind of signpost.
pub open spec fn type_code(t: SignpostType) -> u8 {
    match t {
        SignpostType::Event => 0,
        SignpostType::IntervalBegin => 1,
        SignpostType::IntervalEnd => 2,
    }
}

impl SignpostType {
    /// The native facility's code for this kind.
    pub fn native_code(self) -> (r: u8)
        ensures
            r == type_code(self),
    {
        match self {
            SignpostType::Event => 0,
            SignpostType::IntervalBegin => 1,
            SignpostType::IntervalEnd => 2,
        }
    }
}

/// Where the begin and end signposts of an interval are matched.
#[derive(Debug, Clone, Copy, PartialEq, Eq, Structural)]
pub enum SignpostScope {
    /// Matching is restricted to a single thread.
    Thread,
    /// Matching is restricted to a single process.
    Process,
    /// Matching may span processes.
    System,
}

/// One signpost to be handed to the native facility.
#[derive(Debug, Clone, PartialEq, Eq)]
pub struct Emission {
    /// What is emitted.
    pub kind: SignpostType,
    /// The id that matches begin and end.
    pub id: SignpostId,
    /// The signpost's name, in native form.
    pub name: String,
    /// The message, in native form, if any.
    pub message: Option<String>,
}

/// The mathematical content of an [`Emission`].
pub ghost struct EmissionView {
    pub kind: SignpostType,
    pub id: u64,
    pub name: Seq<char>,
    pub message: Option<Seq<char>>,
}

impl View for Emission {
    type V = EmissionView;

    open spec fn view(&self) -> EmissionView {
        EmissionView {
            kind: self.kind,
            id: self.id@,
            name: self.name@,
            message: match self.message {
                Some(m) => Some(m@),
                None => None,
            },
        }
    }
}

/// What an optional text becomes in native form.
pub open spec fn spec_native_message(message: Option<Seq<char>>) -> Option<Seq<char>> {
    match message {
        Some(m) => Some(spec_native_text(m)),
        None => None,
    }
}

/// The emission of a signpost of kind `kind` with id `id`, name and message.
pub open spec fn spec_emission(
    kind: SignpostType,
    id: SignpostId,
    name: Seq<char>,
    message: Option<Seq<char>>,
) -> EmissionView {
    EmissionView {
        kind,
        id: id@,
        name: spec_native_text(name),
        message: spec_native_message(message),
    }
}

/// The view of an optional string slice.
pub open spec fn opt_view(message: Option<&str>) -> Option<Seq<char>> {
    match message {
        Some(m) => Some(m@),
        None => None,
    }
}

/// The view of an optional emission.
pub open spec fn emission_opt_view(e: Option<Emission>) -> Option<EmissionView> {
    match e {
        Some(x) => Some(x@),
        None => None,
    }
}

/// A logger for one subsystem and category.
///
/// An `OsLog` names a signpost destination. Each logger belongs to a subsystem
/// (typically the application's bundle identifier) and a category, which decides how
/// visible its signposts are, and it matches intervals within a scope (the process,
/// unless set otherwise).
#[derive(Debug, Clone)]
pub struct OsLog {
    subsystem: String,
    category: Category,
    scope: SignpostScope,
}

/// The mathematical content of an [`OsLog`].
pub ghost struct OsLogView {
    pub subsystem: Seq<char>,
    pub category: Category,
    pub scope: SignpostScope,
}

impl View for OsLog {
    type V = OsLogView;

    closed spec fn view(&self) -> OsLogView {
        OsLogView { subsystem: self.subsystem@, category: self.category, scope: self.scope }
    }
}

impl OsLog {
    /// The scope in which this logger matches intervals.
    pub open spec fn spec_scope(&self) -> SignpostScope {
        self@.scope
    }

    /// Creates a logger for the given subsystem and category, matching intervals
    /// within the process.
    pub fn new(subsystem: String, category: Category) -> (r: Self)
        ensures
            r@ == (OsLogView { subsystem: subsystem@, category, scope: SignpostScope::Process }),
    {
        OsLog { subsystem, category, scope: SignpostScope::Process }
    }

    /// The same logger, matching intervals within `scope`.
    pub fn with_scope(self, scope: SignpostScope) -> (r: Self)
        ensures
            r@ == (OsLogView { scope, ..self@ }),
    {
        OsLog { scope, ..self }
    }

    /// The subsystem this logger belongs to.
    pub fn subsystem(&self) -> (r: &str)
        ensures
            r@ == self@.subsystem,
    {
        self.subsystem.as_str()
    }

    /// The category of this logger.
    pub fn category(&self) -> (r: Category)
        ensures
            r == self@.category,
    {
        self.category
    }

    /// The scope in which this logger matches intervals.
    pub fn scope(&self) -> (r: SignpostScope)
        ensures
            r == self@.scope,
    {
        self.scope
    }

    /// Decides the one emission for a signpost: none when tracing is disabled
    /// (`enabled` is the native facility's answer for this logger), otherwise the
    /// signpost with its name and message in native form.
    pub fn emit(
        &self,
        enabled: bool,
        id: SignpostId,
        name: &str,
        message: Option<&str>,
        signpost_type: SignpostType,
    ) -> (r: Option<Emission>)
        ensures
            !enabled ==> r is None,
            enabled ==> emission_opt_view(r) == Some(
                spec_emission(signpost_type, id, name@, opt_view(message)),
            ),
    {
        if !enabled {
            return None;
        }
        let native_message = match message {
            Some(m) => Some(native_text(m)),
            None => None,
        };
        Some(Emission { kind: signpost_type, id, name: native_text(name), message: native_message })
    }

    /// A point event named `name`.
    pub fn event(&self, enabled: bool, id: SignpostId, name: &str) -> (r: Option<Emission>)
        ensures
            !enabled ==> r is None,
            enabled ==> emission_opt_view(r) == Some(
                spec_emission(SignpostType::Event, id, name@, None),
            ),
    {
        self.emit(enabled, id, name, None, SignpostType::Event)
    }

    /// A point event named `name` that carries `message`.
    pub fn event_with_message(
        &self,
        enabled: bool,
        id: SignpostId,
        name: &str,
        message: &str,
    ) -> (r: Option<Emission>)
        ensures
            !enabled ==> r is None,
            enabled ==> emission_opt_view(r) == Some(
                spec_emission(SignpostType::Event, id, name@, Some(message@)),
            ),
    {
        self.emit(enabled, id, name, Some(message), SignpostType::Event)
    }
}

} // verus!
