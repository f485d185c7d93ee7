use vstd::prelude::*;

use crate::categories::Category;
use crate::emission::{OsLog, OsLogView, SignpostScope};
use crate::error::SignpostError;

verus! {

/// A configuration: the subsystem and category of the process's default logger.
pub type ConfigView = (Seq<char>, Category);

/// The configuration after a request to set `(subsystem, category)`: the first
/// request sets it, and later ones leave it as it was.
pub open spec fn spec_configured(
    prev: Option<ConfigView>,
    subsystem: Seq<char>,
    category: Category,
) -> Option<ConfigView> {
    if prev is None {
        Some((subsystem, category))
    } else {
        prev
    }
}

/// The default logger that a configuration gives, if it is set.
pub open spec fn spec_logger_of(config: Option<ConfigView>) -> Option<OsLogView> {
    match config {
        Some(c) => Some(OsLogView { subsystem: c.0, category: c.1, scope: SignpostScope::Process }),
        None => None,
    }
}

/// The configuration of the signpost tracer: the subsystem and category of the
/// default logger.
#[derive(Debug, Clone)]
pub struct Signpost {
    subsystem: String,
    category: Category,
}

impl View for Signpost {
    type V = ConfigView;

    closed spec fn view(&self) -> ConfigView {
        (self.subsystem@, self.category)
    }
}

/// The process-wide configuration, which can be set once.
#[derive(Debug)]
pub struct GlobalConfig {
    entry: Option<Signpost>,
}

impl View for GlobalConfig {
    type V = Option<ConfigView>;

    closed spec fn view(&self) -> Option<ConfigView> {
        match self.entry {
            Some(c) => Some(c@),
            None => None,
        }
    }
}

impl GlobalConfig {
    /// A configuration that is not set yet.
    pub fn new() -> (r: Self)
        ensures
            r@ is None,
    {
        GlobalConfig { entry: None }
    }

    /// Whether the configuration has been set.
    pub fn is_configured(&self) -> (r: bool)
        ensures
            r == self@ is Some,
    {
        self.entry.is_some()
    }
}

impl Signpost {
    /// Sets the process-wide configuration. Configuring twice is a programming error:
    /// the second request fails and the first configuration stays.
    pub fn configure(config: &mut GlobalConfig, subsystem: &str, category: Category) -> (r:
        Result<Signpost, SignpostError>)
        ensures
            final(config)@ == spec_configured(old(config)@, subsystem@, category),
            old(config)@ is None ==> r is Ok && r->Ok_0@ == (subsystem@, category),
            old(config)@ is Some ==> r == Err::<Signpost, SignpostError>(
                SignpostError::AlreadyConfigured,
            ),
    {
        if config.entry.is_some() {
            return Err(SignpostError::AlreadyConfigured);
        }
        let stored = Signpost { subsystem: String::from_str(subsystem), category };
        let handed = Signpost { subsystem: String::from_str(subsystem), category };
        config.entry = Some(stored);
        Ok(handed)
    }

    /// The subsystem of the default logger.
    pub fn subsystem(&self) -> (r: &str)
        ensures
            r@ == self@.0,
    {
        self.subsystem.as_str()
    }

    /// The category of the default logger.
    pub fn category(&self) -> (r: Category)
        ensures
            r == self@.1,
    {
        self.category
    }
}

/// The process's default logger, built from the configuration; refused while the
/// configuration is not set.
pub fn global_logger(config: &GlobalConfig) -> (r: Result<OsLog, SignpostError>)
    ensures
        config@ is None ==> r == Err::<OsLog, SignpostError>(SignpostError::NotConfigured),
        config@ is Some ==> r is Ok && Some(r->Ok_0@) == spec_logger_of(config@),
{
    match &config.entry {
        Some(c) => Ok(OsLog::new(String::from_str(c.subsystem.as_str()), c.category)),
        None => Err(SignpostError::NotConfigured),
    }
}

/// Configuring twice: the first request succeeds, the second fails, and the
/// configuration, and so the default logger, stays the first one.
pub proof fn lemma_configure_twice_keeps_first(
    first: Seq<char>,
    first_category: Category,
    second: Seq<char>,
    second_category: Category,
)
    ensures
        ({
            let once = spec_configured(None, first, first_category);
            let twice = spec_configured(once, second, second_category);
            &&& once is Some
            &&& twice == once
            &&& spec_logger_of(twice) == Some(
                OsLogView {
                    subsystem: first,
                    category: first_category,
                    scope: SignpostScope::Process,
                },
            )
        }),
{
}

} // verus!
