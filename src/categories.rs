//! Predefined log categories for the different kinds of signpost instrumentation.

use vstd::prelude::*;

verus! {

/// A platform-defined category, which sets the visibility and the overhead tier of
/// the signposts of a log handle.
#[derive(Debug, Clone, Copy, PartialEq, Eq, Hash, Structural)]
pub enum Category {
    /// High-level events that orient a developer looking at performance data; shown
    /// by default in performance tools.
    PointsOfInterest,
    /// Signposts that are off by default and only active while a performance tool is
    /// recording.
    DynamicTracing,
    /// Like [`Category::DynamicTracing`], and each signpost also captures a user
    /// backtrace.
    DynamicStackTracing,
}

/// The category's name as the native facility knows it.
pub open spec fn category_name(c: Category) -> Seq<char> {
    match c {
        Category::PointsOfInterest => "PointsOfInterest"@,
        Category::DynamicTracing => "DynamicTracing"@,
        Category::DynamicStackTracing => "DynamicStackTracing"@,
    }
}

impl Category {
    /// The category's name as the native facility knows it.
    pub fn native_name(&self) -> (r: String)
        ensures
            r@ == category_name(*self),
    {
        match self {
            Category::PointsOfInterest => String::from_str("PointsOfInterest"),
            Category::DynamicTracing => String::from_str("DynamicTracing"),
            Category::DynamicStackTracing => String::from_str("DynamicStackTracing"),
        }
    }
}

/// Signposts that orient a developer looking at performance data.
pub const POINTS_OF_INTEREST: Category = Category::PointsOfInterest;

/// Signposts that are only active while a performance tool is recording.
pub const DYNAMIC_TRACING: Category = Category::DynamicTracing;

/// Signposts that also capture user backtraces while a performance tool is recording.
pub const DYNAMIC_STACK_TRACING: Category = Category::DynamicStackTracing;

} // verus!
