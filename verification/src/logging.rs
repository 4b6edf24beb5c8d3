//! Units that report what passes through a chain: each hands its input on
//! as its output and gives a line about it, at a set level, to a sink.
//!
//! The sink is the caller's: it is what writes the line to a log.

use crate::service::Service;
use crate::text::render_debug_line;
use crate::text::render_display_line;
use crate::text::renders_debug_line;
use crate::text::renders_display_line;
use std::fmt::Debug;
use std::fmt::Display;
use std::marker::PhantomData;
use vstd::prelude::*;

verus! {

/// The level of a line, from the most to the least urgent.
#[derive(Clone, Copy, Debug, PartialEq, Eq, Structural)]
pub enum Level {
    Error,
    Warn,
    Info,
    Debug,
    Trace,
}

/// A [`Service`] that gives the sink a line made of a prefix and the `Debug`
/// rendering of its input and hands the input on.
#[verifier::reject_recursive_types(T)]
pub struct LogDebugService<T, F: Fn(Level, String)> {
    pub level: Level,
    pub prefix: String,
    pub sink: F,
    pub marker: PhantomData<T>,
}

impl<T, F: Fn(Level, String)> LogDebugService<T, F> {
    /// Report at `level`, each line starting with `prefix`.
    pub fn new(level: Level, prefix: &str, sink: F) -> (service: Self)
        ensures
            service.level == level,
            service.prefix@ == prefix@,
            service.sink == sink,
    {
        Self { level, prefix: prefix.to_owned(), sink, marker: PhantomData }
    }

    /// Report at [`Level::Debug`].
    pub fn debug(prefix: &str, sink: F) -> (service: Self)
        ensures
            service.level == Level::Debug,
            service.prefix@ == prefix@,
            service.sink == sink,
    {
        Self::new(Level::Debug, prefix, sink)
    }

    /// Report at [`Level::Error`].
    pub fn error(prefix: &str, sink: F) -> (service: Self)
        ensures
            service.level == Level::Error,
            service.prefix@ == prefix@,
            service.sink == sink,
    {
        Self::new(Level::Error, prefix, sink)
    }

    /// Report at [`Level::Info`].
    pub fn info(prefix: &str, sink: F) -> (service: Self)
        ensures
            service.level == Level::Info,
            service.prefix@ == prefix@,
            service.sink == sink,
    {
        Self::new(Level::Info, prefix, sink)
    }

    /// Report at [`Level::Trace`].
    pub fn trace(prefix: &str, sink: F) -> (service: Self)
        ensures
            service.level == Level::Trace,
            service.prefix@ == prefix@,
            service.sink == sink,
    {
        Self::new(Level::Trace, prefix, sink)
    }

    /// Report at [`Level::Warn`].
    pub fn warn(prefix: &str, sink: F) -> (service: Self)
        ensures
            service.level == Level::Warn,
            service.prefix@ == prefix@,
            service.sink == sink,
    {
        Self::new(Level::Warn, prefix, sink)
    }
}

impl<T: Debug, F: Fn(Level, String)> LogDebugService<T, F> {
    /// Whether the sink has been given, at the level of this service, the
    /// line that the prefix and `value` render to.
    pub open spec fn reported(&self, value: &T) -> bool {
        exists|line: String|
            renders_debug_line(&self.prefix, value, line) && #[trigger] self.sink.ensures(
                (self.level, line),
                (),
            )
    }
}

impl<T: Debug, F: Fn(Level, String)> Service for LogDebugService<T, F> {
    type Input = T;

    type Output = T;

    type Error = ();

    /// The sink takes every line that starts with the prefix, at the level
    /// of this service.
    open spec fn accepts(&self, input: T) -> bool {
        forall|line: String| self.prefix@.is_prefix_of(line@) ==> #[trigger] self.sink.requires(
            (self.level, line),
        )
    }

    /// The input, always; and the sink has been given the line for it.
    open spec fn yields(&self, input: T, result: Result<T, ()>) -> bool {
        &&& result == Ok::<T, ()>(input)
        &&& self.reported(&input)
    }

    fn process(&self, input: T) -> (result: Result<T, ()>) {
        let line = render_debug_line(&self.prefix, &input);
        let ghost given = line;
        let taken = (self.sink)(self.level, line);
        assert(taken =~= ());
        assert(renders_debug_line(&self.prefix, &input, given) && self.sink.ensures(
            (self.level, given),
            (),
        ));
        Ok(input)
    }
}

/// A [`Service`] that gives the sink a line made of a prefix and the `Debug`
/// rendering of the value of its input, where there is one, and hands the input on.
/// `None` passes through without a line, so that a chain that idles on `None`
/// does not fill the log.
#[verifier::reject_recursive_types(T)]
pub struct LogOptionalDebugService<T, F: Fn(Level, String)> {
    pub level: Level,
    pub prefix: String,
    pub sink: F,
    pub marker: PhantomData<T>,
}

impl<T, F: Fn(Level, String)> LogOptionalDebugService<T, F> {
    /// Report at `level`, each line starting with `prefix`.
    pub fn new(level: Level, prefix: &str, sink: F) -> (service: Self)
        ensures
            service.level == level,
            service.prefix@ == prefix@,
            service.sink == sink,
    {
        Self { level, prefix: prefix.to_owned(), sink, marker: PhantomData }
    }

    /// Report at [`Level::Debug`].
    pub fn debug(prefix: &str, sink: F) -> (service: Self)
        ensures
            service.level == Level::Debug,
            service.prefix@ == prefix@,
            service.sink == sink,
    {
        Self::new(Level::Debug, prefix, sink)
    }

    /// Report at [`Level::Error`].
    pub fn error(prefix: &str, sink: F) -> (service: Self)
        ensures
            service.level == Level::Error,
            service.prefix@ == prefix@,
            service.sink == sink,
    {
        Self::new(Level::Error, prefix, sink)
    }

    /// Report at [`Level::Info`].
    pub fn info(prefix: &str, sink: F) -> (service: Self)
        ensures
            service.level == Level::Info,
            service.prefix@ == prefix@,
            service.sink == sink,
    {
        Self::new(Level::Info, prefix, sink)
    }

    /// Report at [`Level::Trace`].
    pub fn trace(prefix: &str, sink: F) -> (service: Self)
        ensures
            service.level == Level::Trace,
            service.prefix@ == prefix@,
            service.sink == sink,
    {
        Self::new(Level::Trace, prefix, sink)
    }

    /// Report at [`Level::Warn`].
    pub fn warn(prefix: &str, sink: F) -> (service: Self)
        ensures
            service.level == Level::Warn,
            service.prefix@ == prefix@,
            service.sink == sink,
    {
        Self::new(Level::Warn, prefix, sink)
    }
}

impl<T: Debug, F: Fn(Level, String)> LogOptionalDebugService<T, F> {
    /// Whether the sink has been given, at the level of this service, the
    /// line that the prefix and `value` render to.
    pub open spec fn reported(&self, value: &T) -> bool {
        exists|line: String|
            renders_debug_line(&self.prefix, value, line) && #[trigger] self.sink.ensures(
                (self.level, line),
                (),
            )
    }
}

impl<T: Debug, F: Fn(Level, String)> Service for LogOptionalDebugService<T, F> {
    type Input = Option<T>;

    type Output = Option<T>;

    type Error = ();

    /// The sink takes every line that starts with the prefix, at the level
    /// of this service.
    open spec fn accepts(&self, input: Option<T>) -> bool {
        forall|line: String| self.prefix@.is_prefix_of(line@) ==> #[trigger] self.sink.requires(
            (self.level, line),
        )
    }

    /// The input, always; and where it holds a value, the sink has been given
    /// the line for that value.
    open spec fn yields(&self, input: Option<T>, result: Result<Option<T>, ()>) -> bool {
        &&& result == Ok::<Option<T>, ()>(input)
        &&& input is Some ==> self.reported(&input->Some_0)
    }

    fn process(&self, input: Option<T>) -> (result: Result<Option<T>, ()>) {
        if let Some(value) = &input {
            let line = render_debug_line(&self.prefix, value);
            let ghost given = line;
            let taken = (self.sink)(self.level, line);
            assert(taken =~= ());
            assert(renders_debug_line(&self.prefix, value, given) && self.sink.ensures(
                (self.level, given),
                (),
            ));
        }
        Ok(input)
    }
}

/// A [`Service`] that gives the sink a line made of a prefix and the `Display`
/// rendering of its input and hands the input on.
#[verifier::reject_recursive_types(T)]
pub struct LogDisplayService<T, F: Fn(Level, String)> {
    pub level: Level,
    pub prefix: String,
    pub sink: F,
    pub marker: PhantomData<T>,
}

impl<T, F: Fn(Level, String)> LogDisplayService<T, F> {
    /// Report at `level`, each line starting with `prefix`.
    pub fn new(level: Level, prefix: &str, sink: F) -> (service: Self)
        ensures
            service.level == level,
            service.prefix@ == prefix@,
            service.sink == sink,
    {
        Self { level, prefix: prefix.to_owned(), sink, marker: PhantomData }
    }

    /// Report at [`Level::Debug`].
    pub fn debug(prefix: &str, sink: F) -> (service: Self)
        ensures
            service.level == Level::Debug,
            service.prefix@ == prefix@,
            service.sink == sink,
    {
        Self::new(Level::Debug, prefix, sink)
    }

    /// Report at [`Level::Error`].
    pub fn error(prefix: &str, sink: F) -> (service: Self)
        ensures
            service.level == Level::Error,
            service.prefix@ == prefix@,
            service.sink == sink,
    {
        Self::new(Level::Error, prefix, sink)
    }

    /// Report at [`Level::Info`].
    pub fn info(prefix: &str, sink: F) -> (service: Self)
        ensures
            service.level == Level::Info,
            service.prefix@ == prefix@,
            service.sink == sink,
    {
        Self::new(Level::Info, prefix, sink)
    }

    /// Report at [`Level::Trace`].
    pub fn trace(prefix: &str, sink: F) -> (service: Self)
        ensures
            service.level == Level::Trace,
            service.prefix@ == prefix@,
            service.sink == sink,
    {
        Self::new(Level::Trace, prefix, sink)
    }

    /// Report at [`Level::Warn`].
    pub fn warn(prefix: &str, sink: F) -> (service: Self)
        ensures
            service.level == Level::Warn,
            service.prefix@ == prefix@,
            service.sink == sink,
    {
        Self::new(Level::Warn, prefix, sink)
    }
}

impl<T: Display, F: Fn(Level, String)> LogDisplayService<T, F> {
    /// Whether the sink has been given, at the level of this service, the
    /// line that the prefix and `value` render to.
    pub open spec fn reported(&self, value: &T) -> bool {
        exists|line: String|
            renders_display_line(&self.prefix, value, line) && #[trigger] self.sink.ensures(
                (self.level, line),
                (),
            )
    }
}

impl<T: Display, F: Fn(Level, String)> Service for LogDisplayService<T, F> {
    type Input = T;

    type Output = T;

    type Error = ();

    /// The sink takes every line that starts with the prefix, at the level
    /// of this service.
    open spec fn accepts(&self, input: T) -> bool {
        forall|line: String| self.prefix@.is_prefix_of(line@) ==> #[trigger] self.sink.requires(
            (self.level, line),
        )
    }

    /// The input, always; and the sink has been given the line for it.
    open spec fn yields(&self, input: T, result: Result<T, ()>) -> bool {
        &&& result == Ok::<T, ()>(input)
        &&& self.reported(&input)
    }

    fn process(&self, input: T) -> (result: Result<T, ()>) {
        let line = render_display_line(&self.prefix, &input);
        let ghost given = line;
        let taken = (self.sink)(self.level, line);
        assert(taken =~= ());
        assert(renders_display_line(&self.prefix, &input, given) && self.sink.ensures(
            (self.level, given),
            (),
        ));
        Ok(input)
    }
}

/// A [`Service`] that gives the sink a line made of a prefix and the `Display`
/// rendering of the value of its input, where there is one, and hands the input on.
/// `None` passes through without a line, so that a chain that idles on `None`
/// does not fill the log.
#[verifier::reject_recursive_types(T)]
pub struct LogOptionalDisplayService<T, F: Fn(Level, String)> {
    pub level: Level,
    pub prefix: String,
    pub sink: F,
    pub marker: PhantomData<T>,
}

impl<T, F: Fn(Level, String)> LogOptionalDisplayService<T, F> {
    /// Report at `level`, each line starting with `prefix`.
    pub fn new(level: Level, prefix: &str, sink: F) -> (service: Self)
        ensures
            service.level == level,
            service.prefix@ == prefix@,
            service.sink == sink,
    {
        Self { level, prefix: prefix.to_owned(), sink, marker: PhantomData }
    }

    /// Report at [`Level::Debug`].
    pub fn debug(prefix: &str, sink: F) -> (service: Self)
        ensures
            service.level == Level::Debug,
            service.prefix@ == prefix@,
            service.sink == sink,
    {
        Self::new(Level::Debug, prefix, sink)
    }

    /// Report at [`Level::Error`].
    pub fn error(prefix: &str, sink: F) -> (service: Self)
        ensures
            service.level == Level::Error,
            service.prefix@ == prefix@,
            service.sink == sink,
    {
        Self::new(Level::Error, prefix, sink)
    }

    /// Report at [`Level::Info`].
    pub fn info(prefix: &str, sink: F) -> (service: Self)
        ensures
            service.level == Level::Info,
            service.prefix@ == prefix@,
            service.sink == sink,
    {
        Self::new(Level::Info, prefix, sink)
    }

    /// Report at [`Level::Trace`].
    pub fn trace(prefix: &str, sink: F) -> (service: Self)
        ensures
            service.level == Level::Trace,
            service.prefix@ == prefix@,
            service.sink == sink,
    {
        Self::new(Level::Trace, prefix, sink)
    }

    /// Report at [`Level::Warn`].
    pub fn warn(prefix: &str, sink: F) -> (service: Self)
        ensures
            service.level == Level::Warn,
            service.prefix@ == prefix@,
            service.sink == sink,
    {
        Self::new(Level::Warn, prefix, sink)
    }
}

impl<T: Display, F: Fn(Level, String)> LogOptionalDisplayService<T, F> {
    /// Whether the sink has been given, at the level of this service, the
    /// line that the prefix and `value` render to.
    pub open spec fn reported(&self, value: &T) -> bool {
        exists|line: String|
            renders_display_line(&self.prefix, value, line) && #[trigger] self.sink.ensures(
                (self.level, line),
                (),
            )
    }
}

impl<T: Display, F: Fn(Level, String)> Service for LogOptionalDisplayService<T, F> {
    type Input = Option<T>;

    type Output = Option<T>;

    type Error = ();

    /// The sink takes every line that starts with the prefix, at the level
    /// of this service.
    open spec fn accepts(&self, input: Option<T>) -> bool {
        forall|line: String| self.prefix@.is_prefix_of(line@) ==> #[trigger] self.sink.requires(
            (self.level, line),
        )
    }

    /// The input, always; and where it holds a value, the sink has been given
    /// the line for that value.
    open spec fn yields(&self, input: Option<T>, result: Result<Option<T>, ()>) -> bool {
        &&& result == Ok::<Option<T>, ()>(input)
        &&& input is Some ==> self.reported(&input->Some_0)
    }

    fn process(&self, input: Option<T>) -> (result: Result<Option<T>, ()>) {
        if let Some(value) = &input {
            let line = render_display_line(&self.prefix, value);
            let ghost given = line;
            let taken = (self.sink)(self.level, line);
            assert(taken =~= ());
            assert(renders_display_line(&self.prefix, value, given) && self.sink.ensures(
                (self.level, given),
                (),
            ));
        }
        Ok(input)
    }
}

} // verus!
