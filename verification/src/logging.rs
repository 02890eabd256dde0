//! The host's logging context: severity levels as they cross the module
//! boundary, and the process-wide logger slot that is set exactly once.

use vstd::prelude::*;

verus! {

/// Log severity, ordered from most to least severe.
#[derive(Clone, Copy, Debug, PartialEq, Eq, Structural)]
pub enum Level {
    Error,
    Warn,
    Info,
    Debug,
    Trace,
}

/// How a raw level byte from across the module boundary is decoded:
/// unassigned values default to `Info`.
pub open spec fn u8_to_level_spec(level: u8) -> Level {
    match level {
        0u8 => Level::Error,
        1u8 => Level::Warn,
        3u8 => Level::Debug,
        4u8 => Level::Trace,
        _ => Level::Info,
    }
}

/// Decode a raw level byte received across the module boundary.
pub fn u8_to_level(level: u8) -> (r: Level)
    ensures
        r == u8_to_level_spec(level),
{
    match level {
        0u8 => Level::Error,
        1u8 => Level::Warn,
        3u8 => Level::Debug,
        4u8 => Level::Trace,
        _ => Level::Info,
    }
}

/// The process-wide logging context: a slot that holds at most one logger
/// handle and accepts a value exactly once. A second set attempt fails and
/// never silently replaces the first value, since other code may already
/// hold and be using it.
pub struct LoggerSlot<T> {
    value: Option<T>,
}

impl<T> View for LoggerSlot<T> {
    type V = Option<T>;

    closed spec fn view(&self) -> Option<T> {
        self.value
    }
}

impl<T> LoggerSlot<T> {
    /// An empty slot: no logger has been installed yet.
    pub fn new() -> (r: Self)
        ensures
            r@ is None,
    {
        LoggerSlot { value: None }
    }

    /// Install the logger. Succeeds only on the first call: afterwards the
    /// slot keeps its first value, whatever is offered.
    pub fn set(&mut self, logger: T) -> (r: bool)
        ensures
            old(self)@ is None ==> r && final(self)@ == Some(logger),
            old(self)@ is Some ==> !r && final(self)@ == old(self)@,
    {
        match &self.value {
            None => {
                self.value = Some(logger);
                true
            },
            Some(_) => false,
        }
    }

    /// The installed logger, if any.
    pub fn get(&self) -> (r: Option<&T>)
        ensures
            match r {
                Some(v) => self@ == Some(*v),
                None => self@ is None,
            },
    {
        self.value.as_ref()
    }
}

} // verus!
