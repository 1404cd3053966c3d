//! The engine's error kinds.
use vstd::prelude::*;

verus! {

/// Relies on std's `std::io::Error` as an opaque value carried in `EngineError::Io`.
#[verifier::external_type_specification]
#[verifier::external_body]
pub struct ExIoError(std::io::Error);

/// Errors raised by the engine.
#[derive(Debug)]
pub enum EngineError {
    /// Terminal input, polling or mode switching failed.
    Input(String),
    /// An I/O operation failed.
    Io(std::io::Error),
    /// The event loop could not proceed.
    EventLoop(String),
    /// Drawing or flushing failed, or a coordinate was out of bounds.
    Render(String),
    /// The configuration is invalid.
    Config(String),
}

/// The text that `to_string` puts before a variant's message.
pub open spec fn prefix_of(e: EngineError) -> Seq<char> {
    match e {
        EngineError::Input(_) => "input error: "@,
        EngineError::Io(_) => "io error: "@,
        EngineError::EventLoop(_) => "event loop error: "@,
        EngineError::Render(_) => "render error: "@,
        EngineError::Config(_) => "config error: "@,
    }
}

impl EngineError {
    /// A human-readable description: the kind's prefix, then the message.
    pub fn to_string(&self) -> (r: String)
        ensures
            r@.len() >= prefix_of(*self).len(),
            r@.subrange(0, prefix_of(*self).len() as int) == prefix_of(*self),
            match *self {
                EngineError::Input(m) => r@ == prefix_of(*self) + m@,
                EngineError::EventLoop(m) => r@ == prefix_of(*self) + m@,
                EngineError::Render(m) => r@ == prefix_of(*self) + m@,
                EngineError::Config(m) => r@ == prefix_of(*self) + m@,
                EngineError::Io(_) => true,
            },
    {
        match self {
            EngineError::Input(m) => {
                let mut r = String::from_str("input error: ");
                r.append(m.as_str());
                r
            },
            EngineError::Io(e) => {
                let mut r = String::from_str("io error: ");
                let detail = e.to_string();
                r.append(detail.as_str());
                r
            },
            EngineError::EventLoop(m) => {
                let mut r = String::from_str("event loop error: ");
                r.append(m.as_str());
                r
            },
            EngineError::Render(m) => {
                let mut r = String::from_str("render error: ");
                r.append(m.as_str());
                r
            },
            EngineError::Config(m) => {
                let mut r = String::from_str("config error: ");
                r.append(m.as_str());
                r
            },
        }
    }
}

impl From<std::io::Error> for EngineError {
    fn from(e: std::io::Error) -> (r: EngineError)
        ensures
            r == EngineError::Io(e),
    {
        EngineError::Io(e)
    }
}

impl vstd::std_specs::convert::FromSpecImpl<std::io::Error> for EngineError {
    open spec fn obeys_from_spec() -> bool {
        true
    }

    open spec fn from_spec(e: std::io::Error) -> EngineError {
        EngineError::Io(e)
    }
}

} // verus!
