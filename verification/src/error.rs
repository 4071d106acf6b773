//! Errors of a device session: what kind of failure it was, and the chain of
//! sentences that describes it, outermost first.

use crate::config::ConfigError;
use crate::control::ControlFault;
use vstd::prelude::*;
use vstd::string::StringExecFns;

verus! {

/// The kind of failure behind a session error.
#[derive(Debug, Clone, Copy, PartialEq, Eq, Structural)]
pub enum FaultKind {
    /// The configuration or its fan curve was rejected.
    Config(ConfigError),
    /// The machine does not hold exactly one device.
    DeviceCount,
    /// A single query or command of the device failed.
    Device,
    /// The control step could not go on.
    Control(ControlFault),
    /// The commanded duties handed in do not match the number of fans.
    FanCount,
    /// The snapshot could not be written in the wire format.
    Serialization,
    /// The worker that was to read the device did not finish.
    Worker,
}

/// A failure with its causes. `chain[0]` is the outermost sentence, the one
/// that was added last; the innermost cause comes last.
#[derive(Debug, Clone)]
pub struct SessionError {
    pub kind: FaultKind,
    pub chain: Vec<String>,
}

/// The sentences of a chain as plain text.
pub open spec fn chain_text(chain: Seq<String>) -> Seq<Seq<char>> {
    chain.map_values(|s: String| s@)
}

impl SessionError {
    /// The sentences of this error, outermost first.
    pub open spec fn text(&self) -> Seq<Seq<char>> {
        chain_text(self.chain@)
    }

    /// A failed query or command of the device: the chain names the
    /// operation and ends with the device's own words.
    pub open spec fn is_device_fault(&self) -> bool {
        self.kind == FaultKind::Device && self.text().len() >= 2
    }

    /// A failed query or command of the device that is named by `operation`:
    /// the chain holds that name first and the cause second.
    pub open spec fn names(&self, operation: Seq<char>) -> bool {
        self.kind == FaultKind::Device && self.text().len() == 2 && self.text()[0] == operation
    }

    /// An error with a single sentence.
    pub fn new(kind: FaultKind, sentence: &str) -> (e: Self)
        ensures
            e.kind == kind,
            e.text() == seq![sentence@],
    {
        let mut chain: Vec<String> = Vec::new();
        chain.push(String::from_str(sentence));
        let e = SessionError { kind, chain };
        proof {
            assert(e.text() =~= seq![sentence@]);
        }
        e
    }

    /// The same failure with one more sentence in front of its chain.
    pub fn context(self, sentence: &str) -> (e: Self)
        ensures
            e.kind == self.kind,
            e.text() == seq![sentence@] + self.text(),
    {
        let SessionError { kind, chain } = self;
        let ghost before = chain@;
        let mut chain = chain;
        chain.insert(0, String::from_str(sentence));
        let e = SessionError { kind, chain };
        proof {
            assert(e.text() =~= seq![sentence@] + chain_text(before));
        }
        e
    }
}

} // verus!
