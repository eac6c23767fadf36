//! Events produced by input devices.

use std::time::Duration;
use vstd::prelude::*;

verus! {

/// An event generated by a button or another binary input.
#[derive(Debug, Clone, Copy, PartialEq, Eq, PartialOrd, Ord)]
pub enum ButtonEvent {
    /// The button was pressed.
    Down,
    /// The button was depressed.
    Up,
    /// The button was pressed and released.
    /// The duration indicates for how long the button was pressed.
    Clicked { duration: Duration },
    /// An event that is generated at one-second intervals after a button was initially pressed.
    LongPress { seconds: u64 },
}

/// An error, deconstructed into the high-level error message, a chain of causes, and a backtrace.
#[derive(Debug, Clone)]
pub struct EventError {
    pub message: String,
    pub chain: Vec<String>,
    pub backtrace: Option<String>,
}

impl EventError {
    /// The event error of an error with the given message, chain of errors
    /// (the error itself first, then its causes) and captured backtrace: the
    /// causes become the chain.
    pub fn from_parts(message: String, chain: &Vec<String>, backtrace: Option<String>) -> (e:
        EventError)
        ensures
            e.message == message,
            e.chain@ == (if chain@.len() == 0 {
                Seq::<String>::empty()
            } else {
                chain@.skip(1)
            }),
            e.backtrace == backtrace,
    {
        let mut causes: Vec<String> = Vec::new();
        let mut i: usize = 1;
        while i < chain.len()
            invariant
                1 <= i,
                chain@.len() == 0 ==> i == 1,
                chain@.len() > 0 ==> i <= chain@.len(),
                causes@ == (if chain@.len() == 0 {
                    Seq::<String>::empty()
                } else {
                    chain@.subrange(1, i as int)
                }),
            decreases chain@.len() - i,
        {
            causes.push(chain[i].clone());
            assert(chain@.subrange(1, i + 1) =~= chain@.subrange(1, i as int).push(chain@[i as int]));
            i = i + 1;
        }
        assert(chain@.len() > 0 ==> chain@.subrange(1, chain@.len() as int) =~= chain@.skip(1));
        EventError { message, chain: causes, backtrace }
    }

    /// The text form of the error: its high-level message.
    pub fn to_string(&self) -> (s: String)
        ensures
            s@ == self.message@,
    {
        self.message.clone()
    }
}

} // verus!
