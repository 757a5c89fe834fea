use vstd::prelude::*;

verus! {

/// Everything that can go wrong between a typed endpoint and the bus.
#[derive(Debug, PartialEq)]
pub enum CalError {
    /// The bus refused to initialize the process.
    InitializationFailed,
    /// The bus refused to create a publisher on the named topic.
    PublisherCreationFailed(String),
    /// The bus refused to create a subscriber on the named topic.
    SubscriberCreationFailed(String),
    /// The bus accepted fewer bytes than were handed to it.
    PublishFailed,
    /// A received message could not be decoded.
    InvalidFormat,
    /// No message arrived within the requested time.
    Timeout,
    /// A lower-level failure, with its description.
    Unknown(String),
}

impl CalError {
    /// Whether this error is the one a receive reports when nothing arrived.
    pub fn is_timeout(&self) -> (r: bool)
        ensures
            r == (*self is Timeout),
    {
        match self {
            CalError::Timeout => true,
            _ => false,
        }
    }
}

} // verus!
