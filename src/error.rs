use vstd::prelude::*;

verus! {

/// The failures that a parse session reports.
#[derive(Debug, Clone, PartialEq, Eq)]
pub enum TSBridgeError {
    /// No grammar is selected, or the parser refused the grammar.
    LanguageError { error_message: String },
    /// A lock around the session was poisoned by a panicking holder.
    PoisonedLockError { error_message: String },
    /// Any other lower-level failure.
    OtherError { error_message: String },
    /// The parser produced no tree.
    TreeCreationError,
}

impl TSBridgeError {
    /// The human-readable message carried by the error.
    pub fn message(&self) -> (r: String)
        ensures
            match self {
                TSBridgeError::LanguageError { error_message } => r@ == error_message@,
                TSBridgeError::PoisonedLockError { error_message } => r@ == error_message@,
                TSBridgeError::OtherError { error_message } => r@ == error_message@,
                TSBridgeError::TreeCreationError => r@ == "tree creation failed"@,
            },
    {
        match self {
            TSBridgeError::LanguageError { error_message } => error_message.clone(),
            TSBridgeError::PoisonedLockError { error_message } => error_message.clone(),
            TSBridgeError::OtherError { error_message } => error_message.clone(),
            TSBridgeError::TreeCreationError => String::from_str("tree creation failed"),
        }
    }
}

} // verus!
