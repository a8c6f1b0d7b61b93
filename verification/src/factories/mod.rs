pub use just_sender::just;
pub use just_sender::just_error;
pub use just_sender::just_stopped;
pub use just_sender::lemma_just_completes_with_its_value;
pub use just_sender::ImmediateOperationState;
pub use just_sender::Just;
pub use just_sender::JustError;
pub use just_sender::JustOperationState;
pub use just_sender::JustStopped;

mod just_sender;
