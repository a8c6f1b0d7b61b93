pub use operation_state::OperationState;
pub use receiver::Receiver;
pub use sender::Sender;

mod operation_state;
mod receiver;
mod sender;
