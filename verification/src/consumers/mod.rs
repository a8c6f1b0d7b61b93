pub use sync_wait::lemma_receiver_allows_one_completion;
pub use sync_wait::sync_wait;
pub use sync_wait::AsyncValue;
pub use sync_wait::State;
pub use sync_wait::SyncWaitReceiver;
pub use sync_wait::WaitResult;

mod sync_wait;
