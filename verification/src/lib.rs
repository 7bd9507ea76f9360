pub mod channel;
pub mod error;
pub mod laws;
pub mod outcome;
pub mod promise;

pub use channel::RecvAttempt;
pub use channel::SendAttempt;
pub use channel::SettlementChannel;
pub use error::PromiseError;
pub use outcome::PromiseResult;
pub use promise::Promise;
pub use promise::PromisePoll;
pub use promise::SettleAttempt;
