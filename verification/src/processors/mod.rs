mod aggregator;
mod miner;
mod transaction_processor;
mod utils;
mod validator;

pub use aggregator::obtain_top_ten;
pub use aggregator::Aggregator;
pub use miner::Miner;
pub use miner::MINER_ANSWER;
pub use miner::MINER_MESSAGE;
pub use transaction_processor::poll_from_response;
pub use transaction_processor::stage_query;
pub use transaction_processor::TransactionProcessor;
pub use utils::generate_validator_answer;
pub use utils::spec_validator_answer;
pub use validator::Validator;
pub use validator::VALIDATOR_MESSAGE;
