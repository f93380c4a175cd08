pub mod document;
pub mod encoding;
pub mod error;
pub mod mapping_laws;
pub mod merge;
pub mod my_algo;
pub mod to_my_algo_transaction;
pub mod transaction;
pub mod values;
