pub mod email;
pub mod errors;
pub mod json;
pub mod numbers;
pub mod text;
pub mod time;
pub mod token_wrapper;
pub mod ts_schemas;
