pub mod google;
pub mod index_flow;
pub mod login;
pub mod notion;
pub mod typesense;
pub mod user;
