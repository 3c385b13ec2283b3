pub mod gcalendar;
pub mod gdrive;
pub mod gevents;
pub mod gmail;
pub mod integration;
pub mod integrations;
pub mod user;
