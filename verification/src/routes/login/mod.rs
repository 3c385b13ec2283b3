pub mod google_auth;
