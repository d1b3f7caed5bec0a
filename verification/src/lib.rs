pub mod domain;
pub mod email_client;
