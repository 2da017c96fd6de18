//! Services: the credential cache and Telegram notifications.

pub mod credential_service;
pub mod telegram;
