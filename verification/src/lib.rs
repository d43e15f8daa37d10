//! Update delivery for a Telegram bot: long polling and webhooks, with the
//! decisions of both written as verified state machines.
pub mod poller;
pub mod secret;
pub mod webhook;
pub mod listener;
pub mod startup;
pub mod stream;
