//! A Telegram bot that writes observation cards with an AI model, mails them
//! to its users and sends a monthly newsletter: the decisions of the bot.

pub mod text;
pub mod command;
pub mod clock;
pub mod json;
pub mod completion;
pub mod mail;
pub mod bot;
pub mod subscription;
pub mod newsletter;
pub mod laws;
