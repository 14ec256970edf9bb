//! Verified core of a Telegram bot that converts YouTube videos to MP3:
//! weekly download quotas, the conversion polling protocol, reply texts
//! and the small text grammars the bot reads.

mod clock;
pub mod text;
pub mod usage_manager;
pub mod converter;
pub mod gemini;
pub mod bot;
