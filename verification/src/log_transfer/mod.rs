//! What a log transfer protocol tells the framework about its messages.

pub mod networking;
