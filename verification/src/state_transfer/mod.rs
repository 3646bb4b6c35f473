//! What a state transfer protocol tells the framework about its messages.

pub mod networking;
