//! Japanese text between kana and romaji, and the stems of Japanese verbs.
//!
//! [`translit`] spells katakana in romaji under the Hepburn or the Kunrei
//! system, and reads romaji back into hiragana. [`ja::verb`] guesses the
//! conjugation class of a verb and derives its stems. Every function states
//! what it returns over sequences of characters, and [`translit::laws`]
//! proves what holds of the two directions on every input.

pub mod ja;
pub mod text;
pub mod translit;
