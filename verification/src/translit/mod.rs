//! Kana to romaji and back.

pub mod kana_to_romaji;
pub use kana_to_romaji::{kana_to_romaji_hepburn, kana_to_romaji_kunrei, System};

pub mod romaji_to_kana;
pub use romaji_to_kana::romaji_to_kana;

pub mod laws;
