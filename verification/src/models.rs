pub mod bundle;
pub mod choice;
pub mod filter;
pub mod key;
pub mod metadata;
