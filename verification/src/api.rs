pub mod humble;
pub mod humble_choice;
pub mod igdb;
pub mod steam;
