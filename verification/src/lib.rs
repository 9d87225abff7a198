pub mod card;
pub mod user;
