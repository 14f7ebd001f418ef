pub mod discriminators;
pub mod events;
pub mod parser;
