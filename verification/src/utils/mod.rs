pub mod decimal;
pub mod time;
