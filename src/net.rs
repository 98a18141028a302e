pub mod driver;
pub mod e1000;
