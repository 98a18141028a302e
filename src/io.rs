pub mod port;
