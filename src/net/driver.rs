pub mod e1000;
pub mod rtl8139;
