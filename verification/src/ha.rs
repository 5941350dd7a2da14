pub mod discovery;
pub mod values;
