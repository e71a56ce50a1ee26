pub mod apply;
pub mod status;
