pub mod data_type;
pub mod error;
pub mod frame;
pub mod pyramid;
pub mod scan;
pub mod sources;
pub mod store;
pub mod text;
