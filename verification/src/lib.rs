pub mod datetime;
pub mod decode;
pub mod deser;
pub mod document;
pub mod encode;
pub mod error;
pub mod fields;
pub mod json;
pub mod laws;
pub mod lookup;
pub mod structs;
pub mod text;
