pub mod emission;
pub mod intercept;
pub mod key_mapping;
pub mod layout_decode;
