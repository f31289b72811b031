pub mod error;
pub mod metadata;
pub mod naming;
pub mod portal;
pub mod saga;
