pub mod system;
pub mod wizard;
