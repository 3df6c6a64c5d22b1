pub mod fstab;
pub mod mount;
pub mod system;
pub mod wizard;
