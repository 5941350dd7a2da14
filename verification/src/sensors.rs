pub mod apt;
pub mod cpu;
pub mod disk;
pub mod load;
pub mod memory;
pub mod monitor;
pub mod net;
pub mod reboot;
