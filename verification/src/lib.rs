pub mod arith;
pub mod cpu;
pub mod decode;
pub mod display;
pub mod keyboard;
pub mod laws;
pub mod memory;
pub mod ram;
pub mod rom;
pub mod segmented_memory;
pub mod state;

pub use cpu::Machine;
pub use memory::Memory;
pub use ram::RAM;
pub use rom::ROM;
pub use segmented_memory::SegmentedMemory;
