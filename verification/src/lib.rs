//! Architecture support for running aarch64 micro virtual machines on KVM.

pub mod layout;
pub mod memory;
pub mod regions;
pub mod cpu_template;
pub mod errno;
pub mod error;
pub mod features;
pub mod regs;
pub mod counter_io;
pub mod counter;
pub mod saved_counters;
pub mod restore_operations;
pub mod lifecycle;
pub mod kvm;
pub mod clidr_registers;
pub mod clidr;
pub mod boot;
pub mod vm;

pub use error::CounterError;
