//! Boot-time platform discovery for an x86-64 microkernel.
//!
//! This crate holds the portable logic of the early boot pipeline: the
//! multiboot v1 information-block parser, the ACPI table walker (RSDP
//! location and validation, RSDT entry walk, MADT CPU / I/O-APIC
//! enumeration), the fixed-capacity region lists they fill, and the pure
//! builders for the bootstrap page tables and descriptor tables.
//!
//! All raw-memory walks are modelled as bounds-checked reads over a byte
//! slice that stands for the low physical memory window, with explicit
//! little-endian read-at-offset primitives.  The hardware edge (port I/O,
//! CPUID, MSR reads, the mode-switch assembly, the serial console) lives
//! outside this crate and hands plain values in and out.
pub mod acpi;
pub mod arch;
pub mod basic_types;
pub mod boot;
pub mod bytes;
pub mod config;
pub mod cpu;
pub mod error;
pub mod fixedarr;
pub mod hardware;
pub mod multiboot;
pub mod paging;
pub mod pic;
pub mod utils;
