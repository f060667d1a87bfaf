//! Building a bootable GRUB2 ISO image from a compiled multiboot2 kernel.
//!
//! The library holds the verified logic of the build pipeline: parsing the
//! runner command line, generating the GRUB configuration text, and deciding
//! each step of the image build.  The surrounding binary performs the file
//! system operations and the external tool invocation that the pipeline asks
//! for, and reports each outcome back.

pub mod args;
pub mod builder;
pub mod config;
pub mod model;
