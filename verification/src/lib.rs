//! Early-boot configuration for a 32-bit protected-mode x86 kernel: segment and
//! gate descriptor encoding, the two descriptor tables built from them, the
//! order in which they are activated, the boot-protocol header that a
//! bootloader reads, and the layout of text on the display.

pub mod activation;
pub mod bytes;
pub mod gdt;
pub mod idt;
pub mod multiboot;
pub mod table;
pub mod vga;
