//! Floppy-disk subsystem of a Kaypro II emulator: the disk media with its
//! geometry and deferred writes, and the WD179x-style controller that drives
//! byte transfers against the selected drive; around them, the machine's
//! memory map and port decoding, the keyboard's input decoding and the
//! text of the terminal display.
pub mod media;
pub mod floppy_controller;
pub mod transfers;
pub mod screen;
pub mod keyboard;
pub mod kaypro_machine;
