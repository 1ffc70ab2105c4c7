//! Decoder for 64-bit Mach-O core dumps taken from macOS and iOS.
//!
//! A core dump is a fixed header followed by a stream of self-sized load
//! commands. Segment commands point at memory contents stored elsewhere in
//! the file, thread commands embed the general purpose registers of one
//! thread. [`macho::Macho::load`] turns such a byte buffer into a
//! [`macho::Macho`], and every step of it is verified against the byte-level
//! model in [`macho::decode_image`]: the header ([`mach_header`]), the walk
//! over the commands ([`walker`]), the commands themselves
//! ([`load_command`]) and the fields they are made of ([`codec`]).
//!
//! The input is not trusted. A file that breaks the layout is refused with
//! a [`error::DecodeError`] that names the offset of what is wrong; no size
//! or offset found in the file is used before it has been held against the
//! length of the buffer.
//!
//! Every multi-byte field of the format is read little-endian, whatever the
//! host.
pub mod codec;
pub mod cpu;
pub mod error;
pub mod filetype;
pub mod flag;
pub mod load_command;
pub mod mach_header;
pub mod macho;
pub mod segment;
pub mod walker;
