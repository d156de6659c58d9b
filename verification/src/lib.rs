//! The logic of a FUSE filesystem that shows the HDMI stream of an IT9910
//! grabber as one file: the control protocol of the device, the worker that
//! moves the stream, and the rules of the filesystem.
//!
//! Nothing in this library transfers, waits or spawns. Its state machines
//! say what is to be done next and take in how that went, so that a host
//! can run them on a real USB session and a real mount, and a test on a
//! device that it makes up.
//!
//! * [`wire`]: little-endian words.
//! * [`command`]: the commands, their frames, their responses.
//! * [`usb_wrapper`]: the USB session and how it is chosen.
//! * [`it9910hd_driver`]: the start-up and shut-down handshakes.
//! * [`handshake`]: what the handshakes amount to as a whole.
//! * [`worker`]: the producer of the stream.
//! * [`fs`]: the filesystem.

pub mod command;
pub mod config;
pub mod fs;
pub mod handshake;
pub mod it9910hd_driver;
pub mod usb_wrapper;
pub mod wire;
pub mod worker;
