//! Verified core of a test-automation driver for serial, SSH and VNC consoles.
//!
//! A test script asks the driver to run a command on a console and tell its
//! exit code, to wait for a text, or to wait until the screen shows a
//! reference image and then click. This crate holds what the driver decides:
//! the bookkeeping of console output, the text protocol that frames a
//! command's answer, the comparison of screenshots with needles, the wire
//! format of the screen and the routing of requests. It does no input or
//! output and keeps no clock. Threads, sockets, files, sleeps and the time
//! belong to the program around it, which feeds this crate with what happened
//! and does what it is told.
//!
//! The functions are verified with Verus against the contracts they carry.
//! Three of them call out of the crate (for a random tag, a search with a
//! regular expression and the decoding of UTF-8); their contracts are taken
//! on trust and say so. Times are milliseconds on a clock that the caller
//! keeps. Likeness of images is counted in millionths.
//!
//! - [`evloop`]: the event loop of one console, with its append-only history.
//! - [`text`]: searching, capturing and number reading on decoded text.
//! - [`term`]: decoders from console bytes to text.
//! - [`tty`]: waits and command runs on a text console, tick by tick.
//! - [`needle`]: screenshots, needles and their likeness.
//! - [`key`]: names of keys.
//! - [`rfb`]: messages to and from the screen, and the framebuffer.
//! - [`vnc`]: requests to the screen and the wait for a needle.
//! - [`msg`]: the messages between a script host and the driver.
//! - [`config`]: the configuration.
//! - [`service`]: what a request comes to.
//! - [`server`]: the main loop and its shutdown.
//! - [`screenshot`]: names of screenshot files.
//! - [`script`]: what a script host needs besides the requests.
//! - [`cli`]: the commands of the command line.

pub mod cli;
pub mod config;
pub mod evloop;
pub mod key;
pub mod msg;
pub mod needle;
pub mod rfb;
pub mod screenshot;
pub mod script;
pub mod server;
pub mod service;
pub mod term;
pub mod text;
pub mod tty;
pub mod vnc;
