//! The commands of the command line, as the driver reads them.

use crate::msg::{MsgReq, VNC};
use vstd::prelude::*;

verus! {

/// Something to do on the screen from the command line.
#[derive(Debug, Clone, Copy, PartialEq, Eq, Structural)]
pub enum VNCAction {
    Move { x: u16, y: u16 },
    Click,
    RClick,
}

/// What the command line asks for.
#[allow(inconsistent_fields)]
#[derive(Debug)]
pub enum Commands {
    /// Run a script against the consoles of a configuration.
    Run { config: String, script: String },
    /// Record needles by hand.
    Record { config: Option<String> },
    /// Do one thing on the screen.
    VncDo { config: String, action: VNCAction },
}

/// The command line.
#[derive(Debug)]
pub struct Cli {
    pub command: Commands,
}

/// The request that does `action` on the screen.
pub fn action_request(action: VNCAction) -> (req: MsgReq)
    ensures
        req == MsgReq::VNC(
            match action {
                VNCAction::Move { x, y } => VNC::MouseMove { x, y },
                VNCAction::Click => VNC::MouseClick,
                VNCAction::RClick => VNC::MouseRClick,
            },
        ),
{
    match action {
        VNCAction::Move { x, y } => MsgReq::VNC(VNC::MouseMove { x, y }),
        VNCAction::Click => MsgReq::VNC(VNC::MouseClick),
        VNCAction::RClick => MsgReq::VNC(VNC::MouseRClick),
    }
}

impl Cli {
    /// Whether the command drives the screen only, so that the text consoles
    /// of the configuration are left alone.
    pub fn screen_only(&self) -> (b: bool)
        ensures
            b == (self.command is VncDo),
    {
        match self.command {
            Commands::VncDo { .. } => true,
            _ => false,
        }
    }
}

} // verus!
