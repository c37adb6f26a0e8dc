//! The commands of the command line, as plain values.

use vstd::prelude::*;
use vstd::std_specs::convert::FromSpecImpl;
use crate::common::net::SocketAddrV4;

verus! {

/// What the program was asked to do.
#[derive(Debug, Clone, Copy, PartialEq, Eq, Structural)]
pub enum Subcommands {
    Listener(ListenerArgs),
    Sender(SenderArgs),
}

/// The arguments of the sender.
#[derive(Debug, Clone, Copy, PartialEq, Eq, Structural)]
pub struct SenderArgs {
    /// The address to send data to.
    pub addr: SocketAddrV4,
    /// The local address to bind to.
    pub bind: SocketAddrV4,
}

/// The arguments of the listener.
#[derive(Debug, Clone, Copy, PartialEq, Eq, Structural)]
pub struct ListenerArgs {
    /// The local address to listen on.
    pub addr: SocketAddrV4,
}

/// The role that the program plays.
#[derive(Debug, Clone, Copy, PartialEq, Eq, Structural)]
pub enum Mode {
    Listener,
    Sender,
}

/// The role that goes with a command.
pub open spec fn spec_mode_of(subcommand: Subcommands) -> Mode {
    match subcommand {
        Subcommands::Listener(_) => Mode::Listener,
        Subcommands::Sender(_) => Mode::Sender,
    }
}

/// The name of a role, in lower case.
pub open spec fn spec_mode_name(mode: Mode) -> Seq<char> {
    match mode {
        Mode::Listener => "listener"@,
        Mode::Sender => "sender"@,
    }
}

impl<'a> From<&'a Subcommands> for Mode {
    fn from(subcommand: &'a Subcommands) -> (mode: Mode) {
        match subcommand {
            Subcommands::Listener(_) => Mode::Listener,
            Subcommands::Sender(_) => Mode::Sender,
        }
    }
}

impl<'a> FromSpecImpl<&'a Subcommands> for Mode {
    open spec fn obeys_from_spec() -> bool {
        true
    }

    open spec fn from_spec(subcommand: &'a Subcommands) -> Mode {
        spec_mode_of(*subcommand)
    }
}

impl Mode {
    /// The name of the role: `listener` or `sender`.
    pub fn to_string(&self) -> (name: String)
        ensures
            name@ == spec_mode_name(*self),
    {
        match self {
            Mode::Listener => "listener".to_owned(),
            Mode::Sender => "sender".to_owned(),
        }
    }
}

} // verus!
