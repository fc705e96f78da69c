//! The closed set of request operation codes.
//!
//! Each message type has a protocol-fixed integer wire value. The values
//! must never be renumbered; new types append rather than reorder.

use vstd::prelude::*;

verus! {

/// One request operation of the IPC protocol.
#[derive(Clone, Copy, Debug, PartialEq, Eq, Structural)]
pub enum Msg {
    RunCommand,
    Workspaces,
    Subscribe,
    Outputs,
    Tree,
    Marks,
    BarConfig,
    Version,
    BindingModes,
    Config,
    Tick,
    Sync,
    BindingState,
}

/// The protocol-fixed wire value of each message type.
pub open spec fn msg_code(m: Msg) -> u32 {
    match m {
        Msg::RunCommand => 0,
        Msg::Workspaces => 1,
        Msg::Subscribe => 2,
        Msg::Outputs => 3,
        Msg::Tree => 4,
        Msg::Marks => 5,
        Msg::BarConfig => 6,
        Msg::Version => 7,
        Msg::BindingModes => 8,
        Msg::Config => 9,
        Msg::Tick => 10,
        Msg::Sync => 11,
        Msg::BindingState => 12,
    }
}

impl Msg {
    /// The 32-bit wire value sent in a frame header for this message type.
    pub fn code(&self) -> (c: u32)
        ensures
            c == msg_code(*self),
    {
        match self {
            Msg::RunCommand => 0,
            Msg::Workspaces => 1,
            Msg::Subscribe => 2,
            Msg::Outputs => 3,
            Msg::Tree => 4,
            Msg::Marks => 5,
            Msg::BarConfig => 6,
            Msg::Version => 7,
            Msg::BindingModes => 8,
            Msg::Config => 9,
            Msg::Tick => 10,
            Msg::Sync => 11,
            Msg::BindingState => 12,
        }
    }

    /// The message type a wire value names, if any: exactly the values
    /// `0` through `12` name one, and the value round-trips.
    pub fn from_code(c: u32) -> (r: Option<Msg>)
        ensures
            r matches Some(m) ==> msg_code(m) == c,
            r is Some <==> c <= 12,
    {
        match c {
            0 => Some(Msg::RunCommand),
            1 => Some(Msg::Workspaces),
            2 => Some(Msg::Subscribe),
            3 => Some(Msg::Outputs),
            4 => Some(Msg::Tree),
            5 => Some(Msg::Marks),
            6 => Some(Msg::BarConfig),
            7 => Some(Msg::Version),
            8 => Some(Msg::BindingModes),
            9 => Some(Msg::Config),
            10 => Some(Msg::Tick),
            11 => Some(Msg::Sync),
            12 => Some(Msg::BindingState),
            _ => None,
        }
    }
}

} // verus!
