//! The commands of the command-line client and the settings they share.
use vstd::prelude::*;

use crate::client::{Client, ClientView};

pub mod call;
pub mod capabilities;
pub mod doctor;
pub mod document_state;
pub mod list_methods;
pub mod list_plugins;
pub mod ping;
pub mod plugin;
pub mod output;
pub mod rhino;
pub mod rhino_rpc;
pub mod wait_ready;

verus! {

/// The settings every command runs with. Timeouts are in milliseconds.
#[derive(Clone, Debug)]
pub struct CommandContext {
    pub host: String,
    pub port: u16,
    pub timeout_ms: u128,
    pub connect_timeout_ms: u128,
    pub pretty: bool,
    pub raw: bool,
    pub quiet: bool,
    pub verbose: bool,
}

impl CommandContext {
    /// A fresh client for the context's host and port; it echoes its traffic
    /// when the context is verbose and not quiet.
    pub fn client(&self) -> (r: Client)
        ensures
            r@ == (ClientView {
                host: self.host@,
                port: self.port,
                connect_timeout_ms: self.connect_timeout_ms,
                read_timeout_ms: self.timeout_ms,
                next_id: 1,
                verbose: self.verbose && !self.quiet,
            }),
    {
        Client::new(
            self.host.clone(),
            self.port,
            self.connect_timeout_ms,
            self.timeout_ms,
            None,
        ).with_verbose(self.verbose && !self.quiet)
    }
}

} // verus!
