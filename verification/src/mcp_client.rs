//! The engine-side model of an attached tool-providing client.
//!
//! Connecting over a transport and discovering the remote catalog is I/O
//! and lives outside the library; what the turn loop needs from a client
//! is its identity and the tool specs it advertised, and that is what
//! this type holds.

use vstd::prelude::*;

verus! {

use crate::tool::{ToolSpec, ToolSpecView};

/// How to reach a tool-providing service.
#[derive(Clone, Debug)]
pub enum TransportArgs {
    Stdio { command: String, args: Vec<String> },
    StreamableHttp { url: String, api_key: Option<String> },
}

/// What a client connection is created from.
#[derive(Clone, Debug)]
pub struct McpClientArgs {
    pub name: String,
    pub version: String,
    pub transport: TransportArgs,
}

/// A connected tool-providing client, as the turn loop sees it: a name,
/// a version, and the advertised tool catalog.
#[derive(Clone, Debug)]
pub struct McpClient {
    name: String,
    version: String,
    tool_specs: Vec<ToolSpec>,
}

/// Deep view of [`McpClient`].
#[verifier::ext_equal]
pub struct McpClientView {
    pub name: Seq<char>,
    pub version: Seq<char>,
    pub tool_specs: Seq<ToolSpecView>,
}

impl DeepView for McpClient {
    type V = McpClientView;

    closed spec fn deep_view(&self) -> McpClientView {
        McpClientView {
            name: self.name.view(),
            version: self.version.view(),
            tool_specs: self.tool_specs.deep_view(),
        }
    }
}

impl McpClient {
    /// A client record for a connection made elsewhere: `tool_specs` is
    /// the catalog the service advertised at discovery time.
    pub fn new(name: String, version: String, tool_specs: Vec<ToolSpec>) -> (r: Self)
        ensures
            r.deep_view() == (McpClientView {
                name: name.view(),
                version: version.view(),
                tool_specs: tool_specs.deep_view(),
            }),
    {
        McpClient { name, version, tool_specs }
    }

    /// The tool catalog this client advertised.
    pub fn tool_specs(&self) -> (r: &Vec<ToolSpec>)
        ensures
            r.deep_view() == self.deep_view().tool_specs,
    {
        &self.tool_specs
    }
}

} // verus!
