//! Tool definitions known to the client.
use vstd::prelude::*;

verus! {

/// A tool offered by a server, with an optional description.
#[derive(Debug)]
pub struct ToolConfig {
    pub name: String,
    pub description: Option<String>,
    /// The server that runs the tool.
    pub server: Option<String>,
}

impl Clone for ToolConfig {
    fn clone(&self) -> (r: Self)
        ensures
            r == *self,
    {
        ToolConfig {
            name: self.name.clone(),
            description: match &self.description {
                Some(d) => Some(d.clone()),
                None => None,
            },
            server: match &self.server {
                Some(s) => Some(s.clone()),
                None => None,
            },
        }
    }
}

} // verus!
