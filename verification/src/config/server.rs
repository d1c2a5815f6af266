//! Tool server connections: over STDIO (a subprocess), HTTP, or built in.
use vstd::prelude::*;

use crate::config::provider::ParseableConfig;
use crate::string_map::StringMap;

verus! {

/// How the client reaches a tool server.
#[derive(Debug, Clone, Copy, PartialEq, Eq, Structural)]
pub enum TransportType {
    /// Spawn a subprocess and talk over its standard streams.
    Stdio,
    /// Connect over HTTP.
    Http,
    /// Run in-process tool implementations.
    Builtin,
}

/// A tool server connection.
#[derive(Debug, Clone)]
pub struct ServerConfig {
    /// Unique server name.
    pub name: String,
    pub transport: TransportType,
    /// Executable path (STDIO).
    pub command: Option<String>,
    /// Command-line arguments (STDIO).
    pub args: Vec<String>,
    /// Environment variables (STDIO).
    pub env: StringMap,
    /// Working directory (STDIO).
    pub workdir: Option<String>,
    /// Server URL (HTTP).
    pub url: Option<String>,
    /// HTTP headers (HTTP).
    pub headers: StringMap,
    /// Default time zone for time-related tools.
    pub default_timezone: Option<String>,
    /// Default city for location-based tools.
    pub default_city: Option<String>,
}

impl ServerConfig {
    /// Whether the server is reached over STDIO.
    pub fn is_stdio(&self) -> (r: bool)
        ensures
            r == (self.transport == TransportType::Stdio),
    {
        self.transport == TransportType::Stdio
    }

    /// Whether the server is reached over HTTP.
    pub fn is_http(&self) -> (r: bool)
        ensures
            r == (self.transport == TransportType::Http),
    {
        self.transport == TransportType::Http
    }

    /// Whether the server runs in-process.
    pub fn is_builtin(&self) -> (r: bool)
        ensures
            r == (self.transport == TransportType::Builtin),
    {
        self.transport == TransportType::Builtin
    }

    /// The executable path, if any.
    pub fn command(&self) -> (r: Option<&String>)
        ensures
            r matches Some(c) ==> self.command == Some(*c),
            r is None <==> self.command is None,
    {
        match &self.command {
            Some(c) => Some(c),
            None => None,
        }
    }

    /// The URL, if any.
    pub fn url(&self) -> (r: Option<&str>)
        ensures
            r matches Some(u) ==> self.url matches Some(v) && u@ == v@,
            r is None <==> self.url is None,
    {
        match &self.url {
            Some(u) => Some(u.as_str()),
            None => None,
        }
    }
}

/// A server entry as written: a URL makes an HTTP server, else a command makes a
/// STDIO server, else the server is built in.
#[derive(Debug)]
pub struct RawServer {
    pub name: String,
    pub command: Option<String>,
    pub args: Vec<String>,
    pub env: StringMap,
    pub workdir: Option<String>,
    pub url: Option<String>,
    pub headers: StringMap,
    pub default_timezone: Option<String>,
    pub default_city: Option<String>,
}

/// Whether `s` holds nothing for shell expansion: no `$` and no leading `~`.
pub open spec fn nothing_to_expand(s: Seq<char>) -> bool {
    !s.contains('$') && !(s.len() > 0 && s[0] == '~')
}

/// `shellexpand::full`: `~` and `$VAR` expansion against the home directory
/// and the environment; the input itself when a variable cannot be looked up.
/// What an expansion yields depends on the environment and is not stated; a
/// string with no `$` and no leading `~` comes back unchanged (the crate
/// returns its input when it finds neither).
#[verifier::external_body]
fn expand(s: &str) -> (r: String)
    ensures
        nothing_to_expand(s@) ==> r@ == s@,
{
    match shellexpand::full(s) {
        Ok(expanded) => expanded.into_owned(),
        Err(_) => s.to_owned(),
    }
}

/// The transport a raw entry asks for.
pub open spec fn raw_transport(url: Option<String>, command: Option<String>) -> TransportType {
    if url is Some {
        TransportType::Http
    } else if command is Some {
        TransportType::Stdio
    } else {
        TransportType::Builtin
    }
}

impl ParseableConfig<RawServer> for ServerConfig {
    /// The transport follows the entry (URL, else command, else built in); the
    /// command, working directory and each argument are shell-expanded; a URL
    /// drops the command, and a command is kept only without URL.
    fn from_raw(raw: RawServer) -> (r: Self)
        ensures
            r.name == raw.name,
            r.transport == raw_transport(raw.url, raw.command),
            r.url == raw.url,
            r.command is Some <==> (raw.url is None && raw.command is Some),
            r.workdir is Some <==> raw.workdir is Some,
            raw.url is None && raw.command is Some && nothing_to_expand(raw.command.unwrap()@) ==> r.command.unwrap()@
                == raw.command.unwrap()@,
            raw.workdir is Some && nothing_to_expand(raw.workdir.unwrap()@) ==> r.workdir.unwrap()@
                == raw.workdir.unwrap()@,
            r.args@.len() == raw.args@.len(),
            forall|i: int|
                0 <= i < raw.args@.len() && nothing_to_expand(#[trigger] raw.args@[i]@) ==> r.args@[i]@ == raw.args@[i]@,
            r.env == raw.env,
            r.headers == raw.headers,
            r.default_timezone == raw.default_timezone,
            r.default_city == raw.default_city,
    {
        let transport = if raw.url.is_some() {
            TransportType::Http
        } else if raw.command.is_some() {
            TransportType::Stdio
        } else {
            TransportType::Builtin
        };
        let command = match (&raw.url, &raw.command) {
            (None, Some(cmd)) => Some(expand(cmd.as_str())),
            _ => None,
        };
        let workdir = match &raw.workdir {
            Some(d) => Some(expand(d.as_str())),
            None => None,
        };
        let mut args: Vec<String> = Vec::new();
        let mut i: usize = 0;
        while i < raw.args.len()
            invariant
                i <= raw.args@.len(),
                args@.len() == i,
                forall|j: int| 0 <= j < i && nothing_to_expand(#[trigger] raw.args@[j]@) ==> args@[j]@ == raw.args@[j]@,
            decreases raw.args@.len() - i,
        {
            args.push(expand(raw.args[i].as_str()));
            i = i + 1;
        }
        ServerConfig {
            name: raw.name,
            transport,
            command,
            args,
            env: raw.env,
            workdir,
            url: raw.url,
            headers: raw.headers,
            default_timezone: raw.default_timezone,
            default_city: raw.default_city,
        }
    }
}

} // verus!
