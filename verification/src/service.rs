//! What the service is called and where it listens.

use vstd::prelude::*;
use vstd::string::*;

verus! {

/// The port on which the service listens unless told otherwise.
pub const DEFAULT_PORT: u16 = 3033;

/// The startup configuration: the name and version that the service
/// answers with at its root path, and the port it binds.
#[derive(Debug, PartialEq, Eq)]
pub struct ServiceConfig {
    pub name: String,
    pub version: String,
    pub port: u16,
}

/// The identity of a service: its name, a space, its version.
pub open spec fn identity_text(name: Seq<char>, version: Seq<char>) -> Seq<char> {
    name + " "@ + version
}

impl ServiceConfig {
    /// A configuration for `name` and `version` on the default port.
    pub fn new(name: &str, version: &str) -> (config: ServiceConfig)
        ensures
            config.name@ == name@,
            config.version@ == version@,
            config.port == DEFAULT_PORT,
    {
        ServiceConfig {
            name: String::from_str(name),
            version: String::from_str(version),
            port: DEFAULT_PORT,
        }
    }

    /// The text served at the root path. It is never empty.
    pub fn identity(&self) -> (text: String)
        ensures
            text@ == identity_text(self.name@, self.version@),
            text@.len() == self.name@.len() + 1 + self.version@.len(),
    {
        proof {
            reveal_strlit(" ");
        }
        let mut text = self.name.clone();
        text.append(" ");
        text.append(self.version.as_str());
        text
    }
}

} // verus!
