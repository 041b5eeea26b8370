//! Where the container engine is reached.

use vstd::prelude::*;
use vstd::string::*;

verus! {

/// The base URL of a container engine.
#[derive(Debug, PartialEq, Eq)]
pub struct Client {
    host: String,
}

impl View for Client {
    type V = Seq<char>;

    closed spec fn view(&self) -> Seq<char> {
        self.host@
    }
}

impl Clone for Client {
    fn clone(&self) -> (copy: Client)
        ensures
            copy@ == self@,
    {
        Client { host: self.host.clone() }
    }
}

impl Client {
    /// A client for the engine at the base URL `host`.
    pub fn new(host: String) -> (client: Client)
        ensures
            client@ == host@,
    {
        Client { host }
    }

    /// The base URL of the engine.
    pub fn host(&self) -> (host: &str)
        ensures
            host@ == self@,
    {
        self.host.as_str()
    }
}

} // verus!
