//! The version of a build.

use vstd::prelude::*;

verus! {

/// Specifies `String::push_str` of std: the string holds afterwards what it
/// held before, followed by the characters of `other`.
pub assume_specification[ String::push_str ](s: &mut String, other: &str)
    ensures
        final(s)@ == old(s)@ + other@,
;

/// The version info of a build.
#[derive(Clone, Debug, PartialEq, Eq, Hash)]
pub struct VersionInfo {
    /// The crate version
    pub crate_version: String,
    /// The git commit hash
    pub git_commit: String,
    /// A hash of the RPC API
    pub rpc_hash: String,
    /// A hash of the GraphQL API
    pub graphql_hash: String,
    /// A hash of the WIT API
    pub wit_hash: String,
}

fn labelled(label: &str, value: &String) -> (line: String)
    ensures
        line@ == label@ + value@,
{
    let mut line = label.to_owned();
    line.push_str(value.as_str());
    line
}

impl VersionInfo {
    /// The lines of the listing, top to bottom.
    pub open spec fn listing(self) -> Seq<Seq<char>> {
        seq![
            "Linera v"@ + self.crate_version@,
            "Built from git commit: "@ + self.git_commit@,
            "RPC API hash: "@ + self.rpc_hash@,
            "GraphQL API hash: "@ + self.graphql_hash@,
            "WIT API hash: "@ + self.wit_hash@,
        ]
    }

    /// A human-readable listing of the version information, one line for
    /// each entry. The caller sends the lines to its log.
    pub fn log(&self) -> (lines: Vec<String>)
        ensures
            lines@.len() == 5,
            forall|i: int| 0 <= i < 5 ==> (#[trigger] lines@[i])@ == self.listing()[i],
    {
        let mut lines: Vec<String> = Vec::new();
        lines.push(labelled("Linera v", &self.crate_version));
        lines.push(labelled("Built from git commit: ", &self.git_commit));
        lines.push(labelled("RPC API hash: ", &self.rpc_hash));
        lines.push(labelled("GraphQL API hash: ", &self.graphql_hash));
        lines.push(labelled("WIT API hash: ", &self.wit_hash));
        lines
    }
}

} // verus!
