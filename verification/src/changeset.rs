//! Changesets of the editing API.

use crate::text::{decimal, push_decimal};
use crate::util::Format;
use vstd::prelude::*;
use vstd::string::StringExecFns;

verus! {

/// What the command line says of fetching one changeset.
#[derive(Debug, Clone, Copy)]
pub struct CliArgs {
    /// The format to ask for.
    pub format: Format,
    /// Whether to fetch the changes themselves in place of their description.
    pub diff: bool,
    /// The changeset's number.
    pub id: u64,
}

/// The address of a changeset, or of its changes, below the address `server` of
/// the API.
pub open spec fn endpoint_spec(server: Seq<char>, id: u64, diff: bool) -> Seq<char> {
    let changeset = server + "/api/0.6/changeset/"@ + decimal(id as nat);
    if diff {
        changeset + "/download"@
    } else {
        changeset
    }
}

impl CliArgs {
    /// The address to fetch.
    pub fn endpoint(&self, server: &str) -> (url: String)
        ensures
            url@ == endpoint_spec(server@, self.id, self.diff),
    {
        let mut url = String::from_str(server);
        url.append("/api/0.6/changeset/");
        push_decimal(&mut url, self.id);
        if self.diff {
            url.append("/download");
        }
        url
    }

    /// The media type to ask for.
    pub fn accept(&self) -> (r: &'static str)
        ensures
            r@ == self.format.mimetype_spec(),
    {
        self.format.mimetype()
    }
}

} // verus!
