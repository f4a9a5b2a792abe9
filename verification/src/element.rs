//! Nodes, ways and relations of the editing API.

use crate::text::{decimal, push_decimal};
use crate::util::Format;
use vstd::prelude::*;
use vstd::string::StringExecFns;

verus! {

/// What the command line says of fetching one element.
#[derive(Debug, Clone, Copy)]
pub struct CliArgs {
    /// The format to ask for.
    pub format: Format,
    /// Whether to fetch every version of the element.
    pub history: bool,
    /// The element's number.
    pub id: u64,
}

/// The address of an element of kind `element_type`, or of its history, below
/// the address `server` of the API.
pub open spec fn endpoint_spec(
    server: Seq<char>,
    element_type: Seq<char>,
    id: u64,
    history: bool,
) -> Seq<char> {
    let element = server + "/api/0.6/"@ + element_type + seq!['/'] + decimal(id as nat);
    if history {
        element + "/history"@
    } else {
        element
    }
}

impl CliArgs {
    /// The address to fetch.
    pub fn endpoint(&self, server: &str, element_type: &str) -> (url: String)
        ensures
            url@ == endpoint_spec(server@, element_type@, self.id, self.history),
    {
        let mut url = String::from_str(server);
        url.append("/api/0.6/");
        url.append(element_type);
        url.push('/');
        push_decimal(&mut url, self.id);
        if self.history {
            url.append("/history");
        }
        url
    }

    /// The media type to ask for.
    pub fn accept(&self) -> (r: &'static str)
        ensures
            r@ == self.format.mimetype_spec(),
    {
        self.format.mimetype()
    }
}

} // verus!
