//! Response formats of the editing API, and what is made of a response.

use crate::text::{chars_of, find, position, spells};
use vstd::prelude::*;
use vstd::string::StrSliceExecFns;

verus! {

/// A response format that the editing API can be asked for.
#[derive(Debug, Clone, Copy, PartialEq, Eq, PartialOrd, Ord, Structural)]
pub enum Format {
    Xml,
    Json,
}

impl Format {
    /// The media type that asks for this format in an `Accept` header.
    pub open spec fn mimetype_spec(self) -> Seq<char> {
        match self {
            Format::Xml => "application/xml"@,
            Format::Json => "application/json"@,
        }
    }

    /// The name under which the format is chosen on the command line.
    pub open spec fn name_spec(self) -> Seq<char> {
        match self {
            Format::Xml => "xml"@,
            Format::Json => "json"@,
        }
    }

    /// The media type that asks for this format in an `Accept` header.
    pub fn mimetype(&self) -> (r: &'static str)
        ensures
            r@ == self.mimetype_spec(),
    {
        match self {
            Format::Xml => "application/xml",
            Format::Json => "application/json",
        }
    }

    /// The name under which the format is chosen on the command line.
    pub fn name(&self) -> (r: &'static str)
        ensures
            r@ == self.name_spec(),
    {
        match self {
            Format::Xml => "xml",
            Format::Json => "json",
        }
    }
}

/// The media type in the value of a `Content-Type` header: what stands before
/// the first `;`, as it stands.
pub open spec fn media_type(value: Seq<char>) -> Seq<char> {
    value.take(position(value, ';'))
}

/// The media type of a response, where it has a `Content-Type` header;
/// `header` is the header's value.
pub fn content_type<'a>(header: Option<&'a str>) -> (r: Option<&'a str>)
    ensures
        match header {
            Some(value) => r matches Some(found) && found@ == media_type(value@),
            None => r is None,
        },
{
    match header {
        Some(value) => {
            let letters = chars_of(value);
            let end: usize = find(letters.as_slice(), ';');
            proof {
                crate::text::lemma_position_bounds(value@, ';');
            }
            Some(value.substring_char(0, end))
        },
        None => None,
    }
}

/// Whether a response of this media type is JSON, to be laid out before it is
/// printed.
pub fn is_json(media_type: Option<&str>) -> (r: bool)
    ensures
        r == (media_type matches Some(found) && found@ == "application/json"@),
{
    match media_type {
        Some(found) => {
            let letters = chars_of(found);
            spells(letters.as_slice(), "application/json")
        },
        None => false,
    }
}

/// What jsonxf's `pretty_print` makes of `text`: the text laid out with one
/// member to a line, or the message of an error.
pub uninterp spec fn jsonxf_pretty(text: Seq<char>) -> Result<Seq<char>, Seq<char>>;

/// Whether an outcome of laying out JSON is the view of the other.
pub open spec fn layout_agrees(
    got: Result<String, String>,
    wanted: Result<Seq<char>, Seq<char>>,
) -> bool {
    match got {
        Ok(text) => wanted == Ok::<Seq<char>, Seq<char>>(text@),
        Err(message) => wanted == Err::<Seq<char>, Seq<char>>(message@),
    }
}

/// Calls jsonxf's `pretty_print` on `text`. The contract only gives the outcome
/// its name: a text is laid out in one way, whenever it is done.
#[verifier::external_body]
fn lay_out(text: &str) -> (r: Result<String, String>)
    ensures
        layout_agrees(r, jsonxf_pretty(text@)),
{
    jsonxf::pretty_print(text)
}

/// A laid-out document as it is printed: with a line feed at its end. An error
/// stays what it is.
pub open spec fn closed_with_line_feed(laid_out: Result<Seq<char>, Seq<char>>) -> Result<
    Seq<char>,
    Seq<char>,
> {
    match laid_out {
        Ok(text) => Ok(text.push('\n')),
        Err(message) => Err(message),
    }
}

/// Ends a laid-out document with a line feed. An error stays what it is.
pub fn close_with_line_feed(laid_out: Result<String, String>) -> (r: Result<String, String>)
    ensures
        match laid_out {
            Ok(text) => layout_agrees(r, Ok(text@.push('\n'))),
            Err(message) => layout_agrees(r, Err(message@)),
        },
{
    match laid_out {
        Ok(text) => {
            let mut text = text;
            text.push('\n');
            Ok(text)
        },
        Err(message) => Err(message),
    }
}

/// A JSON body as it is printed: laid out, with a line feed at its end.
pub fn pretty_json(body: &str) -> (r: Result<String, String>)
    ensures
        layout_agrees(r, closed_with_line_feed(jsonxf_pretty(body@))),
{
    close_with_line_feed(lay_out(body))
}

} // verus!
