//! State records: what a feed says of one sequence number, and the text form
//! in which it says it.

use crate::text::{
    chars_of, find, lemma_position_bounds, parse_u64, position, remove_all, spells, string_of,
    trim, trimmed, unsigned_decimal, without,
};
use crate::timestamp::Timestamp;
use vstd::prelude::*;
use vstd::slice::slice_subrange;

verus! {

/// One record of a feed: a sequence number and the instant up to which the feed
/// was current when it reached that number.
#[derive(Debug, Clone, Copy, PartialEq, Eq, Structural)]
pub struct StateInfo {
    pub seqno: u64,
    pub timestamp: Timestamp,
}

/// Why the text of a state record could not be decoded.
#[derive(Debug, Clone, Copy, PartialEq, Eq, Structural)]
pub enum DecodeError {
    /// A line that is neither blank nor a comment holds no `=`.
    MalformedLine,
    /// The value of `sequenceNumber` is no unsigned number of 64 bits.
    BadSequenceNumber,
    /// No line gives `sequenceNumber`.
    MissingSequenceNumber,
    /// No line gives `timestamp`, or the last that does gives no date and time.
    MissingTimestamp,
}

/// Why a state record could not be had from a feed.
#[derive(Debug, Clone, Copy, PartialEq, Eq, Structural)]
pub enum FetchFailure {
    /// The feed holds no record under the sequence number asked for.
    NotFound,
    /// The request failed in some other way before a record arrived.
    Transport,
    /// A document arrived that holds no state record.
    Decode,
}

impl FetchFailure {
    /// The failure that a response with this HTTP status is; `None` stands for a
    /// request that brought no response. Only the status 404 says that the
    /// record is not there.
    pub open spec fn of_status(status: Option<u16>) -> FetchFailure {
        if status == Some(404u16) {
            FetchFailure::NotFound
        } else {
            FetchFailure::Transport
        }
    }

    /// The failure that a response with this HTTP status is; `None` stands for a
    /// request that brought no response.
    pub fn from_status(status: Option<u16>) -> (r: FetchFailure)
        ensures
            r == Self::of_status(status),
    {
        match status {
            Some(404) => FetchFailure::NotFound,
            _ => FetchFailure::Transport,
        }
    }
}

/// The two values that the text form of a state record is read for, as far as
/// the lines read so far gave them.
pub struct Fields {
    pub seqno: Option<u64>,
    /// The text of the last `timestamp` value, its backslashes removed.
    pub timestamp: Option<Seq<char>>,
}

/// The two raw values found in the text form of a state record.
#[derive(Debug)]
pub struct StateFields {
    pub seqno: Option<u64>,
    /// The text of the last `timestamp` value, its backslashes removed.
    pub timestamp: Option<String>,
}

impl View for StateFields {
    type V = Fields;

    open spec fn view(&self) -> Fields {
        Fields {
            seqno: self.seqno,
            timestamp: match self.timestamp {
                Some(text) => Some(text@),
                None => None,
            },
        }
    }
}

impl Fields {
    /// Nothing found yet.
    pub open spec fn none() -> Fields {
        Fields { seqno: None, timestamp: None }
    }

    /// The key and the value of a line: what stands before its first `=`, and what
    /// stands between that and the next `=` or the line's end, both trimmed. A line
    /// without `=` has neither.
    pub open spec fn pair(line: Seq<char>) -> Option<(Seq<char>, Seq<char>)> {
        let at = position(line, '=');
        if at < line.len() {
            let rest = line.skip(at + 1);
            Some((trimmed(line.take(at)), trimmed(rest.take(position(rest, '=')))))
        } else {
            None
        }
    }

    /// The fields after one more line. A line that starts with `#` and a line of
    /// white space change nothing, nor does a key other than `sequenceNumber` and
    /// `timestamp`.
    pub open spec fn after_line(self, line: Seq<char>) -> Result<Fields, DecodeError> {
        if line.len() > 0 && line[0] == '#' {
            Ok(self)
        } else if trimmed(line).len() == 0 {
            Ok(self)
        } else {
            match Self::pair(trimmed(line)) {
                None => Err(DecodeError::MalformedLine),
                Some((key, value)) => {
                    if key == "sequenceNumber"@ {
                        match unsigned_decimal(value) {
                            Some(seqno) => Ok(Fields { seqno: Some(seqno), ..self }),
                            None => Err(DecodeError::BadSequenceNumber),
                        }
                    } else if key == "timestamp"@ {
                        Ok(Fields { timestamp: Some(without(value, '\\')), ..self })
                    } else {
                        Ok(self)
                    }
                },
            }
        }
    }

    /// The fields after the lines of `text`, which line feeds separate, read in
    /// order; the error of the first line that has one.
    pub open spec fn after_text(self, text: Seq<char>) -> Result<Fields, DecodeError>
        decreases text.len(),
    {
        if text.len() == 0 {
            Ok(self)
        } else {
            let end = position(text, '\n');
            match self.after_line(text.take(end)) {
                Err(error) => Err(error),
                Ok(next) => {
                    if 0 <= end < text.len() {
                        next.after_text(text.skip(end + 1))
                    } else {
                        Ok(next)
                    }
                },
            }
        }
    }
}

/// Whether an outcome of reading fields is the view of the other.
pub open spec fn fields_agree(
    got: Result<StateFields, DecodeError>,
    wanted: Result<Fields, DecodeError>,
) -> bool {
    match got {
        Ok(fields) => wanted == Ok::<Fields, DecodeError>(fields@),
        Err(error) => wanted == Err::<Fields, DecodeError>(error),
    }
}

impl StateFields {
    /// The key and the value of a line, where it holds a `=`.
    pub fn pair(line: &[char]) -> (r: Option<(&[char], &[char])>)
        ensures
            match r {
                Some((key, value)) => Fields::pair(line@) == Some((key@, value@)),
                None => Fields::pair(line@) is None,
            },
    {
        let at: usize = find(line, '=');
        if at < line.len() {
            let rest = slice_subrange(line, at + 1, line.len());
            let next: usize = find(rest, '=');
            proof {
                lemma_position_bounds(rest@, '=');
            }
            let key = trim(slice_subrange(line, 0, at));
            let value = trim(slice_subrange(rest, 0, next));
            Some((key, value))
        } else {
            None
        }
    }

    /// Reads one more line into the fields.
    pub fn read_line(self, line: &[char]) -> (r: Result<StateFields, DecodeError>)
        ensures
            fields_agree(r, self@.after_line(line@)),
    {
        if line.len() > 0 && line[0] == '#' {
            return Ok(self);
        }
        let content = trim(line);
        if content.len() == 0 {
            return Ok(self);
        }
        match Self::pair(content) {
            None => Err(DecodeError::MalformedLine),
            Some((key, value)) => {
                if spells(key, "sequenceNumber") {
                    match parse_u64(value) {
                        Some(seqno) => Ok(
                            StateFields { seqno: Some(seqno), timestamp: self.timestamp },
                        ),
                        None => Err(DecodeError::BadSequenceNumber),
                    }
                } else if spells(key, "timestamp") {
                    let bare = remove_all(value, '\\');
                    let text = string_of(bare.as_slice());
                    Ok(StateFields { seqno: self.seqno, timestamp: Some(text) })
                } else {
                    Ok(self)
                }
            },
        }
    }

    /// Reads the text form of a state record: lines of `key=value`, of which
    /// `sequenceNumber` and `timestamp` count, the last of each.
    pub fn scan(body: &str) -> (r: Result<StateFields, DecodeError>)
        ensures
            fields_agree(r, Fields::none().after_text(body@)),
    {
        let chars = chars_of(body);
        let all = chars.as_slice();
        let mut fields = StateFields { seqno: None, timestamp: None };
        let mut at: usize = 0;
        assert(all@.skip(0) == all@);
        while at < all.len()
            invariant
                at <= all.len(),
                all@ == body@,
                Fields::none().after_text(body@) == fields@.after_text(all@.skip(at as int)),
            decreases all.len() - at,
        {
            let rest = slice_subrange(all, at, all.len());
            let end: usize = find(rest, '\n');
            proof {
                lemma_position_bounds(rest@, '\n');
                assert(rest@ == all@.skip(at as int));
                if end < rest.len() {
                    assert(rest@.skip(end + 1) == all@.skip(at + end + 1));
                }
            }
            let line = slice_subrange(rest, 0, end);
            match fields.read_line(line) {
                Err(error) => {
                    return Err(error);
                },
                Ok(next) => {
                    fields = next;
                },
            }
            if end < rest.len() {
                at = at + end + 1;
            } else {
                at = all.len();
                assert(all@.skip(at as int).len() == 0);
            }
        }
        Ok(fields)
    }
}

impl StateInfo {
    /// The record made of the two values, which both have to be there; which of
    /// them is missing, the sequence number first.
    pub open spec fn assembled(seqno: Option<u64>, timestamp: Option<Timestamp>) -> Result<
        StateInfo,
        DecodeError,
    > {
        match seqno {
            None => Err(DecodeError::MissingSequenceNumber),
            Some(seqno) => match timestamp {
                None => Err(DecodeError::MissingTimestamp),
                Some(timestamp) => Ok(StateInfo { seqno, timestamp }),
            },
        }
    }

    /// The record that the text form `text` holds: its fields, the timestamp read
    /// as a date and time.
    pub open spec fn decoded(text: Seq<char>) -> Result<StateInfo, DecodeError> {
        match Fields::none().after_text(text) {
            Err(error) => Err(error),
            Ok(fields) => Self::assembled(
                fields.seqno,
                match fields.timestamp {
                    Some(written) => Timestamp::parse_spec(written),
                    None => None,
                },
            ),
        }
    }

    /// Makes a record of the two values, which both have to be there.
    pub fn assemble(seqno: Option<u64>, timestamp: Option<Timestamp>) -> (r: Result<
        StateInfo,
        DecodeError,
    >)
        ensures
            r == Self::assembled(seqno, timestamp),
    {
        match seqno {
            None => Err(DecodeError::MissingSequenceNumber),
            Some(seqno) => match timestamp {
                None => Err(DecodeError::MissingTimestamp),
                Some(timestamp) => Ok(StateInfo { seqno, timestamp }),
            },
        }
    }

    /// Decodes the text form of a state record.
    pub fn try_from_text(body: &str) -> (r: Result<StateInfo, DecodeError>)
        ensures
            r == Self::decoded(body@),
    {
        match StateFields::scan(body) {
            Err(error) => Err(error),
            Ok(fields) => {
                let timestamp = match &fields.timestamp {
                    Some(written) => Timestamp::parse(written.as_str()),
                    None => None,
                };
                Self::assemble(fields.seqno, timestamp)
            },
        }
    }
}

} // verus!
