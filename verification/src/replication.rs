//! Replication feeds: how one is chosen and addressed, and what a watch of one
//! prints.

use crate::text::{
    all_digits, chars_of, decimal, digits_value, lemma_padded3_value, padded3, push_decimal,
    push_padded3, spells,
};
use crate::timestamp::{rfc3339_seconds_text, Timestamp};
use crate::watch::{WatchEntry, WatchStream};
use vstd::prelude::*;
use vstd::string::StringExecFns;

verus! {

/// What the command line says of a replication run.
#[derive(Debug, Clone)]
pub struct CliArgs {
    /// A date and time of RFC 2822 or RFC 3339 from which to start.
    pub since: Option<String>,
    /// A sequence number after which to start.
    pub seqno: Option<u64>,
    /// Whether to go on for ever, waiting for what the feed publishes.
    pub watch: bool,
    /// Whether to print the addresses of the data files only.
    pub urls_only: bool,
    /// The short name of a feed, `minute` or `changesets`, or the address of one.
    pub server: String,
}

/// Where a run starts.
#[derive(Debug, Clone, Copy, PartialEq, Eq, Structural)]
pub enum StartPoint {
    /// At the sequence number that the feed had reached at this instant.
    Since(Timestamp),
    /// At this sequence number.
    Seqno(u64),
}

/// What is wrong with the command line.
#[derive(Debug, Clone, Copy, PartialEq, Eq, Structural)]
pub enum UsageError {
    /// The starting time is no date and time of RFC 2822 or RFC 3339.
    BadTimestamp,
    /// Neither a starting time nor a starting sequence number is given.
    MissingStart,
}

impl StartPoint {
    /// The starting point that a command line gives. `since` is `None` where no
    /// time is given, and else holds what the time given was read as. A time
    /// counts before a sequence number.
    pub open spec fn chosen(since: Option<Option<Timestamp>>, seqno: Option<u64>) -> Result<
        StartPoint,
        UsageError,
    > {
        match since {
            Some(Some(at)) => Ok(StartPoint::Since(at)),
            Some(None) => Err(UsageError::BadTimestamp),
            None => match seqno {
                Some(seqno) => Ok(StartPoint::Seqno(seqno)),
                None => Err(UsageError::MissingStart),
            },
        }
    }

    /// The starting point that a command line gives. `since` is `None` where no
    /// time is given, and else holds what the time given was read as.
    pub fn pick(since: Option<Option<Timestamp>>, seqno: Option<u64>) -> (r: Result<
        StartPoint,
        UsageError,
    >)
        ensures
            r == Self::chosen(since, seqno),
    {
        match since {
            Some(Some(at)) => Ok(StartPoint::Since(at)),
            Some(None) => Err(UsageError::BadTimestamp),
            None => match seqno {
                Some(seqno) => Ok(StartPoint::Seqno(seqno)),
                None => Err(UsageError::MissingStart),
            },
        }
    }
}

impl CliArgs {
    /// Where the run starts: at the time given, read as a date and time, or else
    /// at the sequence number given.
    pub open spec fn start_spec(self) -> Result<StartPoint, UsageError> {
        StartPoint::chosen(
            match self.since {
                Some(text) => Some(Timestamp::parse_spec(text@)),
                None => None,
            },
            self.seqno,
        )
    }

    /// Where the run starts, or what is wrong with the command line.
    pub fn start(&self) -> (r: Result<StartPoint, UsageError>)
        ensures
            r == self.start_spec(),
    {
        let since = match &self.since {
            Some(text) => Some(Timestamp::parse(text.as_str())),
            None => None,
        };
        StartPoint::pick(since, self.seqno)
    }

    /// The feed that the run is about.
    pub fn server(&self) -> (r: ReplicationServer)
        ensures
            r@ == ServerView::named(self.server@),
    {
        ReplicationServer::from_name(self.server.as_str())
    }

    /// The watch that the run makes of the feed after `start`.
    pub fn stream(&self, start: u64) -> (w: WatchStream)
        ensures
            w@ == crate::watch::Watch::start(start, self.watch, self.urls_only),
    {
        WatchStream::new(start, self.watch, self.urls_only)
    }
}

/// The form in which a feed writes its state records.
#[derive(Debug, Clone, Copy, PartialEq, Eq, Structural)]
pub enum StateFileFormat {
    /// A document of named fields.
    Yaml,
    /// Lines of `key=value`.
    Text,
}

/// How the sequence numbers in a feed's addresses relate to those in its state
/// records.
#[derive(Debug, Clone, Copy, PartialEq, Eq, Structural)]
pub enum SeqnoOffset {
    /// They are the same.
    Unchanged,
    /// A file's address bears the number after the one that its record reports.
    ByOne,
}

/// A replication feed: where it lies and how it is read.
#[derive(Debug, Clone)]
pub struct ReplicationServer {
    /// The address under which the feed lies, without a slash at its end.
    pub base_url: String,
    /// The path, below the base, of the feed's current state record.
    pub current_state_path: String,
    pub state_file_format: StateFileFormat,
    /// What follows the sequence number in the address of a state record.
    pub state_file_extension: String,
    /// What follows the sequence number in the address of a data file.
    pub data_file_extension: String,
    pub seqno_offset: SeqnoOffset,
}

/// A replication feed, its texts as sequences of characters.
pub struct ServerView {
    pub base_url: Seq<char>,
    pub current_state_path: Seq<char>,
    pub state_file_format: StateFileFormat,
    pub state_file_extension: Seq<char>,
    pub data_file_extension: Seq<char>,
    pub seqno_offset: SeqnoOffset,
}

impl View for ReplicationServer {
    type V = ServerView;

    open spec fn view(&self) -> ServerView {
        ServerView {
            base_url: self.base_url@,
            current_state_path: self.current_state_path@,
            state_file_format: self.state_file_format,
            state_file_extension: self.state_file_extension@,
            data_file_extension: self.data_file_extension@,
            seqno_offset: self.seqno_offset,
        }
    }
}

/// The three groups in which a sequence number appears in an address: the
/// millions, the thousands within a million, and the units within a thousand.
/// The millions are kept to 16 bits.
pub open spec fn triplet(seqno: u64) -> (u16, u16, u16) {
    (
        ((seqno / 1_000_000) % 0x1_0000) as u16,
        ((seqno % 1_000_000) / 1000) as u16,
        (seqno % 1000) as u16,
    )
}

/// The path of a sequence number in an address: its three groups, each written
/// with three digits at least, with slashes between them.
pub open spec fn triplet_path(seqno: u64) -> Seq<char> {
    let (hi, mid, lo) = triplet(seqno);
    padded3(hi as nat) + seq!['/'] + padded3(mid as nat) + seq!['/'] + padded3(lo as nat)
}

/// Splits a sequence number into the three groups of its address.
pub fn seqno_to_triplet(seqno: u64) -> (t: (u16, u16, u16))
    ensures
        t == triplet(seqno),
{
    let hi: u16 = ((seqno / 1_000_000) % 0x1_0000) as u16;
    let md: u16 = ((seqno % 1_000_000) / 1000) as u16;
    let lo: u16 = (seqno % 1000) as u16;
    (hi, md, lo)
}

/// Up to 999,999,999 the three groups are a sequence number written in another
/// way: each is below 1000, and together they give the number back.
pub proof fn lemma_triplet_rebuilds(seqno: u64)
    requires
        seqno <= 999_999_999,
    ensures
        triplet(seqno).0 < 1000,
        triplet(seqno).1 < 1000,
        triplet(seqno).2 < 1000,
        triplet(seqno).0 * 1_000_000 + triplet(seqno).1 * 1000 + triplet(seqno).2 == seqno,
{
}

/// Every three groups below 1000 are the groups of one sequence number up to
/// 999,999,999: the one they add up to.
pub proof fn lemma_triplet_reaches(hi: u16, mid: u16, lo: u16)
    requires
        hi < 1000,
        mid < 1000,
        lo < 1000,
    ensures
        hi * 1_000_000 + mid * 1000 + lo <= 999_999_999,
        triplet((hi * 1_000_000 + mid * 1000 + lo) as u64) == (hi, mid, lo),
{
}

/// Up to 999,999,999 a sequence number can be read back from its path: the path
/// is three groups of three digits with a slash after the first and the second,
/// and the groups, read as numbers, are its millions, thousands and units.
pub proof fn lemma_triplet_path_decodes(seqno: u64)
    requires
        seqno <= 999_999_999,
    ensures
        triplet_path(seqno).len() == 11,
        triplet_path(seqno)[3] == '/',
        triplet_path(seqno)[7] == '/',
        all_digits(triplet_path(seqno).subrange(0, 3)),
        all_digits(triplet_path(seqno).subrange(4, 7)),
        all_digits(triplet_path(seqno).subrange(8, 11)),
        digits_value(triplet_path(seqno).subrange(0, 3)) * 1_000_000 + digits_value(
            triplet_path(seqno).subrange(4, 7),
        ) * 1000 + digits_value(triplet_path(seqno).subrange(8, 11)) == seqno,
{
    let (hi, mid, lo) = triplet(seqno);
    lemma_triplet_rebuilds(seqno);
    lemma_padded3_value(hi as nat);
    lemma_padded3_value(mid as nat);
    lemma_padded3_value(lo as nat);
    let path = triplet_path(seqno);
    assert(path.subrange(0, 3) == padded3(hi as nat));
    assert(path.subrange(4, 7) == padded3(mid as nat));
    assert(path.subrange(8, 11) == padded3(lo as nat));
}

/// Appends the path of a sequence number to `out`.
pub fn push_triplet_path(out: &mut String, seqno: u64)
    ensures
        final(out)@ == old(out)@ + triplet_path(seqno),
{
    let (hi, md, lo) = seqno_to_triplet(seqno);
    push_padded3(out, hi);
    out.push('/');
    push_padded3(out, md);
    out.push('/');
    push_padded3(out, lo);
    assert(out@ == old(out)@ + triplet_path(seqno));
}

impl ServerView {
    /// The feed of minutely changes.
    pub open spec fn minute() -> ServerView {
        ServerView {
            base_url: "https://planet.openstreetmap.org/replication/minute"@,
            current_state_path: "state.txt"@,
            state_file_format: StateFileFormat::Text,
            state_file_extension: ".state.txt"@,
            data_file_extension: ".osc.gz"@,
            seqno_offset: SeqnoOffset::Unchanged,
        }
    }

    /// The feed of changesets.
    pub open spec fn changesets() -> ServerView {
        ServerView {
            base_url: "https://planet.openstreetmap.org/replication/changesets"@,
            current_state_path: "state.yaml"@,
            state_file_format: StateFileFormat::Yaml,
            state_file_extension: ".state.txt"@,
            data_file_extension: ".osm.gz"@,
            seqno_offset: SeqnoOffset::ByOne,
        }
    }

    /// The feed under the address `url`, read as the feed of minutely changes is.
    /// Its addresses bear the numbers of its records, unless it is the feed of
    /// changesets under its own address.
    pub open spec fn custom(url: Seq<char>) -> ServerView {
        ServerView {
            base_url: url,
            current_state_path: "state.txt"@,
            state_file_format: StateFileFormat::Text,
            state_file_extension: ".state.txt"@,
            data_file_extension: ".osc.gz"@,
            seqno_offset: if url == "https://planet.openstreetmap.org/replication/changesets"@ {
                SeqnoOffset::ByOne
            } else {
                SeqnoOffset::Unchanged
            },
        }
    }

    /// The feed that `name` stands for: one of the two known by a short name, or
    /// the one under the address that `name` is.
    pub open spec fn named(name: Seq<char>) -> ServerView {
        if name == "minute"@ {
            Self::minute()
        } else if name == "changesets"@ {
            Self::changesets()
        } else {
            Self::custom(name)
        }
    }

    /// The sequence number that the address of a file bears whose record reports
    /// `seqno`: the next one on a feed that is off by one (the largest number has
    /// no next one and stays), and `seqno` itself on every other feed.
    pub open spec fn url_seqno(self, seqno: u64) -> u64 {
        match self.seqno_offset {
            SeqnoOffset::Unchanged => seqno,
            SeqnoOffset::ByOne => if seqno < u64::MAX {
                (seqno + 1) as u64
            } else {
                seqno
            },
        }
    }

    /// The address of the feed's current state record.
    pub open spec fn latest_state_url(self) -> Seq<char> {
        self.base_url + seq!['/'] + self.current_state_path
    }

    /// The address of the state record of `seqno`.
    pub open spec fn state_url(self, seqno: u64) -> Seq<char> {
        self.base_url + seq!['/'] + triplet_path(self.url_seqno(seqno)) + self.state_file_extension
    }

    /// The address of the data file of `seqno`.
    pub open spec fn data_url(self, seqno: u64) -> Seq<char> {
        self.base_url + seq!['/'] + triplet_path(self.url_seqno(seqno)) + self.data_file_extension
    }

    /// What a line says of an entry before the address: the sequence number that
    /// the entry's record reports and `date`, each followed by a space; nothing
    /// for an entry without a record, and `None` where the record is there and the
    /// date is not.
    pub open spec fn columns(entry: WatchEntry, date: Option<Seq<char>>) -> Option<Seq<char>> {
        match entry.state {
            None => Some(Seq::empty()),
            Some(state) => match date {
                Some(date) => Some(decimal(state.seqno as nat) + seq![' '] + date + seq![' ']),
                None => None,
            },
        }
    }

    /// The line of an entry whose record's date is written `date`: the columns,
    /// then the address of the data file of the entry's sequence number.
    pub open spec fn line_dated(self, entry: WatchEntry, date: Option<Seq<char>>) -> Option<
        Seq<char>,
    > {
        match Self::columns(entry, date) {
            Some(columns) => Some(columns + self.data_url(entry.seqno)),
            None => None,
        }
    }

    /// The date of an entry's record, written with whole seconds; `None` for an
    /// entry without a record and for a date outside the calendar.
    pub open spec fn date(entry: WatchEntry) -> Option<Seq<char>> {
        match entry.state {
            Some(state) => rfc3339_seconds_text(state.timestamp.secs, state.timestamp.nanos),
            None => None,
        }
    }

    /// The line that a watch of this feed prints for an entry.
    pub open spec fn line(self, entry: WatchEntry) -> Option<Seq<char>> {
        self.line_dated(entry, Self::date(entry))
    }
}

/// Only the feed of changesets, under its short name or its own address, bears
/// in its addresses the number after the one its records report, as far as there
/// is one; on every other feed the two are the same.
pub proof fn lemma_only_changesets_is_off_by_one(name: Seq<char>, seqno: u64)
    ensures
        ServerView::named(name).url_seqno(seqno) == if name == "changesets"@ || name
            == "https://planet.openstreetmap.org/replication/changesets"@ {
            if seqno < u64::MAX {
                (seqno + 1) as u64
            } else {
                seqno
            }
        } else {
            seqno
        },
{
    reveal_strlit("minute");
    reveal_strlit("changesets");
    reveal_strlit("https://planet.openstreetmap.org/replication/changesets");
    assert("minute"@.len() == 6);
    assert("changesets"@.len() == 10);
    assert("https://planet.openstreetmap.org/replication/changesets"@.len() == 55);
}

/// The sequence numbers that a line shows are those of the records: two feeds
/// that differ in nothing but how their addresses are numbered print the same
/// columns before the address, of any entry.
pub proof fn lemma_offset_shows_in_addresses_only(
    server: ServerView,
    other: ServerView,
    entry: WatchEntry,
)
    requires
        other == (ServerView { seqno_offset: other.seqno_offset, ..server }),
    ensures
        server.line(entry) is Some <==> other.line(entry) is Some,
        server.line(entry) is Some ==> {
            &&& ServerView::columns(entry, ServerView::date(entry)) matches Some(columns)
            &&& server.line(entry) == Some(columns + server.data_url(entry.seqno))
            &&& other.line(entry) == Some(columns + other.data_url(entry.seqno))
        },
{
}

impl ReplicationServer {
    /// The feed of minutely changes.
    pub fn minute() -> (r: ReplicationServer)
        ensures
            r@ == ServerView::minute(),
    {
        ReplicationServer {
            base_url: String::from_str("https://planet.openstreetmap.org/replication/minute"),
            current_state_path: String::from_str("state.txt"),
            state_file_format: StateFileFormat::Text,
            state_file_extension: String::from_str(".state.txt"),
            data_file_extension: String::from_str(".osc.gz"),
            seqno_offset: SeqnoOffset::Unchanged,
        }
    }

    /// The feed of changesets.
    pub fn changesets() -> (r: ReplicationServer)
        ensures
            r@ == ServerView::changesets(),
    {
        ReplicationServer {
            base_url: String::from_str("https://planet.openstreetmap.org/replication/changesets"),
            current_state_path: String::from_str("state.yaml"),
            state_file_format: StateFileFormat::Yaml,
            state_file_extension: String::from_str(".state.txt"),
            data_file_extension: String::from_str(".osm.gz"),
            seqno_offset: SeqnoOffset::ByOne,
        }
    }

    /// The feed under the address `url`, read as the feed of minutely changes is.
    pub fn custom(url: &str) -> (r: ReplicationServer)
        ensures
            r@ == ServerView::custom(url@),
    {
        let letters = chars_of(url);
        let seqno_offset = if spells(
            letters.as_slice(),
            "https://planet.openstreetmap.org/replication/changesets",
        ) {
            SeqnoOffset::ByOne
        } else {
            SeqnoOffset::Unchanged
        };
        ReplicationServer {
            base_url: String::from_str(url),
            current_state_path: String::from_str("state.txt"),
            state_file_format: StateFileFormat::Text,
            state_file_extension: String::from_str(".state.txt"),
            data_file_extension: String::from_str(".osc.gz"),
            seqno_offset,
        }
    }

    /// The feed that `name` stands for: `minute`, `changesets`, or an address.
    pub fn from_name(name: &str) -> (r: ReplicationServer)
        ensures
            r@ == ServerView::named(name@),
    {
        let letters = chars_of(name);
        if spells(letters.as_slice(), "minute") {
            Self::minute()
        } else if spells(letters.as_slice(), "changesets") {
            Self::changesets()
        } else {
            Self::custom(name)
        }
    }

    /// The sequence number that the address of a file bears whose record reports
    /// `seqno`.
    pub fn seqno_for_url(&self, seqno: u64) -> (r: u64)
        ensures
            r == self@.url_seqno(seqno),
    {
        match self.seqno_offset {
            SeqnoOffset::Unchanged => seqno,
            SeqnoOffset::ByOne => if seqno < u64::MAX {
                seqno + 1
            } else {
                seqno
            },
        }
    }

    /// The address of the feed's current state record.
    pub fn latest_state_url(&self) -> (url: String)
        ensures
            url@ == self@.latest_state_url(),
    {
        let mut url = self.base_url.clone();
        url.push('/');
        url.append(self.current_state_path.as_str());
        url
    }

    /// The address of the state record of `seqno`.
    pub fn state_url(&self, seqno: u64) -> (url: String)
        ensures
            url@ == self@.state_url(seqno),
    {
        let mut url = self.base_url.clone();
        url.push('/');
        push_triplet_path(&mut url, self.seqno_for_url(seqno));
        url.append(self.state_file_extension.as_str());
        url
    }

    /// The address of the data file of `seqno`.
    pub fn data_url(&self, seqno: u64) -> (url: String)
        ensures
            url@ == self@.data_url(seqno),
    {
        let mut url = self.base_url.clone();
        url.push('/');
        push_triplet_path(&mut url, self.seqno_for_url(seqno));
        url.append(self.data_file_extension.as_str());
        url
    }

    /// The line of an entry whose record's date is written `date`, without the
    /// line feed at its end: the address of the data file and, before it, where the
    /// entry brings its record, the record's sequence number and the date. `None`
    /// where the entry brings a record and no date is given.
    pub fn line_dated(&self, entry: &WatchEntry, date: Option<&str>) -> (r: Option<String>)
        ensures
            match r {
                Some(text) => self@.line_dated(*entry, dated(date)) == Some(text@),
                None => self@.line_dated(*entry, dated(date)) is None,
            },
    {
        let mut text = String::new();
        match entry.state {
            None => {},
            Some(state) => {
                match date {
                    None => {
                        return None;
                    },
                    Some(date) => {
                        push_decimal(&mut text, state.seqno);
                        text.push(' ');
                        text.append(date);
                        text.push(' ');
                    },
                }
            },
        }
        let url = self.data_url(entry.seqno);
        text.append(url.as_str());
        Some(text)
    }

    /// The line that a watch of this feed prints for an entry, without the line
    /// feed at its end. `None` where the date of the entry's record lies outside
    /// the calendar.
    pub fn line(&self, entry: &WatchEntry) -> (r: Option<String>)
        ensures
            match r {
                Some(text) => self@.line(*entry) == Some(text@),
                None => self@.line(*entry) is None,
            },
    {
        let written = match entry.state {
            Some(state) => state.timestamp.to_rfc3339_seconds(),
            None => None,
        };
        let date = match &written {
            Some(text) => Some(text.as_str()),
            None => None,
        };
        self.line_dated(entry, date)
    }
}

/// The characters of a date that may be missing.
pub open spec fn dated(date: Option<&str>) -> Option<Seq<char>> {
    match date {
        Some(text) => Some(text@),
        None => None,
    }
}

} // verus!
