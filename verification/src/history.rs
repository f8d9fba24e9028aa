//! The record that the core makes of every session, and the journal that
//! keeps the records.  Reading and writing the journal's file is the
//! caller's part.

use vstd::prelude::*;
use vstd::string::StringExecFns;
use crate::text::joined;

verus! {

/// A moment, as seconds and nanoseconds since the start of 1970, UTC.
#[derive(Clone, Copy, Debug, PartialEq, Eq, Structural)]
pub struct Timestamp {
    pub secs: i64,
    pub nanos: u32,
}

/// What the clock can give: a moment in or after 1970 whose nanoseconds stay
/// within one second.
pub open spec fn clock_reading(stamp: Timestamp) -> bool {
    stamp.secs >= 0 && stamp.nanos < 1_000_000_000
}

/// Reads the clock with `chrono::Utc::now` and takes the reading apart with
/// `DateTime::timestamp` and `DateTime::timestamp_subsec_nanos`.  `now`
/// builds its result from the time that has passed since the start of 1970,
/// whole seconds and the nanoseconds of the second under way, which is all
/// that the contract claims.  Where the system clock stands before 1970,
/// `now` does not return.
#[verifier::external_body]
pub(crate) fn current_time() -> (stamp: Timestamp)
    ensures
        clock_reading(stamp),
{
    let now = chrono::Utc::now();
    Timestamp { secs: now.timestamp(), nanos: now.timestamp_subsec_nanos() }
}

/// The record of one session.
#[derive(Debug, PartialEq, Eq)]
pub struct TranscriptionEntry {
    pub id: String,
    pub timestamp: Timestamp,
    pub text: String,
    pub round_trip_ms: Option<u64>,
    pub hold_time_ms: Option<u64>,
    pub status: String,
    pub wav_path: Option<String>,
}

/// A record, as plain values.
pub struct EntryModel {
    pub id: Seq<char>,
    pub timestamp: Timestamp,
    pub text: Seq<char>,
    pub round_trip_ms: Option<u64>,
    pub hold_time_ms: Option<u64>,
    pub status: Seq<char>,
    pub wav_path: Option<Seq<char>>,
}

impl View for TranscriptionEntry {
    type V = EntryModel;

    open spec fn view(&self) -> EntryModel {
        EntryModel {
            id: self.id@,
            timestamp: self.timestamp,
            text: self.text@,
            round_trip_ms: self.round_trip_ms,
            hold_time_ms: self.hold_time_ms,
            status: self.status@,
            wav_path: match self.wav_path {
                Some(path) => Some(path@),
                None => None,
            },
        }
    }
}

impl DeepView for TranscriptionEntry {
    type V = EntryModel;

    open spec fn deep_view(&self) -> EntryModel {
        self@
    }
}

impl TranscriptionEntry {
    /// A copy of this record.
    pub fn duplicate(&self) -> (copy: Self)
        ensures
            copy@ == self@,
    {
        TranscriptionEntry {
            id: self.id.clone(),
            timestamp: self.timestamp,
            text: self.text.clone(),
            round_trip_ms: self.round_trip_ms,
            hold_time_ms: self.hold_time_ms,
            status: self.status.clone(),
            wav_path: match &self.wav_path {
                Some(path) => Some(path.clone()),
                None => None,
            },
        }
    }
}

/// The journal as its file holds it.
#[derive(Debug, PartialEq, Eq)]
pub struct HistoryData {
    pub entries: Vec<TranscriptionEntry>,
}

impl Default for HistoryData {
    /// A journal without records.
    fn default() -> (data: Self)
        ensures
            data.entries@.len() == 0,
    {
        HistoryData { entries: Vec::new() }
    }
}

/// The journal: the records of all sessions, oldest first.
pub struct History {
    entries: Vec<TranscriptionEntry>,
}

impl View for History {
    type V = Seq<EntryModel>;

    closed spec fn view(&self) -> Seq<EntryModel> {
        self.entries.deep_view()
    }
}

impl Default for History {
    /// A journal without records.
    fn default() -> (history: Self)
        ensures
            history@ == Seq::<EntryModel>::empty(),
    {
        History::new(None)
    }
}

impl History {
    /// The journal that goes on from `stored`, which is what the journal's
    /// file holds, or `None` where there is no file or it does not read as
    /// a journal; then the journal starts empty.
    pub fn new(stored: Option<HistoryData>) -> (history: Self)
        ensures
            history@ == match stored {
                Some(data) => data.entries.deep_view(),
                None => Seq::empty(),
            },
    {
        match stored {
            Some(data) => History { entries: data.entries },
            None => {
                let history = History { entries: Vec::new() };
                assert(history.entries.deep_view() =~= Seq::empty());
                history
            },
        }
    }

    /// Appends a record.
    pub fn add_entry(&mut self, entry: TranscriptionEntry)
        ensures
            final(self)@ == old(self)@.push(entry@),
    {
        self.entries.push(entry);
        assert(self.entries.deep_view() =~= old(self).entries.deep_view().push(entry@));
    }

    /// How many records the journal holds.
    pub fn len(&self) -> (len: usize)
        ensures
            len == self@.len(),
    {
        self.entries.len()
    }

    /// A copy of all records, oldest first.
    pub fn get_entries(&self) -> (entries: Vec<TranscriptionEntry>)
        ensures
            entries.deep_view() == self@,
    {
        let mut entries: Vec<TranscriptionEntry> = Vec::new();
        let mut i: usize = 0;
        while i < self.entries.len()
            invariant
                0 <= i <= self.entries@.len(),
                entries@.len() == i,
                forall|j: int| 0 <= j < i ==> (#[trigger] entries@[j])@ == self.entries@[j]@,
            decreases self.entries@.len() - i,
        {
            entries.push(self.entries[i].duplicate());
            i = i + 1;
        }
        assert(entries.deep_view() =~= self.entries.deep_view());
        entries
    }

    /// The journal as its file is to hold it.
    pub fn to_data(&self) -> (data: HistoryData)
        ensures
            data.entries.deep_view() == self@,
    {
        HistoryData { entries: self.get_entries() }
    }
}

/// Name of the journal's file in the application's directory.
pub fn history_file_name() -> (name: &'static str)
    ensures
        name@ == "history.json"@,
{
    "history.json"
}

/// What the standard base64 alphabet, with padding, makes of `data`.
pub uninterp spec fn base64_standard(data: Seq<u8>) -> Seq<char>;

/// The data that can be encoded: its encoding, four characters for every
/// three bytes, has a length that fits.
pub open spec fn encodable(len: nat) -> bool {
    len / 3 < usize::MAX / 4
}

/// Encodes with `base64::engine::general_purpose::STANDARD` through
/// `Engine::encode`.  The contract gives the encoding its name,
/// `base64_standard`; data too long for its encoding to be counted is left
/// out, for there `encode` does not return.
#[verifier::external_body]
fn encode_base64(data: &[u8]) -> (encoded: String)
    requires
        encodable(data@.len()),
    ensures
        encoded@ == base64_standard(data@),
{
    base64::Engine::encode(&base64::engine::general_purpose::STANDARD, data)
}

/// The `data:` URL of a recording.
pub open spec fn audio_url(data: Seq<u8>) -> Seq<char> {
    "data:audio/wav;base64,"@ + base64_standard(data)
}

/// The `data:` URL under which the user interface plays a recording; `None`
/// for a recording too long to encode.
pub fn get_audio_base64(data: &[u8]) -> (url: Option<String>)
    ensures
        encodable(data@.len()) ==> url is Some && url->0@ == audio_url(data@),
        !encodable(data@.len()) ==> url is None,
{
    if data.len() / 3 < usize::MAX / 4 {
        let encoded = encode_base64(data);
        Some(joined("data:audio/wav;base64,", encoded.as_str()))
    } else {
        None
    }
}

} // verus!
