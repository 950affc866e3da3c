use vstd::prelude::*;
use crate::date_format::{
    DateTimeFields, compact_parse, compact_text, deserialize, lemma_timestamp_round_trip,
};

verus! {

/// One entry of the export as its JSON text gives it: the timestamps still in their
/// compact text form.
#[derive(Debug)]
pub struct RawEntry {
    pub id: i64,
    pub start: String,
    pub end: String,
    pub tags: Vec<String>,
}

/// One tracked interval: its identifier, its UTC start and end, and its tags in order.
/// The first tag is the interval's title.
#[derive(Debug)]
pub struct TimeTrackingEntry {
    pub id: i64,
    pub start: DateTimeFields,
    pub end: DateTimeFields,
    pub tags: Vec<String>,
}

/// The decoded export: the entries in the order of the export.
#[derive(Debug)]
pub struct TimeData {
    pub entries: Vec<TimeTrackingEntry>,
}

/// What is wrong with an entry of the export.
#[derive(Clone, Copy, Debug, PartialEq, Eq, Structural)]
pub enum EntryFault {
    /// The start is not a compact UTC timestamp.
    Start,
    /// The end is not a compact UTC timestamp.
    End,
    /// The entry has no tag, so no title.
    NoTags,
}

/// The first entry of the export that cannot be decoded, by position, and what is
/// wrong with it.
#[derive(Clone, Copy, Debug, PartialEq, Eq, Structural)]
pub struct DecodeError {
    pub index: usize,
    pub fault: EntryFault,
}

/// What is wrong with `raw`, if anything; the start is looked at first, then the end,
/// then the tags.
pub open spec fn entry_fault(raw: RawEntry) -> Option<EntryFault> {
    if compact_parse(raw.start@) is None {
        Some(EntryFault::Start)
    } else if compact_parse(raw.end@) is None {
        Some(EntryFault::End)
    } else if raw.tags@.len() == 0 {
        Some(EntryFault::NoTags)
    } else {
        None
    }
}

/// `e` holds field for field what `raw` says.
pub open spec fn decoded_from(e: TimeTrackingEntry, raw: RawEntry) -> bool {
    &&& e.id == raw.id
    &&& compact_parse(raw.start@) == Some(e.start)
    &&& compact_parse(raw.end@) == Some(e.end)
    &&& e.tags@ == raw.tags@
}

/// Whether every entry of `raw` can be decoded.
pub open spec fn all_decodable(raw: Seq<RawEntry>) -> bool {
    forall|i: int| 0 <= i < raw.len() ==> #[trigger] entry_fault(raw[i]) is None
}

impl TimeTrackingEntry {
    /// Valid timestamps and at least one tag.
    pub open spec fn wf(&self) -> bool {
        &&& self.start.wf()
        &&& self.end.wf()
        &&& self.tags@.len() > 0
    }

    /// Decodes one entry: both timestamps must be compact UTC timestamps, and the
    /// entry must carry a tag.
    pub fn decode(raw: RawEntry) -> (r: Result<TimeTrackingEntry, EntryFault>)
        ensures
            match entry_fault(raw) {
                Some(f) => r == Err::<TimeTrackingEntry, EntryFault>(f),
                None => r matches Ok(e) && decoded_from(e, raw) && e.wf(),
            },
    {
        let start = match deserialize(raw.start.as_str()) {
            Some(t) => t,
            None => return Err(EntryFault::Start),
        };
        let end = match deserialize(raw.end.as_str()) {
            Some(t) => t,
            None => return Err(EntryFault::End),
        };
        if raw.tags.len() == 0 {
            return Err(EntryFault::NoTags);
        }
        Ok(TimeTrackingEntry { id: raw.id, start, end, tags: raw.tags })
    }
}

impl TimeData {
    /// Every entry is valid: this is what the calendar builder relies on.
    pub open spec fn wf(&self) -> bool {
        forall|i: int| 0 <= i < self.entries@.len() ==> (#[trigger] self.entries@[i]).wf()
    }

    /// Decodes the entries of an export, all or nothing: where every entry decodes, the
    /// result holds them in the same order, field for field; otherwise the first entry
    /// that does not is named, and nothing else is returned.
    pub fn decode(raw: Vec<RawEntry>) -> (r: Result<TimeData, DecodeError>)
        ensures
            r is Ok <==> all_decodable(raw@),
            r matches Ok(d) ==> {
                &&& d.wf()
                &&& d.entries@.len() == raw@.len()
                &&& forall|i: int|
                    0 <= i < raw@.len() ==> decoded_from(#[trigger] d.entries@[i], raw@[i])
            },
            r matches Err(e) ==> {
                &&& e.index < raw@.len()
                &&& entry_fault(raw@[e.index as int]) == Some(e.fault)
                &&& forall|i: int| 0 <= i < e.index ==> #[trigger] entry_fault(raw@[i]) is None
            },
    {
        let ghost all = raw@;
        let mut rest = raw;
        let mut entries: Vec<TimeTrackingEntry> = Vec::new();
        let mut i: usize = 0;
        let n: usize = rest.len();
        while rest.len() > 0
            invariant
                all == raw@,
                all.len() == n,
                i + rest@.len() == all.len(),
                rest@ == all.subrange(i as int, all.len() as int),
                entries@.len() == i,
                forall|k: int| 0 <= k < i ==> decoded_from(#[trigger] entries@[k], all[k]),
                forall|k: int| 0 <= k < i ==> (#[trigger] entries@[k]).wf(),
                forall|k: int| 0 <= k < i ==> #[trigger] entry_fault(all[k]) is None,
            decreases rest@.len(),
        {
            let item = rest.remove(0);
            assert(item == all[i as int]);
            match TimeTrackingEntry::decode(item) {
                Ok(e) => {
                    entries.push(e);
                },
                Err(fault) => {
                    assert(entry_fault(all[i as int]) == Some(fault));
                    assert(!all_decodable(all));
                    return Err(DecodeError { index: i, fault });
                },
            }
            i = i + 1;
        }
        assert(i == all.len());
        Ok(TimeData { entries })
    }
}

/// `raw` is an entry as the export writes it: both timestamps are compact UTC
/// timestamps of existing seconds, and it carries at least one tag.
pub open spec fn well_formed_entry(raw: RawEntry) -> bool {
    &&& exists|t: DateTimeFields| t.wf() && raw.start@ == #[trigger] compact_text(t)
    &&& exists|t: DateTimeFields| t.wf() && raw.end@ == #[trigger] compact_text(t)
    &&& raw.tags@.len() > 0
}

/// An export whose entries are all well formed decodes in full: with the contract of
/// `TimeData::decode`, the result has as many entries, in the same order, field for field.
pub proof fn lemma_well_formed_export_decodes(raw: Seq<RawEntry>)
    requires
        forall|i: int| 0 <= i < raw.len() ==> well_formed_entry(#[trigger] raw[i]),
    ensures
        all_decodable(raw),
{
    assert forall|i: int| 0 <= i < raw.len() implies #[trigger] entry_fault(raw[i]) is None by {
        assert(well_formed_entry(raw[i]));
        let s = choose|t: DateTimeFields| t.wf() && raw[i].start@ == #[trigger] compact_text(t);
        let e = choose|t: DateTimeFields| t.wf() && raw[i].end@ == #[trigger] compact_text(t);
        lemma_timestamp_round_trip(s);
        lemma_timestamp_round_trip(e);
    }
}

} // verus!
