//! The bounded history: the most recent results, oldest first.

use std::collections::VecDeque;
use vstd::prelude::*;
use crate::log::{csv_records, csv_row, error_text, read_records, write_row};

verus! {

/// How many entries the history keeps.
pub const HISTORY_SIZE: usize = 10;

/// The last `capacity` items of `entries`, or all of them where there are
/// no more than that.
pub open spec fn retain_recent<T>(entries: Seq<T>, capacity: nat) -> Seq<T> {
    if entries.len() <= capacity {
        entries
    } else {
        entries.skip(entries.len() - capacity)
    }
}

/// The text of a history entry.
pub open spec fn entry_text(expression: Seq<char>, result: Seq<char>) -> Seq<char> {
    expression + " = "@ + result
}

/// The entry that a record of the log stands for: a record of exactly two
/// fields gives one, any other record and any unreadable record gives none.
pub open spec fn record_entry(record: Option<Seq<Seq<char>>>) -> Option<Seq<char>> {
    match record {
        Some(fields) => if fields.len() == 2 {
            Some(entry_text(fields[0], fields[1]))
        } else {
            None
        },
        None => None,
    }
}

/// The entries that the records of a log stand for, in the order of the log.
pub open spec fn log_entries(records: Seq<Option<Seq<Seq<char>>>>) -> Seq<Seq<char>>
    decreases records.len(),
{
    if records.len() == 0 {
        Seq::empty()
    } else {
        let earlier = log_entries(records.drop_last());
        match record_entry(records.last()) {
            Some(entry) => earlier.push(entry),
            None => earlier,
        }
    }
}

/// The history after `entries` were appended to it one at a time, each
/// append evicting the oldest entry of a full history.
pub open spec fn appended_all<T>(history: Seq<T>, entries: Seq<T>, capacity: nat) -> Seq<T>
    decreases entries.len(),
{
    if entries.len() == 0 {
        history
    } else {
        retain_recent(
            appended_all(history, entries.drop_last(), capacity).push(entries.last()),
            capacity,
        )
    }
}

/// Appending to what was retained retains the same as appending to all.
pub proof fn lemma_retain_recent_push<T>(entries: Seq<T>, entry: T, capacity: nat)
    requires
        capacity > 0,
    ensures
        retain_recent(retain_recent(entries, capacity).push(entry), capacity) == retain_recent(
            entries.push(entry),
            capacity,
        ),
{
}

/// A history filled one entry at a time holds the most recent entries, in
/// the order in which they came.
pub proof fn lemma_appended_all_retains_recent<T>(history: Seq<T>, entries: Seq<T>, capacity: nat)
    requires
        capacity > 0,
        history.len() <= capacity,
    ensures
        appended_all(history, entries, capacity) == retain_recent(history + entries, capacity),
    decreases entries.len(),
{
    if entries.len() == 0 {
    } else {
        let earlier = entries.drop_last();
        lemma_appended_all_retains_recent(history, earlier, capacity);
        lemma_retain_recent_push(history + earlier, entries.last(), capacity);
    }
}

/// After at least `capacity` appends to an empty history, the history holds
/// exactly `capacity` entries: the last ones appended, oldest first.
pub proof fn lemma_full_history<T>(entries: Seq<T>, capacity: nat)
    requires
        capacity > 0,
        entries.len() >= capacity,
    ensures
        appended_all(Seq::<T>::empty(), entries, capacity).len() == capacity,
        appended_all(Seq::<T>::empty(), entries, capacity) == entries.skip(
            entries.len() - capacity,
        ),
{
    lemma_appended_all_retains_recent(Seq::<T>::empty(), entries, capacity);
}

/// Why a record could not be prepared for the log.
#[derive(Debug)]
pub struct LogError {
    /// What the CSV writer reported.
    pub message: String,
}

/// The most recent results, oldest first; never more than `HISTORY_SIZE`.
#[derive(Debug)]
pub struct History {
    entries: VecDeque<String>,
}

impl View for History {
    type V = Seq<Seq<char>>;

    closed spec fn view(&self) -> Seq<Seq<char>> {
        self.entries.deep_view()
    }
}

impl History {
    #[verifier::type_invariant]
    spec fn bounded(self) -> bool {
        self.entries@.len() <= HISTORY_SIZE
    }

    /// An empty history.
    pub fn new() -> (history: History)
        ensures
            history@ == Seq::<Seq<char>>::empty(),
    {
        History { entries: VecDeque::with_capacity(HISTORY_SIZE) }
    }

    /// The number of entries held.
    pub fn len(&self) -> (n: usize)
        ensures
            n == self@.len(),
            n <= HISTORY_SIZE,
    {
        proof {
            use_type_invariant(self);
        }
        self.entries.len()
    }

    /// Appends `entry`, evicting the oldest entry where the history is full.
    pub fn push_entry(&mut self, entry: String)
        ensures
            final(self)@ == retain_recent(old(self)@.push(entry@), HISTORY_SIZE as nat),
    {
        proof {
            use_type_invariant(&*self);
        }
        // The deque is moved out while it changes: the bound holds of `self`
        // throughout.
        let mut entries: VecDeque<String> = VecDeque::new();
        std::mem::swap(&mut self.entries, &mut entries);
        if entries.len() >= HISTORY_SIZE {
            entries.pop_front();
        }
        entries.push_back(entry);
        self.entries = entries;
    }

    /// The entries, oldest first.
    pub fn entries(&self) -> (lines: Vec<String>)
        ensures
            lines.deep_view() == self@,
    {
        let mut lines: Vec<String> = Vec::new();
        let mut i: usize = 0;
        while i < self.entries.len()
            invariant
                i <= self.entries.len(),
                lines.len() == i,
                forall|j: int| 0 <= j < i ==> lines@[j]@ == self.entries@[j]@,
            decreases self.entries.len() - i,
        {
            lines.push(self.entries[i].clone());
            i += 1;
        }
        lines
    }
}

/// The entry for a calculation: expression, ` = `, result.
pub fn format_entry(expression: &str, result: &str) -> (entry: String)
    ensures
        entry@ == entry_text(expression@, result@),
{
    let mut entry = expression.to_owned();
    entry.append(" = ");
    entry.append(result);
    entry
}

/// What comes of an attempt to write a log row: the row itself, or the
/// writer's complaint.
pub fn log_row(written: Result<Vec<u8>, csv::Error>) -> (row: Result<Vec<u8>, LogError>)
    ensures
        match written {
            Ok(bytes) => row matches Ok(same) && same == bytes,
            Err(_) => row is Err,
        },
{
    match written {
        Ok(bytes) => Ok(bytes),
        Err(error) => Err(LogError { message: error_text(&error) }),
    }
}

/// The row to append to the log for a calculation: the CSV record of
/// expression and result. There always is one. Appending it to the log is
/// the caller's part, and may fail there.
pub fn save_to_csv(expression: &str, result: &str) -> (row: Result<Vec<u8>, LogError>)
    ensures
        row matches Ok(bytes) && bytes@ == csv_row(expression@, result@),
{
    log_row(write_row(expression, result))
}

/// Records a calculation: its entry enters the history, evicting the
/// oldest one where the history is full, and the row for the log is handed
/// back. Whether the caller can append the row does not touch the entry.
pub fn update_history(history: &mut History, expression: &str, result: &str) -> (row: Result<
    Vec<u8>,
    LogError,
>)
    ensures
        final(history)@ == retain_recent(
            old(history)@.push(entry_text(expression@, result@)),
            HISTORY_SIZE as nat,
        ),
        row matches Ok(bytes) && bytes@ == csv_row(expression@, result@),
{
    history.push_entry(format_entry(expression, result));
    save_to_csv(expression, result)
}

/// Replays the records of a log into the history, in their order: each
/// record of two fields is appended as an entry, every other one is passed
/// over. Nothing is written to the log.
pub fn load_records(history: &mut History, records: &Vec<Option<Vec<String>>>)
    ensures
        final(history)@ == retain_recent(
            old(history)@ + log_entries(records.deep_view()),
            HISTORY_SIZE as nat,
        ),
{
    let ghost start = history@;
    let ghost all = records.deep_view();
    proof {
        use_type_invariant(&*history);
    }
    let mut i: usize = 0;
    while i < records.len()
        invariant
            i <= records.len(),
            all == records.deep_view(),
            history@ == retain_recent(start + log_entries(all.take(i as int)), HISTORY_SIZE as nat),
        decreases records.len() - i,
    {
        let ghost seen = log_entries(all.take(i as int));
        proof {
            assert(all.take(i + 1).drop_last() =~= all.take(i as int));
        }
        match &records[i] {
            Some(fields) => {
                if fields.len() == 2 {
                    let entry = format_entry(fields[0].as_str(), fields[1].as_str());
                    proof {
                        lemma_retain_recent_push(start + seen, entry@, HISTORY_SIZE as nat);
                    }
                    history.push_entry(entry);
                }
            },
            None => {},
        }
        i += 1;
    }
    proof {
        assert(all.take(i as int) =~= all);
    }
}

/// Fills the history from the bytes of a log: every record of the log
/// counts, the first one too, each is judged by its own width, and only the
/// most recent entries stay.
pub fn load_history_from_csv(history: &mut History, data: &[u8])
    ensures
        final(history)@ == retain_recent(
            old(history)@ + log_entries(csv_records(data@, false, true)),
            HISTORY_SIZE as nat,
        ),
{
    let records = read_records(data, false, true);
    load_records(history, &records);
}

} // verus!
