use vstd::prelude::*;
use vstd::string::StringExecFns;
use crate::log_tier::LogTier;
use crate::module::Module;

verus! {

/// The text chrono renders for a timestamp of that many seconds since the
/// Unix epoch, under the fixed layout `%a %b %e %T %Y`.
pub uninterp spec fn format_epoch(ts: i64) -> Seq<char>;

/// The text `str::trim` leaves of a string.
pub uninterp spec fn trimmed(s: Seq<char>) -> Seq<char>;

/// Relies on chrono's `DateTime::from_timestamp` and `DateTime::format` with
/// the fixed layout `%a %b %e %T %Y`: the text depends on the timestamp
/// alone (a timestamp outside chrono's representable range gives the empty
/// string).
#[verifier::external_body]
fn format_epoch_str(ts: i64) -> (r: String)
    ensures
        r@ == format_epoch(ts),
{
    match chrono::DateTime::<chrono::Utc>::from_timestamp(ts, 0) {
        Some(d) => d.format("%a %b %e %T %Y").to_string(),
        None => String::new(),
    }
}

/// Relies on `str::trim`: leading and trailing whitespace removed, the rest
/// of the characters unchanged; the result depends on the string alone.
#[verifier::external_body]
fn trim_str(s: &str) -> (r: &str)
    ensures
        r@ == trimmed(s@),
{
    s.trim()
}

/// The tier token shown for a stored rank: the ranks `log` stores are
/// 1 for `INFO`, 2 for `ERROR`, 3 for `WARN` and 4 for `DEBUG`.
pub open spec fn spec_tier_label(rank: i16) -> Seq<char> {
    if rank == 1 {
        "INFO"@
    } else if rank == 2 {
        "ERROR"@
    } else if rank == 3 {
        "WARN"@
    } else {
        "DEBUG"@
    }
}

/// The display line of one stored entry:
/// `<timestamp> [<TIER>] <trimmed message>`.
pub open spec fn spec_line(entry: (Seq<char>, i16, i64)) -> Seq<char> {
    format_epoch(entry.2) + " ["@ + spec_tier_label(entry.1) + "] "@ + trimmed(entry.0)
}

/// All display lines of a store, one per entry, in insertion order,
/// oldest first.
pub open spec fn spec_formatted(entries: Seq<(Seq<char>, i16, i64)>) -> Seq<Seq<char>> {
    Seq::new(entries.len(), |i: int| spec_line(entries[i]))
}

/// The Logging module: every message ever logged, in insertion order,
/// each with its tier rank and its timestamp in epoch seconds.
pub struct Logging {
    pub data: Vec<(String, i16, i64)>,
}

impl Logging {
    /// The stored entries, oldest first: message, tier rank, timestamp.
    pub open spec fn entries(self) -> Seq<(Seq<char>, i16, i64)> {
        self.data.deep_view()
    }

    /// Adds a new log message to the logs based on tier, stamped with the
    /// current time: the store grows by that one entry at the end and every
    /// earlier entry stays in place.
    pub fn log(&mut self, description: String, log_type: LogTier)
        ensures
            final(self).entries().len() == old(self).entries().len() + 1,
            forall|i: int|
                0 <= i < old(self).entries().len() ==> #[trigger] final(self).entries()[i]
                    == old(self).entries()[i],
            final(self).entries().last().0 == description@,
            final(self).entries().last().1 == log_type.spec_rank(),
    {
        let ts = crate::clock::now_epoch();
        let rank: i16 = match log_type {
            LogTier::Info => 1,
            LogTier::Error => 2,
            LogTier::Warning => 3,
            LogTier::Debug => 4,
        };
        let ghost prev = self.data.deep_view();
        let ghost e = (description@, rank, ts);
        self.data.push((description, rank, ts));
        proof {
            assert(self.entries() =~= prev.push(e));
        }
    }

    /// Gets the log messages formatted for display: one line per entry, in
    /// insertion order, each reading `<timestamp> [<TIER>] <trimmed message>`.
    pub fn get_formatted_logs(&self) -> (r: Vec<String>)
        ensures
            r.deep_view() == spec_formatted(self.entries()),
    {
        let mut logs: Vec<String> = Vec::new();
        let mut i: usize = 0;
        while i < self.data.len()
            invariant
                i <= self.data@.len(),
                logs@.len() == i as int,
                forall|j: int|
                    0 <= j < i ==> #[trigger] logs@[j]@ == spec_line(self.entries()[j]),
            decreases self.data@.len() - i,
        {
            let entry = &self.data[i];
            let label: &str = match entry.1 {
                1 => "INFO",
                2 => "ERROR",
                3 => "WARN",
                _ => "DEBUG",
            };
            let mut line = format_epoch_str(entry.2);
            line.append(" [");
            line.append(label);
            line.append("] ");
            line.append(trim_str(entry.0.as_str()));
            logs.push(line);
            i = i + 1;
        }
        proof {
            assert(logs.deep_view() =~= spec_formatted(self.entries()));
        }
        logs
    }
}

/// Law: logging preserves the order of what was already shown: the formatted
/// view of a store with one more entry is the old view, unchanged, with that
/// entry's line appended at the end.
pub proof fn lemma_formatted_append(entries: Seq<(Seq<char>, i16, i64)>, e: (Seq<char>, i16, i64))
    ensures
        spec_formatted(entries.push(e)) =~= spec_formatted(entries).push(spec_line(e)),
{
}

/// Law: the formatted view is a pure projection of the store: two views
/// taken of the same entries, with no logging in between, are identical.
pub proof fn lemma_formatted_idempotent(
    entries: Seq<(Seq<char>, i16, i64)>,
    r1: Seq<Seq<char>>,
    r2: Seq<Seq<char>>,
)
    requires
        r1 == spec_formatted(entries),
        r2 == spec_formatted(entries),
    ensures
        r1 == r2,
{
}

impl Default for Logging {
    /// Returns an empty log store.
    fn default() -> (r: Self)
        ensures
            r.entries().len() == 0,
    {
        Self { data: Vec::new() }
    }
}

impl Module for Logging {
    open spec fn spec_id(&self) -> i16 {
        2
    }

    open spec fn spec_name(&self) -> Seq<char> {
        "Logging"@
    }

    open spec fn spec_description(&self) -> Seq<char> {
        "Used to store and show logging on screen"@
    }

    open spec fn spec_data(&self) -> Seq<(Seq<char>, i16)> {
        Seq::empty()
    }

    fn get_id(&self) -> (r: i16) {
        2
    }

    fn get_name(&self) -> (r: String) {
        "Logging".to_owned()
    }

    fn get_description(&self) -> (r: String) {
        "Used to store and show logging on screen".to_owned()
    }

    fn get_data(&self) -> (r: Vec<(String, i16)>) {
        let out: Vec<(String, i16)> = Vec::new();
        proof {
            assert(out.deep_view() =~= Seq::<(Seq<char>, i16)>::empty());
        }
        out
    }
}

} // verus!
