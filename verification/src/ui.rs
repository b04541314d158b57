use vstd::prelude::*;
use crate::alarm_graph::{hour_label, spec_hour_label, sum_counts, AlarmGraph};
use crate::log_tier::LogTier;
use crate::logging::Logging;

verus! {

/// The bounded wait before polling for input: the part of the tick interval
/// not yet elapsed, or a 250 ms fallback once the interval has passed.
pub fn wait_budget(tick_ms: u64, elapsed_ms: u64) -> (r: u64)
    ensures
        elapsed_ms < tick_ms ==> r == tick_ms - elapsed_ms,
        elapsed_ms >= tick_ms ==> r == 250,
{
    if elapsed_ms < tick_ms {
        tick_ms - elapsed_ms
    } else {
        250
    }
}

/// The user interface state of the alarm monitoring dashboard.
///
/// # Fields
/// * `alarm` - Alarm Graph module
/// * `logging` - Logging module
/// * `last_hour` - the hour of day under which alarms are currently counted
/// * `alarms_triggered` - alarms triggered so far within the current hour
/// * `last_triggered` - when the alarm was last triggered, in epoch seconds
pub struct UI {
    pub alarm: AlarmGraph,
    pub logging: Logging,
    pub last_hour: u32,
    pub alarms_triggered: i16,
    pub last_triggered: i64,
}

impl UI {
    /// Well-formed: the alarm window is intact, the tracked hour is an hour
    /// of day, and the pending count never went below zero.
    pub open spec fn wf(self) -> bool {
        &&& self.alarm.wf()
        &&& self.last_hour < 24
        &&& 0 <= self.alarms_triggered
    }

    /// Logs the fixed start-up messages, in this order: the system, then
    /// each module starting, then each module started.
    pub fn log_startup(&mut self)
        ensures
            final(self).alarm == old(self).alarm,
            final(self).last_hour == old(self).last_hour,
            final(self).alarms_triggered == old(self).alarms_triggered,
            final(self).last_triggered == old(self).last_triggered,
            final(self).logging.entries().len() == old(self).logging.entries().len() + 5,
            forall|i: int|
                0 <= i < old(self).logging.entries().len() ==> #[trigger] final(self).logging.entries()[i]
                    == old(self).logging.entries()[i],
            startup_entries(
                final(self).logging.entries().skip(old(self).logging.entries().len() as int),
            ),
    {
        self.logging.log("system starting".to_owned(), LogTier::Info);
        self.logging.log("alarm module starting".to_owned(), LogTier::Debug);
        self.logging.log("logging module starting".to_owned(), LogTier::Debug);
        self.logging.log("alarm module started".to_owned(), LogTier::Info);
        self.logging.log("logging module started".to_owned(), LogTier::Info);
    }

    /// Interprets one key press, pressed while the dashboard ran.
    ///
    /// `q` asks to quit and mutates nothing; `t` triggers the alarm: the
    /// pending count grows by one, the trigger time is reset and an info
    /// message is logged; `r` only logs that the alarm was disabled; any
    /// other key is ignored.
    pub fn handle_key(&mut self, key: char) -> (quit: bool)
        requires
            old(self).alarms_triggered < i16::MAX,
        ensures
            quit == (key == 'q'),
            key == 'q' ==> *final(self) == *old(self),
            key == 't' ==> {
                &&& final(self).alarms_triggered == old(self).alarms_triggered + 1
                &&& final(self).alarm == old(self).alarm
                &&& final(self).last_hour == old(self).last_hour
                &&& appended_log(
                    old(self).logging.entries(),
                    final(self).logging.entries(),
                    "alarm triggered"@,
                    LogTier::Info,
                )
            },
            key == 'r' ==> {
                &&& final(self).alarms_triggered == old(self).alarms_triggered
                &&& final(self).alarm == old(self).alarm
                &&& final(self).last_hour == old(self).last_hour
                &&& final(self).last_triggered == old(self).last_triggered
                &&& appended_log(
                    old(self).logging.entries(),
                    final(self).logging.entries(),
                    "alarm disabled"@,
                    LogTier::Info,
                )
            },
            key != 'q' && key != 't' && key != 'r' ==> *final(self) == *old(self),
            old(self).wf() ==> final(self).wf(),
    {
        match key {
            'q' => true,
            't' => {
                self.logging.log("alarm triggered".to_owned(), LogTier::Info);
                self.last_triggered = crate::clock::now_epoch();
                self.alarms_triggered = self.alarms_triggered + 1;
                false
            },
            'r' => {
                self.logging.log("alarm disabled".to_owned(), LogTier::Info);
                false
            },
            _ => false,
        }
    }

    /// Compared before each draw: when the hour of day moved on, the window
    /// rotates once, under the new hour's label and with the pending count,
    /// and the pending count starts at zero again; otherwise nothing changes.
    pub fn advance_hour(&mut self, current_hour: u32)
        requires
            old(self).wf(),
            current_hour < 24,
            old(self).alarm.total() + old(self).alarms_triggered <= u32::MAX,
        ensures
            final(self).wf(),
            current_hour == old(self).last_hour ==> *final(self) == *old(self),
            current_hour != old(self).last_hour ==> {
                &&& AlarmGraph::rotated(
                    old(self).alarm,
                    spec_hour_label(current_hour as int),
                    old(self).alarms_triggered,
                    final(self).alarm,
                )
                &&& final(self).alarms_triggered == 0
                &&& final(self).last_hour == current_hour
                &&& final(self).logging == old(self).logging
                &&& final(self).last_triggered == old(self).last_triggered
            },
    {
        if current_hour != self.last_hour {
            let lbl = hour_label(current_hour);
            let pending = self.alarms_triggered;
            self.alarm.add_data((lbl, pending));
            self.alarms_triggered = 0;
            self.last_hour = current_hour;
        }
    }
}

/// One entry was appended to the log, with this message and tier, and every
/// entry already stored stayed in place.
pub open spec fn appended_log(
    pre: Seq<(Seq<char>, i16, i64)>,
    post: Seq<(Seq<char>, i16, i64)>,
    message: Seq<char>,
    tier: LogTier,
) -> bool {
    &&& post.len() == pre.len() + 1
    &&& forall|i: int| 0 <= i < pre.len() ==> #[trigger] post[i] == pre[i]
    &&& post.last().0 == message
    &&& post.last().1 == tier.spec_rank()
}

/// The five fixed start-up entries, in order: the system starting (info),
/// the two modules starting (debug), the two modules started (info).
pub open spec fn startup_entries(s: Seq<(Seq<char>, i16, i64)>) -> bool {
    &&& s.len() == 5
    &&& s[0].0 == "system starting"@ && s[0].1 == LogTier::Info.spec_rank()
    &&& s[1].0 == "alarm module starting"@ && s[1].1 == LogTier::Debug.spec_rank()
    &&& s[2].0 == "logging module starting"@ && s[2].1 == LogTier::Debug.spec_rank()
    &&& s[3].0 == "alarm module started"@ && s[3].1 == LogTier::Info.spec_rank()
    &&& s[4].0 == "logging module started"@ && s[4].1 == LogTier::Info.spec_rank()
}

impl Default for UI {
    /// Returns the default settings for the UI struct: a freshly seeded
    /// alarm graph, an empty log, the current hour tracked and no alarms
    /// pending.
    fn default() -> (r: Self)
        ensures
            r.wf(),
            r.alarms_triggered == 0,
            r.logging.entries().len() == 0,
            r.alarm.total() == sum_counts(r.alarm.window()),
            r.alarm.total() <= 145,
    {
        Self {
            alarm: AlarmGraph::default(),
            logging: Logging::default(),
            last_hour: crate::clock::now_hour(),
            alarms_triggered: 0,
            last_triggered: crate::clock::now_epoch(),
        }
    }
}

} // verus!
