use vstd::prelude::*;
use crate::module::Module;
use rand::Rng;

verus! {

/// The decimal label of an hour of the day, for hours 0 through 23.
pub open spec fn spec_hour_label(h: int) -> Seq<char> {
    if h == 0 {
        "0"@
    } else if h == 1 {
        "1"@
    } else if h == 2 {
        "2"@
    } else if h == 3 {
        "3"@
    } else if h == 4 {
        "4"@
    } else if h == 5 {
        "5"@
    } else if h == 6 {
        "6"@
    } else if h == 7 {
        "7"@
    } else if h == 8 {
        "8"@
    } else if h == 9 {
        "9"@
    } else if h == 10 {
        "10"@
    } else if h == 11 {
        "11"@
    } else if h == 12 {
        "12"@
    } else if h == 13 {
        "13"@
    } else if h == 14 {
        "14"@
    } else if h == 15 {
        "15"@
    } else if h == 16 {
        "16"@
    } else if h == 17 {
        "17"@
    } else if h == 18 {
        "18"@
    } else if h == 19 {
        "19"@
    } else if h == 20 {
        "20"@
    } else if h == 21 {
        "21"@
    } else if h == 22 {
        "22"@
    } else {
        "23"@
    }
}

/// The decimal label of an hour of the day.
pub fn hour_label(h: u32) -> (r: String)
    requires
        h < 24,
    ensures
        r@ == spec_hour_label(h as int),
{
    let s: &str = match h {
        0 => "0",
        1 => "1",
        2 => "2",
        3 => "3",
        4 => "4",
        5 => "5",
        6 => "6",
        7 => "7",
        8 => "8",
        9 => "9",
        10 => "10",
        11 => "11",
        12 => "12",
        13 => "13",
        14 => "14",
        15 => "15",
        16 => "16",
        17 => "17",
        18 => "18",
        19 => "19",
        20 => "20",
        21 => "21",
        22 => "22",
        _ => "23",
    };
    s.to_owned()
}

/// The sum of the counts of a window, oldest first.
pub open spec fn sum_counts(s: Seq<(Seq<char>, i16)>) -> int
    decreases s.len(),
{
    if s.len() == 0 {
        0
    } else {
        sum_counts(s.drop_last()) + s.last().1
    }
}

/// The hour of day shown at window slot `i` when the newest slot shows hour
/// `h`: slot `i` lies `28 - i` hours earlier, wrapped to the 24-hour clock.
pub open spec fn seed_hour(h: int, i: int) -> int {
    (h + 28 - i) % 24
}

/// The labels of a freshly seeded window whose newest slot shows hour `h`:
/// slot `i` is labelled with the hour `28 - i` hours before `h`.
pub open spec fn seeded_labels(w: Seq<(Seq<char>, i16)>, h: u32) -> bool {
    forall|i: int| 0 <= i < 29 ==> #[trigger] w[i].0 == spec_hour_label(seed_hour(h as int, i))
}

/// Relies on rand's `thread_rng` and `Rng::gen_range` over `0..6`: the draw
/// lies in that range whatever the generator produced.
#[verifier::external_body]
fn random_count() -> (r: i16)
    ensures
        0 <= r < 6,
{
    rand::thread_rng().gen_range(0..6)
}

/// The Alarm Graph module: a rolling window of the alarm counts of the past
/// 29 hours, together with a running total of every count ever pushed.
pub struct AlarmGraph {
    data: Vec<(String, i16)>,
    alarms_triggered: u32,
}

impl AlarmGraph {
    /// The window, oldest entry first: one hour label and alarm count per slot.
    pub closed spec fn window(self) -> Seq<(Seq<char>, i16)> {
        self.data.deep_view()
    }

    /// The running total of all counts ever pushed, seeded ones included.
    pub closed spec fn total(self) -> int {
        self.alarms_triggered as int
    }

    /// Well-formed: the window holds exactly 29 entries, each count
    /// non-negative.
    pub open spec fn wf(self) -> bool {
        &&& self.window().len() == 29
        &&& forall|i: int| 0 <= i < 29 ==> 0 <= #[trigger] self.window()[i].1
    }

    /// One rotation step: the oldest entry leaves, `(label, count)` enters at
    /// the end, and the running total grows by `count`.
    pub open spec fn rotated(pre: AlarmGraph, label: Seq<char>, count: i16, post: AlarmGraph) -> bool {
        &&& post.window() == pre.window().drop_first().push((label, count))
        &&& post.total() == pre.total() + count
    }

    /// Add data for the graph: the oldest window entry is evicted, `data`
    /// is appended, and its count joins the running total.
    pub fn add_data(&mut self, data: (String, i16))
        requires
            old(self).wf(),
            0 <= data.1,
            old(self).total() + data.1 <= u32::MAX,
        ensures
            final(self).wf(),
            Self::rotated(*old(self), data.0@, data.1, *final(self)),
    {
        let ghost e = (data.0@, data.1);
        let num = data.1;
        self.data.remove(0);
        self.data.push(data);
        self.alarms_triggered = self.alarms_triggered + num as u32;
        proof {
            let post = old(self).window().drop_first().push(e);
            assert(self.window() =~= post) by {
                assert forall|i: int| 0 <= i < self.data@.len() implies self.data@[
                    i
                ].deep_view() == post[i] by {
                    if i < 28 {
                        assert(self.data@[i] == old(self).data@[i + 1]);
                    }
                }
            }
        }
    }

    /// Get the amount of alarms triggered to date.
    pub fn get_triggered_alarms_amount(&self) -> (r: &u32)
        ensures
            *r == self.total(),
    {
        &self.alarms_triggered
    }
}

/// Law: a rotation never shrinks the running total and keeps the window at
/// its fixed size, so the total is monotone over any sequence of rotations,
/// and triggers, which leave the graph untouched, cannot shrink it either.
pub proof fn lemma_rotate_total_monotonic(
    pre: AlarmGraph,
    label: Seq<char>,
    count: i16,
    post: AlarmGraph,
)
    requires
        pre.wf(),
        0 <= count,
        AlarmGraph::rotated(pre, label, count, post),
    ensures
        pre.total() <= post.total(),
        post.window().len() == pre.window().len(),
{
}

impl Default for AlarmGraph {
    /// Seeds the window with 29 synthetic hourly counts, one per hour label
    /// counted back from the current hour, and starts the running total at
    /// the sum of the seeded counts.
    fn default() -> (r: Self)
        ensures
            r.wf(),
            forall|i: int| 0 <= i < 29 ==> #[trigger] r.window()[i].1 < 6,
            r.total() == sum_counts(r.window()),
            r.total() <= 145,
            exists|h: u32| h < 24 && #[trigger] seeded_labels(r.window(), h),
    {
        let h = crate::clock::now_hour();
        let mut data: Vec<(String, i16)> = Vec::new();
        let mut total: u32 = 0;
        let mut i: usize = 0;
        while i < 29
            invariant
                i <= 29,
                h < 24,
                data.deep_view().len() == i as int,
                total as int == sum_counts(data.deep_view()),
                total <= 5 * i,
                forall|j: int| 0 <= j < i ==> 0 <= #[trigger] data.deep_view()[j].1 < 6,
                forall|j: int| 0 <= j < i ==> #[trigger] data.deep_view()[j].0
                    == spec_hour_label(seed_hour(h as int, j)),
            decreases 29 - i,
        {
            let offset: u32 = 28 - i as u32;
            let lbl = hour_label((h + offset) % 24);
            let c = random_count();
            let ghost prev = data.deep_view();
            data.push((lbl, c));
            total = total + c as u32;
            i = i + 1;
            proof {
                assert(data.deep_view() =~= prev.push((lbl@, c)));
                assert(data.deep_view().drop_last() =~= prev);
                assert(((h + offset) % 24) as int == seed_hour(h as int, i - 1));
            }
        }
        let ghost dv = data.deep_view();
        let r = AlarmGraph { data, alarms_triggered: total };
        proof {
            assert(r.window() == dv);
            assert(seeded_labels(r.window(), h));
        }
        r
    }
}

impl Module for AlarmGraph {
    open spec fn spec_id(&self) -> i16 {
        1
    }

    open spec fn spec_name(&self) -> Seq<char> {
        "Alarm Statistics"@
    }

    open spec fn spec_description(&self) -> Seq<char> {
        "Gets the statistics of alarms for the past 48 hours"@
    }

    open spec fn spec_data(&self) -> Seq<(Seq<char>, i16)> {
        self.window()
    }

    fn get_id(&self) -> (r: i16) {
        1
    }

    fn get_name(&self) -> (r: String) {
        "Alarm Statistics".to_owned()
    }

    fn get_description(&self) -> (r: String) {
        "Gets the statistics of alarms for the past 48 hours".to_owned()
    }

    fn get_data(&self) -> (r: Vec<(String, i16)>) {
        let mut out: Vec<(String, i16)> = Vec::new();
        let mut i: usize = 0;
        while i < self.data.len()
            invariant
                i <= self.data@.len(),
                out@ =~= self.data@.subrange(0, i as int),
            decreases self.data@.len() - i,
        {
            out.push((self.data[i].0.clone(), self.data[i].1));
            i = i + 1;
        }
        proof {
            assert(out@ =~= self.data@);
            assert(out.deep_view() =~= self.data.deep_view());
        }
        out
    }
}

} // verus!
