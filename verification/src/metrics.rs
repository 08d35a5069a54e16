//! The metrics collector: per-route latency histograms over a fixed bucket
//! boundary set (1, 5, 10, 25, 50, 100 milliseconds) labelled by
//! route-specific dimensions, and one monotonic process-lifetime request
//! counter. The registry is constructed once at startup and passed into every
//! handler; nothing here is global, and nothing is ever reset.

use vstd::prelude::*;

verus! {

/// One latency histogram: cumulative counts of observations at or under each
/// bucket bound, the total of all observed values, and the number of
/// observations.
#[derive(Debug, Clone, Copy, PartialEq, Eq, Structural)]
pub struct Histogram {
    pub le_1: u64,
    pub le_5: u64,
    pub le_10: u64,
    pub le_25: u64,
    pub le_50: u64,
    pub le_100: u64,
    pub sum: u64,
    pub count: u64,
}

/// The histogram every child starts from: nothing observed yet.
pub open spec fn zero_hist() -> Histogram {
    Histogram { le_1: 0, le_5: 0, le_10: 0, le_25: 0, le_50: 0, le_100: 0, sum: 0, count: 0 }
}

/// How one observation of `ms` milliseconds turns `pre` into `post`: every
/// cumulative bucket at or above `ms` grows by one, the others stay; the sum
/// grows by `ms` and the observation count by one.
pub open spec fn hist_step(pre: Histogram, post: Histogram, ms: u64) -> bool {
    &&& post.le_1 == pre.le_1 + (if ms <= 1 { 1int } else { 0int })
    &&& post.le_5 == pre.le_5 + (if ms <= 5 { 1int } else { 0int })
    &&& post.le_10 == pre.le_10 + (if ms <= 10 { 1int } else { 0int })
    &&& post.le_25 == pre.le_25 + (if ms <= 25 { 1int } else { 0int })
    &&& post.le_50 == pre.le_50 + (if ms <= 50 { 1int } else { 0int })
    &&& post.le_100 == pre.le_100 + (if ms <= 100 { 1int } else { 0int })
    &&& post.sum == pre.sum + ms
    &&& post.count == pre.count + 1
}

impl Histogram {
    /// The cumulative buckets grow with their bounds, and none can hold more
    /// observations than were made.
    pub open spec fn wf(self) -> bool {
        &&& self.le_1 <= self.le_5
        &&& self.le_5 <= self.le_10
        &&& self.le_10 <= self.le_25
        &&& self.le_25 <= self.le_50
        &&& self.le_50 <= self.le_100
        &&& self.le_100 <= self.count
    }

    /// One more observation of `ms` still fits the machine's counters.
    pub open spec fn can_observe(self, ms: u64) -> bool {
        self.count < u64::MAX && self.sum + ms <= u64::MAX
    }

    /// A fresh histogram with nothing observed.
    pub fn new() -> (r: Histogram)
        ensures
            r == zero_hist(),
    {
        Histogram { le_1: 0, le_5: 0, le_10: 0, le_25: 0, le_50: 0, le_100: 0, sum: 0, count: 0 }
    }

    /// Records one latency observation of `ms` milliseconds.
    pub fn observe(&mut self, ms: u64)
        requires
            old(self).wf(),
            old(self).can_observe(ms),
        ensures
            final(self).wf(),
            hist_step(*old(self), *final(self), ms),
    {
        if ms <= 1 {
            self.le_1 = self.le_1 + 1;
        }
        if ms <= 5 {
            self.le_5 = self.le_5 + 1;
        }
        if ms <= 10 {
            self.le_10 = self.le_10 + 1;
        }
        if ms <= 25 {
            self.le_25 = self.le_25 + 1;
        }
        if ms <= 50 {
            self.le_50 = self.le_50 + 1;
        }
        if ms <= 100 {
            self.le_100 = self.le_100 + 1;
        }
        self.sum = self.sum + ms;
        self.count = self.count + 1;
    }
}

/// The label values of a child, as sequences of characters.
pub open spec fn labels_of(v: Vec<String>) -> Seq<Seq<char>> {
    v@.map_values(|s: String| s@)
}

/// One child of a histogram family: the histogram under one combination of
/// label values.
#[derive(Debug)]
pub struct FamilyChild {
    pub labels: Vec<String>,
    pub hist: Histogram,
}

/// A named histogram family: children are created on first use, keyed by
/// their label values, and kept in order of first observation.
#[derive(Debug)]
pub struct Family {
    pub name: String,
    pub help: String,
    pub label_names: Vec<String>,
    pub children: Vec<FamilyChild>,
}

/// How one observation of `ms` under the label values `key` turns the
/// children `pre` into `post`: the one child already carrying `key` takes
/// the observation and everything else stays, or, where no child carries
/// `key`, a fresh child holding just this observation is appended.
pub open spec fn family_step(
    pre: Seq<FamilyChild>,
    post: Seq<FamilyChild>,
    key: Seq<Seq<char>>,
    ms: u64,
) -> bool {
    if exists|i: int| 0 <= i < pre.len() && labels_of(#[trigger] pre[i].labels) == key {
        exists|i: int|
            {
                &&& 0 <= i < pre.len()
                &&& labels_of(#[trigger] pre[i].labels) == key
                &&& post.len() == pre.len()
                &&& post[i].labels == pre[i].labels
                &&& hist_step(pre[i].hist, post[i].hist, ms)
                &&& forall|j: int| 0 <= j < pre.len() && j != i ==> post[j] == pre[j]
            }
    } else {
        &&& post.len() == pre.len() + 1
        &&& post.take(pre.len() as int) == pre
        &&& labels_of(post.last().labels) == key
        &&& post.last().labels@.len() == key.len()
        &&& hist_step(zero_hist(), post.last().hist, ms)
    }
}

impl Family {
    /// Children are well formed, carry exactly one value per label name, and
    /// no two children share the same label values.
    pub open spec fn wf(self) -> bool {
        &&& self.label_names@.len() >= 1
        &&& forall|i: int|
            0 <= i < self.children@.len() ==> (#[trigger] self.children@[i]).hist.wf()
        &&& forall|i: int|
            0 <= i < self.children@.len() ==> (#[trigger] self.children@[i]).labels@.len()
                == self.label_names@.len()
        &&& forall|i: int, j: int|
            0 <= i < j < self.children@.len() ==> labels_of(#[trigger] self.children@[i].labels)
                != labels_of(#[trigger] self.children@[j].labels)
    }

    /// One more observation under `key` still fits: the child carrying `key`,
    /// if any, has room, and so has the child list.
    pub open spec fn can_observe(self, key: Seq<Seq<char>>, ms: u64) -> bool {
        &&& self.children@.len() < usize::MAX
        &&& forall|i: int|
            0 <= i < self.children@.len() && labels_of(#[trigger] self.children@[i].labels) == key
                ==> self.children@[i].hist.can_observe(ms)
    }

    /// A fresh family with the given name, help text and label names, and no
    /// children yet.
    pub fn new(name: String, help: String, label_names: Vec<String>) -> (r: Family)
        requires
            label_names@.len() >= 1,
        ensures
            r.wf(),
            r.name == name,
            r.help == help,
            r.label_names == label_names,
            r.children@ == Seq::<FamilyChild>::empty(),
    {
        let r = Family { name, help, label_names, children: Vec::new() };
        proof {
            assert(r.children@ =~= Seq::<FamilyChild>::empty());
        }
        r
    }

    /// The position of the child carrying exactly these label values.
    fn find_child(&self, labels: &Vec<String>) -> (r: Option<usize>)
        ensures
            match r {
                Some(i) => i < self.children@.len() && labels_of(
                    self.children@[i as int].labels,
                ) == labels_of(*labels),
                None => forall|j: int|
                    0 <= j < self.children@.len() ==> labels_of(
                        #[trigger] self.children@[j].labels,
                    ) != labels_of(*labels),
            },
    {
        let n = self.children.len();
        let mut i: usize = 0;
        while i < n
            invariant
                i <= n,
                n == self.children@.len(),
                forall|j: int|
                    0 <= j < i ==> labels_of(#[trigger] self.children@[j].labels) != labels_of(
                        *labels,
                    ),
            decreases n - i,
        {
            if labels_eq(&self.children[i].labels, labels) {
                return Some(i);
            }
            i = i + 1;
        }
        None
    }

    /// Whether one observation of `ms` under these label values fits now.
    pub fn fits_observation(&self, labels: &Vec<String>, ms: u64) -> (r: bool)
        requires
            self.wf(),
        ensures
            r == self.can_observe(labels_of(*labels), ms),
    {
        if self.children.len() == usize::MAX {
            return false;
        }
        match self.find_child(labels) {
            Some(i) => {
                let h = &self.children[i].hist;
                let fits = h.count < u64::MAX && ms <= u64::MAX - h.sum;
                proof {
                    if fits {
                        assert forall|j: int|
                            0 <= j < self.children@.len() && labels_of(
                                #[trigger] self.children@[j].labels,
                            ) == labels_of(*labels) implies self.children@[j].hist.can_observe(
                            ms,
                        ) by {
                            if j != i {
                                assert(labels_of(self.children@[j].labels) != labels_of(
                                    self.children@[i as int].labels,
                                ));
                            }
                        }
                    }
                }
                fits
            },
            None => true,
        }
    }

    /// Records one observation of `ms` milliseconds under these label
    /// values, creating the child on first use.
    pub fn observe(&mut self, labels: Vec<String>, ms: u64)
        requires
            old(self).wf(),
            labels@.len() == old(self).label_names@.len(),
            old(self).can_observe(labels_of(labels), ms),
        ensures
            final(self).wf(),
            final(self).name == old(self).name,
            final(self).help == old(self).help,
            final(self).label_names == old(self).label_names,
            family_step(old(self).children@, final(self).children@, labels_of(labels), ms),
    {
        match self.find_child(&labels) {
            Some(i) => {
                let mut child = self.children.remove(i);
                child.hist.observe(ms);
                self.children.insert(i, child);
                proof {
                    let updated = self.children@[i as int];
                    assert(self.children@ =~= old(self).children@.update(i as int, updated));
                    assert(labels_of(old(self).children@[i as int].labels) == labels_of(labels));
                    assert(family_step(
                        old(self).children@,
                        self.children@,
                        labels_of(labels),
                        ms,
                    ));
                }
            },
            None => {
                let mut h = Histogram::new();
                h.observe(ms);
                self.children.push(FamilyChild { labels, hist: h });
                proof {
                    assert(self.children@.take(old(self).children@.len() as int) =~= old(
                        self,
                    ).children@);
                }
            },
        }
    }
}

/// Element-wise equality of two label value lists.
fn labels_eq(a: &Vec<String>, b: &Vec<String>) -> (r: bool)
    ensures
        r == (labels_of(*a) == labels_of(*b)),
{
    if a.len() != b.len() {
        return false;
    }
    let n = a.len();
    let mut i: usize = 0;
    while i < n
        invariant
            i <= n,
            n == a@.len(),
            a@.len() == b@.len(),
            forall|j: int| 0 <= j < i ==> a@[j]@ == b@[j]@,
        decreases n - i,
    {
        if !(a[i] == b[i]) {
            proof {
                assert(labels_of(*a)[i as int] != labels_of(*b)[i as int]);
            }
            return false;
        }
        i = i + 1;
    }
    proof {
        assert(labels_of(*a) =~= labels_of(*b));
    }
    true
}

/// The whole collector: the four per-route histogram families and the
/// process-lifetime request counter.
#[derive(Debug)]
pub struct MetricsRegistry {
    pub new_order: Family,
    pub modify: Family,
    pub cancel: Family,
    pub depth: Family,
    pub request_counter: u64,
}

impl MetricsRegistry {
    pub open spec fn wf(self) -> bool {
        &&& self.new_order.wf()
        &&& self.new_order.label_names@.len() == 2
        &&& self.modify.wf()
        &&& self.modify.label_names@.len() == 1
        &&& self.cancel.wf()
        &&& self.cancel.label_names@.len() == 1
        &&& self.depth.wf()
        &&& self.depth.label_names@.len() == 2
    }

    /// Builds the registry with the four fixed families, all empty, and the
    /// counter at zero.
    pub fn new() -> (r: MetricsRegistry)
        ensures
            r.wf(),
            r.request_counter == 0,
            r.new_order.name@ == "new_order_total_duration_ms"@,
            r.new_order.help@ == "total time from http request to response for new order"@,
            labels_of(r.new_order.label_names) =~= seq!["order_type"@, "status"@],
            r.new_order.children@ == Seq::<FamilyChild>::empty(),
            r.modify.name@ == "modify_order_total_duration_ms"@,
            r.modify.help@ == "total time from http request to response for modify order"@,
            labels_of(r.modify.label_names) =~= seq!["status"@],
            r.modify.children@ == Seq::<FamilyChild>::empty(),
            r.cancel.name@ == "cancel_order_total_duration_ms"@,
            r.cancel.help@ == "total time from http request to response for cancel order"@,
            labels_of(r.cancel.label_names) =~= seq!["status"@],
            r.cancel.children@ == Seq::<FamilyChild>::empty(),
            r.depth.name@ == "depth_total_duration_ms"@,
            r.depth.help@ == "total time from http request to response for depth"@,
            labels_of(r.depth.label_names) =~= seq!["asset_name"@, "status"@],
            r.depth.children@ == Seq::<FamilyChild>::empty(),
            r.new_order.label_names@.len() == 2,
            r.modify.label_names@.len() == 1,
            r.cancel.label_names@.len() == 1,
            r.depth.label_names@.len() == 2,
    {
        let mut new_order_labels: Vec<String> = Vec::new();
        new_order_labels.push("order_type".to_owned());
        new_order_labels.push("status".to_owned());
        let mut modify_labels: Vec<String> = Vec::new();
        modify_labels.push("status".to_owned());
        let mut cancel_labels: Vec<String> = Vec::new();
        cancel_labels.push("status".to_owned());
        let mut depth_labels: Vec<String> = Vec::new();
        depth_labels.push("asset_name".to_owned());
        depth_labels.push("status".to_owned());
        MetricsRegistry {
            new_order: Family::new(
                "new_order_total_duration_ms".to_owned(),
                "total time from http request to response for new order".to_owned(),
                new_order_labels,
            ),
            modify: Family::new(
                "modify_order_total_duration_ms".to_owned(),
                "total time from http request to response for modify order".to_owned(),
                modify_labels,
            ),
            cancel: Family::new(
                "cancel_order_total_duration_ms".to_owned(),
                "total time from http request to response for cancel order".to_owned(),
                cancel_labels,
            ),
            depth: Family::new(
                "depth_total_duration_ms".to_owned(),
                "total time from http request to response for depth".to_owned(),
                depth_labels,
            ),
            request_counter: 0,
        }
    }
}

} // verus!
