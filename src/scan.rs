//! Counting the visible entries of a directory, one entry at a time.
use vstd::prelude::*;

verus! {

/// A name is hidden when it starts with a dot.
pub open spec fn is_visible(name: Seq<char>) -> bool {
    !(name.len() > 0 && name[0] == '.')
}

/// The number of visible names in `names`.
pub open spec fn visible_count(names: Seq<Seq<char>>) -> nat
    decreases names.len(),
{
    if names.len() == 0 {
        0
    } else {
        visible_count(names.drop_last()) + if is_visible(names.last()) {
            1nat
        } else {
            0nat
        }
    }
}

/// Whether an entry of this name is left out of the count.
pub fn is_hidden(name: &str) -> (r: bool)
    ensures
        r == !is_visible(name@),
{
    let mut chars = name.chars();
    match chars.next() {
        Some(c) => c == '.',
        None => false,
    }
}

/// How a count of entries ended.
#[derive(Debug, Clone, Copy, PartialEq, Eq, Structural)]
pub enum CountResult {
    /// Every entry was seen: the number of visible ones.
    Count(usize),
    /// The time budget ran out first: the visible entries seen until then.
    TimeLimitExceeded(usize),
}

/// Whether `elapsed_nanos`, the time since counting began, is past a budget of
/// `time_limit_ms` milliseconds. Without a budget it never is.
pub open spec fn over_budget(elapsed_nanos: int, time_limit_ms: Option<u64>) -> bool {
    match time_limit_ms {
        Some(ms) => elapsed_nanos > ms * 1_000_000,
        None => false,
    }
}

/// Whether the time since counting began is past the budget.
pub fn budget_exceeded(elapsed_nanos: u128, time_limit_ms: Option<u64>) -> (r: bool)
    ensures
        r == over_budget(elapsed_nanos as int, time_limit_ms),
{
    match time_limit_ms {
        Some(ms) => elapsed_nanos > (ms as u128) * 1_000_000,
        None => false,
    }
}

/// The running state of one count: the names seen so far and the budget.
/// The caller reads the clock before each entry, asks `deadline_passed`, and
/// either stops with `interrupt` or hands the entry's name to `observe`.
pub struct EntryCounter {
    count: usize,
    time_limit_ms: Option<u64>,
    seen: Ghost<Seq<Seq<char>>>,
}

impl EntryCounter {
    /// The names handed to `observe`, in order.
    pub closed spec fn seen(&self) -> Seq<Seq<char>> {
        self.seen@
    }

    /// The budget in milliseconds, if any.
    pub closed spec fn time_limit(&self) -> Option<u64> {
        self.time_limit_ms
    }

    pub closed spec fn wf(&self) -> bool {
        self.count == visible_count(self.seen@)
    }

    /// A count that has seen no entry yet.
    pub fn new(time_limit_ms: Option<u64>) -> (r: Self)
        ensures
            r.wf(),
            r.seen() == Seq::<Seq<char>>::empty(),
            r.time_limit() == time_limit_ms,
    {
        EntryCounter { count: 0, time_limit_ms, seen: Ghost(Seq::empty()) }
    }

    /// The number of visible names seen so far.
    pub fn count(&self) -> (r: usize)
        requires
            self.wf(),
        ensures
            r == visible_count(self.seen()),
    {
        self.count
    }

    /// Whether counting must stop before the next entry, `elapsed_nanos`
    /// after it began.
    pub fn deadline_passed(&self, elapsed_nanos: u128) -> (r: bool)
        ensures
            r == over_budget(elapsed_nanos as int, self.time_limit()),
    {
        budget_exceeded(elapsed_nanos, self.time_limit_ms)
    }

    /// Takes in the next entry's name.
    pub fn observe(&mut self, name: &str)
        requires
            old(self).wf(),
            visible_count(old(self).seen()) < usize::MAX,
        ensures
            final(self).wf(),
            final(self).seen() == old(self).seen().push(name@),
            final(self).time_limit() == old(self).time_limit(),
    {
        let ghost prev = self.seen@;
        self.seen = Ghost(prev.push(name@));
        assert(self.seen@.drop_last() == prev);
        if !is_hidden(name) {
            self.count = self.count + 1;
        }
    }

    /// The outcome when every entry has been seen.
    pub fn finish(&self) -> (r: CountResult)
        requires
            self.wf(),
        ensures
            r == CountResult::Count(visible_count(self.seen()) as usize),
    {
        CountResult::Count(self.count)
    }

    /// The outcome when the budget ran out before the next entry.
    pub fn interrupt(&self) -> (r: CountResult)
        requires
            self.wf(),
        ensures
            r == CountResult::TimeLimitExceeded(visible_count(self.seen()) as usize),
    {
        CountResult::TimeLimitExceeded(self.count)
    }
}

/// One step of a directory walk: the time since counting began, read just
/// before the entry was taken, and the entry's name.
pub struct EntryProbe {
    pub elapsed_nanos: u128,
    pub name: String,
}

/// The names of a walk, in order.
pub open spec fn probe_names(trace: Seq<EntryProbe>) -> Seq<Seq<char>> {
    trace.map_values(|p: EntryProbe| p.name@)
}

/// The index of the first step taken past the budget, or the walk's length
/// if there is none.
pub open spec fn deadline_index(trace: Seq<EntryProbe>, time_limit_ms: Option<u64>) -> nat
    decreases trace.len(),
{
    if trace.len() == 0 {
        0
    } else if over_budget(trace[0].elapsed_nanos as int, time_limit_ms) {
        0
    } else {
        1 + deadline_index(trace.drop_first(), time_limit_ms)
    }
}

/// The outcome of counting a walk: the visible names before the first step
/// past the budget, and whether the budget ran out.
pub open spec fn scan_outcome(trace: Seq<EntryProbe>, time_limit_ms: Option<u64>) -> CountResult {
    let k = deadline_index(trace, time_limit_ms);
    let c = visible_count(probe_names(trace.take(k as int)));
    if k < trace.len() {
        CountResult::TimeLimitExceeded(c as usize)
    } else {
        CountResult::Count(c as usize)
    }
}

proof fn lemma_visible_count_le_len(names: Seq<Seq<char>>)
    ensures
        visible_count(names) <= names.len(),
    decreases names.len(),
{
    if names.len() > 0 {
        lemma_visible_count_le_len(names.drop_last());
    }
}

proof fn lemma_visible_count_prefix(names: Seq<Seq<char>>, k: int)
    requires
        0 <= k <= names.len(),
    ensures
        visible_count(names.take(k)) <= visible_count(names),
    decreases names.len(),
{
    if k < names.len() {
        assert(names.drop_last().take(k) == names.take(k));
        lemma_visible_count_prefix(names.drop_last(), k);
    } else {
        assert(names.take(k) == names);
    }
}

proof fn lemma_deadline_index(trace: Seq<EntryProbe>, time_limit_ms: Option<u64>, i: int)
    requires
        0 <= i <= trace.len(),
        forall|j: int| 0 <= j < i ==> !over_budget(#[trigger] trace[j].elapsed_nanos as int, time_limit_ms),
        i < trace.len() ==> over_budget(trace[i].elapsed_nanos as int, time_limit_ms),
    ensures
        deadline_index(trace, time_limit_ms) == i,
    decreases i,
{
    if i > 0 {
        let rest = trace.drop_first();
        assert forall|j: int| 0 <= j < i - 1 implies !over_budget(#[trigger] rest[j].elapsed_nanos as int, time_limit_ms) by {
            assert(rest[j] == trace[j + 1]);
        }
        lemma_deadline_index(rest, time_limit_ms, i - 1);
    }
}

/// Counts the visible entries of a walk, stopping before the first step
/// taken past the budget.
pub fn count_entries(entries: &Vec<EntryProbe>, time_limit_ms: Option<u64>) -> (r: CountResult)
    ensures
        r == scan_outcome(entries@, time_limit_ms),
{
    let mut counter = EntryCounter::new(time_limit_ms);
    let mut i: usize = 0;
    while i < entries.len()
        invariant
            counter.wf(),
            counter.time_limit() == time_limit_ms,
            0 <= i <= entries@.len(),
            counter.seen() == probe_names(entries@.take(i as int)),
            forall|j: int| 0 <= j < i ==> !over_budget(#[trigger] entries@[j].elapsed_nanos as int, time_limit_ms),
        decreases entries@.len() - i,
    {
        if counter.deadline_passed(entries[i].elapsed_nanos) {
            proof {
                lemma_deadline_index(entries@, time_limit_ms, i as int);
            }
            return counter.interrupt();
        }
        proof {
            lemma_visible_count_le_len(counter.seen());
        }
        counter.observe(entries[i].name.as_str());
        assert(probe_names(entries@.take(i + 1)) == probe_names(entries@.take(i as int)).push(entries@[i as int].name@));
        i = i + 1;
    }
    proof {
        lemma_deadline_index(entries@, time_limit_ms, i as int);
        assert(entries@.take(i as int) == entries@);
    }
    counter.finish()
}

/// Without a budget, counting sees every entry and reports the number of
/// visible names.
pub proof fn lemma_unbounded_scan_counts_all(trace: Seq<EntryProbe>)
    ensures
        scan_outcome(trace, None) == CountResult::Count(visible_count(probe_names(trace)) as usize),
{
    lemma_deadline_index(trace, None, trace.len() as int);
    assert(trace.take(trace.len() as int) == trace);
}

/// When some step of a walk comes past the budget, counting reports that the
/// budget ran out, with a partial count no larger than the number of visible
/// names in the whole walk.
pub proof fn lemma_partial_count_is_lower_bound(trace: Seq<EntryProbe>, time_limit_ms: Option<u64>)
    requires
        trace.len() <= usize::MAX,
        exists|i: int| 0 <= i < trace.len() && over_budget(#[trigger] trace[i].elapsed_nanos as int, time_limit_ms),
    ensures
        scan_outcome(trace, time_limit_ms) is TimeLimitExceeded,
        scan_outcome(trace, time_limit_ms)->TimeLimitExceeded_0 <= visible_count(probe_names(trace)),
{
    let i = choose|i: int| 0 <= i < trace.len() && over_budget(#[trigger] trace[i].elapsed_nanos as int, time_limit_ms);
    lemma_first_over_budget(trace, time_limit_ms, i);
    let k = deadline_index(trace, time_limit_ms) as int;
    assert(probe_names(trace.take(k)) == probe_names(trace).take(k));
    lemma_visible_count_prefix(probe_names(trace), k);
    lemma_visible_count_le_len(probe_names(trace));
}

proof fn lemma_first_over_budget(trace: Seq<EntryProbe>, time_limit_ms: Option<u64>, i: int)
    requires
        0 <= i < trace.len(),
        over_budget(trace[i].elapsed_nanos as int, time_limit_ms),
    ensures
        deadline_index(trace, time_limit_ms) <= i,
    decreases i,
{
    if i > 0 && !over_budget(trace[0].elapsed_nanos as int, time_limit_ms) {
        assert(trace.drop_first()[i - 1] == trace[i]);
        lemma_first_over_budget(trace.drop_first(), time_limit_ms, i - 1);
    }
}

proof fn lemma_visible_count_remove(names: Seq<Seq<char>>, j: int)
    requires
        0 <= j < names.len(),
    ensures
        visible_count(names) == visible_count(names.remove(j)) + if is_visible(names[j]) {
            1nat
        } else {
            0nat
        },
    decreases names.len(),
{
    if j == names.len() - 1 {
        assert(names.remove(j) == names.drop_last());
    } else {
        let r = names.remove(j);
        assert(r.drop_last() == names.drop_last().remove(j));
        assert(r.last() == names.last());
        lemma_visible_count_remove(names.drop_last(), j);
    }
}

proof fn lemma_visible_count_permutation(a: Seq<Seq<char>>, b: Seq<Seq<char>>)
    requires
        a.to_multiset() == b.to_multiset(),
    ensures
        visible_count(a) == visible_count(b),
    decreases a.len(),
{
    broadcast use vstd::seq_lib::group_to_multiset_ensures;

    if a.len() == 0 {
        assert(b.to_multiset().len() == a.len());
    } else {
        let x = a.last();
        let rest = a.drop_last();
        assert(rest.push(x) == a);
        assert(a.to_multiset() == rest.to_multiset().insert(x));
        assert(b.to_multiset().count(x) > 0);
        assert(b.contains(x));
        let j = choose|j: int| 0 <= j < b.len() && b[j] == x;
        assert(b.remove(j).to_multiset() == b.to_multiset().remove(x));
        assert(rest.to_multiset().insert(x).remove(x) =~= rest.to_multiset());
        lemma_visible_count_permutation(rest, b.remove(j));
        lemma_visible_count_remove(b, j);
    }
}

/// Without a budget the outcome depends only on which names the walk holds,
/// not on their order or on the times read: counting an unchanged directory
/// again gives the same outcome.
pub proof fn lemma_unbounded_scan_is_repeatable(first: Seq<EntryProbe>, again: Seq<EntryProbe>)
    requires
        probe_names(first).to_multiset() == probe_names(again).to_multiset(),
    ensures
        scan_outcome(first, None) == scan_outcome(again, None),
{
    lemma_unbounded_scan_counts_all(first);
    lemma_unbounded_scan_counts_all(again);
    lemma_visible_count_permutation(probe_names(first), probe_names(again));
}

} // verus!
