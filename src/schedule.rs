//! The server's per-entity queue of time-stamped control inputs.

use vstd::prelude::*;

verus! {

/// Entries ordered by their time stamp, earliest first.
pub open spec fn is_time_ordered<T>(s: Seq<(u64, T)>) -> bool {
    forall|i: int, j: int| 0 <= i < j < s.len() ==> s[i].0 <= s[j].0
}

/// Length of the leading run of entries stamped at or before `now`.
pub open spec fn due_len<T>(s: Seq<(u64, T)>, now: u64) -> nat
    decreases s.len(),
{
    if s.len() == 0 {
        0
    } else if s[0].0 <= now {
        1 + due_len(s.drop_first(), now)
    } else {
        0
    }
}

proof fn lemma_due_len_bounds<T>(s: Seq<(u64, T)>, now: u64)
    ensures
        due_len(s, now) <= s.len(),
        forall|i: int| 0 <= i < due_len(s, now) ==> s[i].0 <= now,
        due_len(s, now) < s.len() ==> s[due_len(s, now) as int].0 > now,
    decreases s.len(),
{
    if s.len() > 0 && s[0].0 <= now {
        lemma_due_len_bounds(s.drop_first(), now);
        assert forall|i: int| 0 <= i < due_len(s, now) implies s[i].0 <= now by {
            if i > 0 {
                assert(s[i] == s.drop_first()[i - 1]);
            }
        }
    }
}

/// Inputs waiting for their time stamp to come due, kept in time order;
/// inputs with equal stamps keep the order in which they arrived.
pub struct InputSchedule<T> {
    entries: Vec<(u64, T)>,
}

impl<T> View for InputSchedule<T> {
    type V = Seq<(u64, T)>;

    closed spec fn view(&self) -> Seq<(u64, T)> {
        self.entries@
    }
}

impl<T> InputSchedule<T> {
    pub open spec fn wf(&self) -> bool {
        is_time_ordered(self@)
    }

    /// An empty schedule.
    pub fn new() -> (r: InputSchedule<T>)
        ensures
            r.wf(),
            r@ == Seq::<(u64, T)>::empty(),
    {
        InputSchedule { entries: Vec::new() }
    }

    /// Number of inputs still waiting.
    pub fn len(&self) -> (r: usize)
        ensures
            r == self@.len(),
    {
        self.entries.len()
    }

    /// Number of leading entries stamped at or before `now_ms`.
    fn due_count(&self, now_ms: u64) -> (k: usize)
        requires
            self.wf(),
        ensures
            k == due_len(self@, now_ms),
    {
        let ghost s = self@;
        proof {
            lemma_due_len_bounds(s, now_ms);
        }
        let n = self.entries.len();
        let mut k: usize = 0;
        while k < n && self.entries[k].0 <= now_ms
            invariant
                self@ == s,
                n == s.len(),
                k <= due_len(s, now_ms),
                due_len(s, now_ms) <= s.len(),
                forall|i: int| 0 <= i < due_len(s, now_ms) ==> s[i].0 <= now_ms,
                due_len(s, now_ms) < s.len() ==> s[due_len(s, now_ms) as int].0 > now_ms,
            decreases n - k,
        {
            k = k + 1;
        }
        k
    }

    /// Queues `input` to take effect at server time `t_ms`, behind every input
    /// stamped at or before `t_ms` and ahead of every later one.
    pub fn push(&mut self, t_ms: u64, input: T)
        requires
            old(self).wf(),
        ensures
            final(self).wf(),
            final(self)@ == old(self)@.insert(due_len(old(self)@, t_ms) as int, (t_ms, input)),
    {
        let ghost s = self@;
        let k = self.due_count(t_ms);
        proof {
            lemma_due_len_bounds(s, t_ms);
        }
        self.entries.insert(k, (t_ms, input));
        proof {
            let r = self@;
            assert forall|i: int, j: int| 0 <= i < j < r.len() implies r[i].0 <= r[j].0 by {
                if j < k {
                } else if j == k {
                    assert(r[i] == s[i]);
                } else if i == k {
                    assert(r[j] == s[j - 1]);
                    assert(s[k as int].0 > t_ms);
                    assert(s[k as int].0 <= s[j - 1].0);
                } else if i < k {
                    assert(r[i] == s[i]);
                    assert(r[j] == s[j - 1]);
                } else {
                    assert(r[i] == s[i - 1]);
                    assert(r[j] == s[j - 1]);
                }
            }
        }
    }

    /// Removes every input stamped at or before `now_ms`, in order, and
    /// returns the last of them: the one that becomes the active control.
    pub fn take_due(&mut self, now_ms: u64) -> (r: Option<T>)
        requires
            old(self).wf(),
        ensures
            final(self).wf(),
            final(self)@ == old(self)@.skip(due_len(old(self)@, now_ms) as int),
            due_len(old(self)@, now_ms) == 0 ==> r is None,
            due_len(old(self)@, now_ms) > 0 ==> r == Some(
                old(self)@[due_len(old(self)@, now_ms) - 1].1,
            ),
            forall|i: int| 0 <= i < final(self)@.len() ==> final(self)@[i].0 > now_ms,
    {
        let ghost s = self@;
        let k = self.due_count(now_ms);
        proof {
            lemma_due_len_bounds(s, now_ms);
        }
        let rest = self.entries.split_off(k);
        let last = self.entries.pop();
        self.entries = rest;
        proof {
            let r = self@;
            assert(r =~= s.skip(k as int));
            assert forall|i: int| 0 <= i < r.len() implies r[i].0 > now_ms by {
                assert(r[i] == s[k + i]);
                if i > 0 {
                    assert(s[k as int].0 <= s[k + i].0);
                }
            }
        }
        match last {
            Some(entry) => Some(entry.1),
            None => None,
        }
    }
}

} // verus!
