//! What the broker keeps of each session and decides when a session
//! registers.
use bytes::Bytes;
use vstd::prelude::*;

verus! {

broadcast use vstd::string::group_string_axioms;

/// What the broker sends to a session.
#[derive(Debug)]
pub enum BrokerEvent {
    /// A message published on a topic the session subscribed to.
    Publish(String, Option<Bytes>),
}

/// Whether a client that registers finds its session present: only when a
/// session under its client identifier already existed and the client did
/// not ask for a clean start.
pub fn session_present(previous_session: bool, clean_start: bool) -> (res: bool)
    ensures
        res == (previous_session && !clean_start),
{
    if previous_session {
        !clean_start
    } else {
        false
    }
}

/// The topic filters a session subscribed to, each kept once.
pub struct Subscriptions {
    filters: Vec<String>,
}

impl View for Subscriptions {
    type V = Set<Seq<char>>;

    closed spec fn view(&self) -> Set<Seq<char>> {
        Set::new(|t: Seq<char>| exists|i: int| 0 <= i < self.filters@.len() && self.filters@[i]@ == t)
    }
}

impl Subscriptions {
    /// No topic filter is kept twice.
    pub closed spec fn well_formed(&self) -> bool {
        forall|i: int, j: int|
            0 <= i < j < self.filters@.len() ==> self.filters@[i]@ != self.filters@[j]@
    }

    /// The number of topic filters kept.
    pub closed spec fn count(&self) -> nat {
        self.filters@.len()
    }

    /// No subscription.
    pub fn new() -> (res: Self)
        ensures
            res.well_formed(),
            res@ == Set::<Seq<char>>::empty(),
            res.count() == 0,
    {
        let res = Subscriptions { filters: Vec::new() };
        assert(res@ =~= Set::<Seq<char>>::empty());
        res
    }

    /// Whether the topic filter is among the subscriptions.
    pub fn contains(&self, topic_filter: &String) -> (res: bool)
        ensures
            res == self@.contains(topic_filter@),
    {
        let mut i: usize = 0;
        while i < self.filters.len()
            invariant
                0 <= i <= self.filters@.len(),
                forall|k: int| 0 <= k < i ==> self.filters@[k]@ != topic_filter@,
            decreases self.filters@.len() - i,
        {
            if self.filters[i] == *topic_filter {
                assert(self.filters@[i as int]@ == topic_filter@);
                return true;
            }
            i = i + 1;
        }
        false
    }

    /// Subscribes to the topic filter; a filter already there stays once.
    pub fn insert(&mut self, topic_filter: String)
        requires
            old(self).well_formed(),
        ensures
            final(self).well_formed(),
            final(self)@ == old(self)@.insert(topic_filter@),
            final(self).count() == old(self).count() + (if old(self)@.contains(topic_filter@) {
                0int
            } else {
                1int
            }),
    {
        if self.contains(&topic_filter) {
            return;
        }
        let ghost before = self.filters@;
        let ghost t = topic_filter@;
        self.filters.push(topic_filter);
        assert(self.filters@ == before.push(self.filters@.last()));
        assert(self@ =~= old(self)@.insert(t)) by {
            assert forall|x: Seq<char>| self@.contains(x) implies old(self)@.insert(t).contains(x) by {
                let i = choose|i: int| 0 <= i < self.filters@.len() && self.filters@[i]@ == x;
                if i < before.len() {
                    assert(before[i]@ == x);
                }
            }
            assert forall|x: Seq<char>| old(self)@.insert(t).contains(x) implies self@.contains(x) by {
                if x == t {
                    assert(self.filters@[before.len() as int]@ == x);
                } else {
                    let i = choose|i: int| 0 <= i < before.len() && before[i]@ == x;
                    assert(self.filters@[i]@ == x);
                }
            }
        }
    }
}

} // verus!
