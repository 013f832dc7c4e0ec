//! The subscription registry: the owner of the topic-to-subscribers mapping.
//!
//! Mathematically the registry is a finite map from `(topic, url)` pairs to
//! display names: a topic's subscriber set is the collection of `(url, name)`
//! pairs registered under it, and within one topic no two subscribers share a
//! URL, so the pair `(topic, url)` identifies a registration. The executable
//! representation is a vector of registrations with pairwise distinct
//! `(topic, url)` keys; `view` folds it into the map.

use crate::subscriber::Subscriber;
use vstd::prelude::*;

verus! {

/// Why a registry operation was refused.
///
/// `NotFound`: `unsubscribe` named a `(topic, url)` pair with no current
/// registration. `Conflict`: `subscribe` named a `(topic, url)` pair that is
/// already registered (a duplicate subscription is rejected, never updated
/// in place).
#[derive(Debug, Clone, Copy, PartialEq, Eq, Structural)]
pub enum RegistryError {
    NotFound,
    Conflict,
}

impl RegistryError {
    /// The human-readable message that accompanies the error kind on the
    /// transport boundary.
    pub fn message(&self) -> (m: String)
        ensures
            self is NotFound ==> m@ == "subscriber not found for this product type and url"@,
            self is Conflict ==> m@ == "subscriber already registered for this product type and url"@,
    {
        match self {
            RegistryError::NotFound => "subscriber not found for this product type and url".to_owned(),
            RegistryError::Conflict => "subscriber already registered for this product type and url".to_owned(),
        }
    }
}

/// One registration: a subscriber recorded under a topic.
pub struct Registration {
    pub topic: String,
    pub subscriber: Subscriber,
}

/// The `(topic, url)` key that identifies a registration.
pub open spec fn reg_key(r: Registration) -> (Seq<char>, Seq<char>) {
    (r.topic@, r.subscriber.url@)
}

/// The map that a sequence of registrations denotes: each `(topic, url)`
/// key is bound to the display name registered last.
pub open spec fn reg_map(s: Seq<Registration>) -> Map<(Seq<char>, Seq<char>), Seq<char>>
    decreases s.len(),
{
    if s.len() == 0 {
        Map::empty()
    } else {
        reg_map(s.drop_last()).insert(reg_key(s.last()), s.last().subscriber.name@)
    }
}

/// No two registrations in `s` share a `(topic, url)` key.
pub open spec fn distinct_keys(s: Seq<Registration>) -> bool {
    forall|i: int, j: int|
        0 <= i < j < s.len() ==> reg_key(s[i]) != reg_key(s[j])
}

/// A key is in the map exactly when some registration carries it.
proof fn lemma_reg_map_contains(s: Seq<Registration>, k: (Seq<char>, Seq<char>))
    ensures
        reg_map(s).contains_key(k) <==> exists|i: int| 0 <= i < s.len() && reg_key(s[i]) == k,
    decreases s.len(),
{
    if s.len() > 0 {
        lemma_reg_map_contains(s.drop_last(), k);
        if reg_key(s.last()) == k {
            assert(reg_key(s[s.len() - 1]) == k);
        } else if reg_map(s).contains_key(k) {
            let i = choose|i: int| 0 <= i < s.drop_last().len() && reg_key(s.drop_last()[i]) == k;
            assert(reg_key(s[i]) == k);
        } else {
            assert forall|i: int| 0 <= i < s.len() implies reg_key(s[i]) != k by {
                if i < s.len() - 1 {
                    assert(s.drop_last()[i] == s[i]);
                }
            }
        }
    }
}

/// Distinctness carries over to the sequence without its last registration,
/// and the remaining map does not hold the dropped registration's key.
proof fn lemma_distinct_keys_drop_last(s: Seq<Registration>)
    requires
        distinct_keys(s),
        s.len() > 0,
    ensures
        distinct_keys(s.drop_last()),
        !reg_map(s.drop_last()).contains_key(reg_key(s.last())),
{
    assert forall|p: int, q: int|
        0 <= p < q < s.drop_last().len() implies reg_key(s.drop_last()[p]) != reg_key(
        s.drop_last()[q],
    ) by {
        assert(s.drop_last()[p] == s[p] && s.drop_last()[q] == s[q]);
    }
    lemma_reg_map_contains(s.drop_last(), reg_key(s.last()));
    assert forall|j: int|
        0 <= j < s.drop_last().len() implies reg_key(s.drop_last()[j]) != reg_key(s.last()) by {
        assert(s.drop_last()[j] == s[j] && s.last() == s[s.len() - 1]);
    }
}

/// Under distinct keys, the map binds each registration's key to its name.
proof fn lemma_reg_map_value(s: Seq<Registration>, i: int)
    requires
        distinct_keys(s),
        0 <= i < s.len(),
    ensures
        reg_map(s).contains_key(reg_key(s[i])),
        reg_map(s)[reg_key(s[i])] == s[i].subscriber.name@,
    decreases s.len(),
{
    lemma_reg_map_contains(s, reg_key(s[i]));
    if i < s.len() - 1 {
        lemma_distinct_keys_drop_last(s);
        assert(s.drop_last()[i] == s[i]);
        lemma_reg_map_value(s.drop_last(), i);
        assert(reg_key(s[i]) != reg_key(s[s.len() - 1]));
    }
}

/// Removing the registration at `i` removes exactly its key from the map.
proof fn lemma_reg_map_remove(s: Seq<Registration>, i: int)
    requires
        distinct_keys(s),
        0 <= i < s.len(),
    ensures
        reg_map(s.remove(i)) == reg_map(s).remove(reg_key(s[i])),
        distinct_keys(s.remove(i)),
    decreases s.len(),
{
    assert(distinct_keys(s.remove(i))) by {
        assert forall|p: int, q: int|
            0 <= p < q < s.remove(i).len() implies reg_key(s.remove(i)[p]) != reg_key(
            s.remove(i)[q],
        ) by {
            let p0: int = if p < i { p } else { p + 1 };
            let q0: int = if q < i { q } else { q + 1 };
            assert(s.remove(i)[p] == s[p0] && s.remove(i)[q] == s[q0]);
        }
    }
    lemma_distinct_keys_drop_last(s);
    if i == s.len() - 1 {
        assert(s.remove(i) =~= s.drop_last());
        assert(reg_map(s).remove(reg_key(s[i])) =~= reg_map(s.drop_last()));
    } else {
        assert(s.drop_last()[i] == s[i]);
        lemma_reg_map_remove(s.drop_last(), i);
        assert(s.remove(i).drop_last() =~= s.drop_last().remove(i));
        assert(s.remove(i).last() == s.last());
        assert(reg_key(s[i]) != reg_key(s[s.len() - 1]));
        assert(reg_map(s.remove(i)) =~= reg_map(s).remove(reg_key(s[i])));
    }
}

/// The subscription registry. Its view is the finite map from `(topic, url)`
/// pairs to display names; a topic exists exactly as far as it has
/// subscribers, and within a topic each URL is registered at most once.
pub struct Registry {
    entries: Vec<Registration>,
}

impl Registry {
    /// The map from `(topic, url)` to the registered display name.
    pub closed spec fn view(&self) -> Map<(Seq<char>, Seq<char>), Seq<char>> {
        reg_map(self.entries@)
    }

    /// Well-formedness: no `(topic, url)` pair is registered twice.
    pub closed spec fn wf(&self) -> bool {
        distinct_keys(self.entries@)
    }

    /// An empty registry: no topic has any subscriber.
    pub fn new() -> (r: Registry)
        ensures
            r.wf(),
            r@ == Map::<(Seq<char>, Seq<char>), Seq<char>>::empty(),
    {
        Registry { entries: Vec::new() }
    }

    /// The index of the registration for `(topic, url)`, if there is one.
    fn find(&self, topic: &String, url: &String) -> (r: Option<usize>)
        ensures
            match r {
                Some(i) => i < self.entries@.len() && reg_key(self.entries@[i as int]) == (
                topic@,
                url@,
                ),
                None => forall|i: int|
                    0 <= i < self.entries@.len() ==> reg_key(self.entries@[i]) != (topic@, url@),
            },
    {
        let mut j: usize = 0;
        while j < self.entries.len()
            invariant
                j <= self.entries@.len(),
                forall|i: int| 0 <= i < j ==> reg_key(self.entries@[i]) != (topic@, url@),
            decreases self.entries@.len() - j,
        {
            let e = &self.entries[j];
            if e.topic == *topic && e.subscriber.url == *url {
                return Some(j);
            }
            j += 1;
        }
        None
    }

    /// Registers `subscriber` under `topic` and returns the stored record,
    /// unless the topic already has a subscriber with the same URL, in which
    /// case nothing changes and the call is refused with `Conflict`.
    pub fn subscribe(&mut self, topic: &String, subscriber: Subscriber) -> (r: Result<
        Subscriber,
        RegistryError,
    >)
        requires
            old(self).wf(),
        ensures
            final(self).wf(),
            match r {
                Ok(s) => !old(self)@.contains_key((topic@, subscriber.url@)) && s.url@
                    == subscriber.url@ && s.name@ == subscriber.name@ && final(self)@ == old(
                    self,
                )@.insert((topic@, subscriber.url@), subscriber.name@),
                Err(e) => e == RegistryError::Conflict && old(self)@.contains_key(
                    (topic@, subscriber.url@),
                ) && final(self)@ == old(self)@,
            },
    {
        proof {
            lemma_reg_map_contains(self.entries@, (topic@, subscriber.url@));
        }
        match self.find(topic, &subscriber.url) {
            Some(_) => Err(RegistryError::Conflict),
            None => {
                let stored = subscriber.clone();
                let reg = Registration { topic: topic.clone(), subscriber };
                let ghost s0 = self.entries@;
                self.entries.push(reg);
                proof {
                    assert(self.entries@.drop_last() =~= s0);
                    assert forall|p: int, q: int|
                        0 <= p < q < self.entries@.len() implies reg_key(self.entries@[p])
                        != reg_key(self.entries@[q]) by {
                        if q < self.entries@.len() - 1 {
                            assert(s0[p] == self.entries@[p] && s0[q] == self.entries@[q]);
                        }
                    }
                }
                Ok(stored)
            },
        }
    }

    /// Removes the subscriber registered under `(topic, url)` and returns the
    /// removed record; if no such registration exists, nothing changes and the
    /// call fails with `NotFound`.
    pub fn unsubscribe(&mut self, topic: &String, url: &String) -> (r: Result<
        Subscriber,
        RegistryError,
    >)
        requires
            old(self).wf(),
        ensures
            final(self).wf(),
            match r {
                Ok(s) => old(self)@.contains_key((topic@, url@)) && s.url@ == url@ && s.name@
                    == old(self)@[(topic@, url@)] && final(self)@ == old(self)@.remove(
                    (topic@, url@),
                ),
                Err(e) => e == RegistryError::NotFound && !old(self)@.contains_key((topic@, url@))
                    && final(self)@ == old(self)@,
            },
    {
        proof {
            lemma_reg_map_contains(self.entries@, (topic@, url@));
        }
        match self.find(topic, url) {
            None => Err(RegistryError::NotFound),
            Some(i) => {
                proof {
                    lemma_reg_map_value(self.entries@, i as int);
                    lemma_reg_map_remove(self.entries@, i as int);
                }
                let reg = self.entries.remove(i);
                Ok(reg.subscriber)
            },
        }
    }

    /// Whether `(topic, url)` is currently registered.
    pub fn contains(&self, topic: &String, url: &String) -> (b: bool)
        ensures
            b == self@.contains_key((topic@, url@)),
    {
        proof {
            lemma_reg_map_contains(self.entries@, (topic@, url@));
        }
        self.find(topic, url).is_some()
    }

    /// A copy of the record registered under `(topic, url)`, if there is one.
    pub fn get(&self, topic: &String, url: &String) -> (r: Option<Subscriber>)
        requires
            self.wf(),
        ensures
            match r {
                Some(s) => self@.contains_key((topic@, url@)) && s.url@ == url@ && s.name@
                    == self@[(topic@, url@)],
                None => !self@.contains_key((topic@, url@)),
            },
    {
        proof {
            lemma_reg_map_contains(self.entries@, (topic@, url@));
        }
        match self.find(topic, url) {
            Some(i) => {
                proof {
                    lemma_reg_map_value(self.entries@, i as int);
                }
                let e = &self.entries[i];
                Some(e.subscriber.clone())
            },
            None => None,
        }
    }

    /// How many registrations the registry holds, over all topics.
    pub fn len(&self) -> (n: usize)
        requires
            self.wf(),
        ensures
            n == self@.dom().len(),
    {
        proof {
            lemma_reg_map_len(self.entries@);
        }
        self.entries.len()
    }
}

/// Under distinct keys the map has exactly one entry per registration.
proof fn lemma_reg_map_len(s: Seq<Registration>)
    requires
        distinct_keys(s),
    ensures
        reg_map(s).dom().finite(),
        reg_map(s).dom().len() == s.len(),
    decreases s.len(),
{
    if s.len() > 0 {
        lemma_distinct_keys_drop_last(s);
        lemma_reg_map_len(s.drop_last());
        assert(reg_map(s).dom() =~= reg_map(s.drop_last()).dom().insert(reg_key(s.last())));
    }
}

/// The subscriber set of `topic` in a registry view: the map from each URL
/// registered under `topic` to its display name. A topic that no registration
/// names has the empty subscriber set.
pub open spec fn topic_subscribers(
    m: Map<(Seq<char>, Seq<char>), Seq<char>>,
    topic: Seq<char>,
) -> Map<Seq<char>, Seq<char>> {
    Map::new(|u: Seq<char>| m.contains_key((topic, u)), |u: Seq<char>| m.index((topic, u)))
}

/// Law: subscribing a `(topic, url)` pair that is not currently registered
/// and then unsubscribing the same pair leaves the registry — and so the
/// topic's subscriber set — exactly as it was before the subscribe.
/// `Registry::subscribe` states that a successful call turns the view `m`
/// into `m.insert((topic, url), name)`, and `Registry::unsubscribe` that it
/// turns the view into its `remove` of the same key.
pub proof fn lemma_subscribe_then_unsubscribe(
    m: Map<(Seq<char>, Seq<char>), Seq<char>>,
    topic: Seq<char>,
    url: Seq<char>,
    name: Seq<char>,
)
    requires
        !m.contains_key((topic, url)),
    ensures
        m.insert((topic, url), name).remove((topic, url)) == m,
        topic_subscribers(m.insert((topic, url), name).remove((topic, url)), topic)
            == topic_subscribers(m, topic),
{
    assert(m.insert((topic, url), name).remove((topic, url)) =~= m);
}

} // verus!
