//! The subscriber record: a callback URL (its identity within a topic)
//! and a display name.

use vstd::prelude::*;

verus! {

/// A party registered under a topic: `url` is the callback endpoint and the
/// identity key within the topic's subscriber set; `name` is a display label.
#[derive(Debug)]
pub struct Subscriber {
    pub url: String,
    pub name: String,
}

impl Subscriber {
    pub fn new(url: String, name: String) -> (s: Subscriber)
        ensures
            s.url@ == url@,
            s.name@ == name@,
    {
        Subscriber { url, name }
    }
}

impl Clone for Subscriber {
    fn clone(&self) -> (s: Subscriber)
        ensures
            s.url@ == self.url@,
            s.name@ == self.name@,
    {
        Subscriber { url: self.url.clone(), name: self.name.clone() }
    }
}

} // verus!
