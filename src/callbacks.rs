use vstd::prelude::*;
use crate::keyed::{distinct_keys, lemma_entries_stay_distinct, with_entry, without_entry, KeyedList};

verus! {

/// Actions of subscribers, by subscriber id. A later registration under the
/// same id replaces the earlier action.
pub struct CallbackList<A> {
    actions: KeyedList<A>,
}

impl<A> View for CallbackList<A> {
    type V = Seq<(Seq<char>, A)>;

    closed spec fn view(&self) -> Seq<(Seq<char>, A)> {
        self.actions@
    }
}

impl<A> CallbackList<A> {
    pub fn new() -> (r: Self)
        ensures
            r@ == Seq::<(Seq<char>, A)>::empty(),
    {
        CallbackList { actions: KeyedList::new() }
    }

    /// Registers `action` under `id`, replacing any action registered there.
    pub fn add(&mut self, id: String, action: A)
        ensures
            final(self)@ == with_entry(old(self)@, id@, action),
            distinct_keys(old(self)@) ==> distinct_keys(final(self)@),
    {
        proof {
            if distinct_keys(self@) {
                lemma_entries_stay_distinct(self@, id@, action);
            }
        }
        let _ = self.actions.insert(id, action);
    }

    /// Removes the action registered under `id`, if any.
    pub fn remove(&mut self, id: &String)
        ensures
            final(self)@ == without_entry(old(self)@, id@),
            distinct_keys(old(self)@) ==> distinct_keys(final(self)@),
    {
        proof {
            if distinct_keys(self@) {
                lemma_entries_stay_distinct(self@, id@, arbitrary());
            }
        }
        let _ = self.actions.remove(id);
    }

    pub fn is_empty(&self) -> (r: bool)
        ensures
            r == (self@.len() == 0),
    {
        self.actions.is_empty()
    }

    pub fn len(&self) -> (r: usize)
        ensures
            r == self@.len(),
    {
        self.actions.len()
    }

    /// The registered actions, in order of first registration.
    pub fn actions(&self) -> (r: Vec<&A>)
        ensures
            r@.len() == self@.len(),
            forall|j: int| 0 <= j < r@.len() ==> *#[trigger] r@[j] == self@[j].1,
    {
        self.actions.values()
    }
}

} // verus!
