use vstd::prelude::*;
use crate::errors::OdinSentinelError;
use crate::keyed::{
    distinct_keys, key_index, lemma_entries_stay_distinct, lemma_key_index_props, lookup, with_entry,
    KeyedList,
};
use crate::sentinel::{PayloadTypes, Sentinel, SentinelUpdate};

verus! {

/// The store's entries after `u` was kept in the sentinel of its device.
pub open spec fn updated_with<P: PayloadTypes>(
    s: Seq<(Seq<char>, Sentinel<P>)>,
    t: Seq<(Seq<char>, Sentinel<P>)>,
    u: SentinelUpdate<P>,
    max_history: nat,
) -> bool {
    let i = key_index(s, u.spec_device_id());
    &&& 0 <= i < s.len()
    &&& t.len() == s.len()
    &&& forall|j: int| 0 <= j < s.len() && j != i ==> #[trigger] t[j] == s[j]
    &&& t[i].0 == s[i].0
    &&& s[i].1.kept_update(&t[i].1, u, max_history)
}

/// The sentinels by device id, in order of first insertion.
pub struct SentinelStore<P: PayloadTypes> {
    sentinels: KeyedList<Sentinel<P>>,
}

impl<P: PayloadTypes> View for SentinelStore<P> {
    type V = Seq<(Seq<char>, Sentinel<P>)>;

    closed spec fn view(&self) -> Seq<(Seq<char>, Sentinel<P>)> {
        self.sentinels@
    }
}

/// Device ids are distinct and every sentinel is well formed with bound `max_history`.
pub open spec fn store_wf<P: PayloadTypes>(s: Seq<(Seq<char>, Sentinel<P>)>, max_history: nat) -> bool {
    &&& distinct_keys(s)
    &&& forall|i: int| 0 <= i < s.len() ==> (#[trigger] s[i]).1.wf(max_history)
}

impl<P: PayloadTypes> SentinelStore<P> {
    /// Device ids are distinct and every sentinel is well formed with bound `max_history`.
    pub open spec fn wf(&self, max_history: nat) -> bool {
        store_wf(self@, max_history)
    }

    /// An empty store.
    pub fn new() -> (r: Self)
        ensures
            r@ == Seq::<(Seq<char>, Sentinel<P>)>::empty(),
    {
        SentinelStore { sentinels: KeyedList::new() }
    }

    /// Stores `v` under `k`, replacing and returning any sentinel stored there.
    pub fn insert(&mut self, k: String, v: Sentinel<P>) -> (r: Option<Sentinel<P>>)
        ensures
            final(self)@ == with_entry(old(self)@, k@, v),
            r == lookup(old(self)@, k@),
            forall|max_history: nat|
                old(self).wf(max_history) && v.wf(max_history) ==> #[trigger] final(self).wf(max_history),
    {
        let ghost kk = k@;
        let ghost vv = v;
        let r = self.sentinels.insert(k, v);
        proof {
            if distinct_keys(old(self)@) {
                lemma_entries_stay_distinct(old(self)@, kk, vv);
            }
            lemma_key_index_props(old(self)@, kk);
        }
        r
    }

    pub fn get(&self, k: &String) -> (r: Option<&Sentinel<P>>)
        ensures
            match r {
                Some(s) => lookup(self@, k@) == Some(*s),
                None => lookup(self@, k@) is None,
            },
    {
        self.sentinels.get(k)
    }

    pub fn get_mut(&mut self, k: &String) -> (r: Option<&mut Sentinel<P>>)
        ensures
            match r {
                Some(s) => {
                    &&& lookup(old(self)@, k@) == Some(*s)
                    &&& final(self)@ == old(self)@.update(key_index(old(self)@, k@), (k@, *final(s)))
                },
                None => {
                    &&& lookup(old(self)@, k@) is None
                    &&& final(self)@ == old(self)@
                },
            },
    {
        self.sentinels.get_mut(k)
    }

    /// The sentinel of device `k`, or `NoSuchDeviceError`.
    pub fn sentinel_of(&mut self, k: &String) -> (r: Result<&mut Sentinel<P>, OdinSentinelError>)
        ensures
            match r {
                Ok(s) => {
                    &&& lookup(old(self)@, k@) == Some(*s)
                    &&& final(self)@ == old(self)@.update(key_index(old(self)@, k@), (k@, *final(s)))
                },
                Err(e) => {
                    &&& lookup(old(self)@, k@) is None
                    &&& e is NoSuchDeviceError
                    &&& e->NoSuchDeviceError_0@ == k@
                    &&& final(self)@ == old(self)@
                },
            },
    {
        match self.sentinels.get_mut(k) {
            Some(s) => Ok(s),
            None => Err(OdinSentinelError::NoSuchDeviceError(k.clone())),
        }
    }

    /// The sentinels, in order of first insertion.
    pub fn values(&self) -> (r: Vec<&Sentinel<P>>)
        ensures
            r@.len() == self@.len(),
            forall|j: int| 0 <= j < r@.len() ==> *#[trigger] r@[j] == self@[j].1,
    {
        self.sentinels.values()
    }

    /// The device ids, in order of first insertion.
    pub fn get_device_ids(&self) -> (r: Vec<String>)
        ensures
            r@.map_values(|s: String| s@) == self@.map_values(|e: (Seq<char>, Sentinel<P>)| e.0),
    {
        self.sentinels.keys()
    }

    pub fn len(&self) -> (r: usize)
        ensures
            r == self@.len(),
    {
        self.sentinels.len()
    }

    /// Keeps the record of `u` in the sentinel of its device. Returns whether
    /// that sentinel holds the record afterwards, or `NoSuchDeviceError` with
    /// the store unchanged if no sentinel has that device id.
    pub fn update(&mut self, u: SentinelUpdate<P>, max_history: usize) -> (r: Result<bool, OdinSentinelError>)
        ensures
            lookup(old(self)@, u.spec_device_id()) is None <==> r is Err,
            r is Err ==> r->Err_0 is NoSuchDeviceError && final(self)@ == old(self)@,
            r is Ok ==> updated_with(old(self)@, final(self)@, u, max_history as nat),
            r is Ok ==> r->Ok_0 == final(self)@[key_index(old(self)@, u.spec_device_id())].1.holds(u),
            old(self).wf(max_history as nat) ==> final(self).wf(max_history as nat),
    {
        let dev = u.device_id().clone();
        proof { lemma_key_index_props(self@, dev@); }
        match self.sentinels.get_mut(&dev) {
            Some(s) => {
                let kept = s.keep_update(u, max_history);
                Ok(kept)
            },
            None => Err(OdinSentinelError::NoSuchDeviceError(dev)),
        }
    }
}

} // verus!
