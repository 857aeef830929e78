//! Price pairs and their bounded histories of (timestamp, price)
//! observations, oldest first.

use crate::did::U256;
use crate::error::Error;
use vstd::prelude::*;

verus! {

/// Number of observations the oracle keeps for each pair.
pub const PRICE_HISTORY_LEN: usize = 1024;

/// Abstract store: pair names in the order they were added, each with its
/// observations, oldest first.
pub type PairsView = Seq<(Seq<char>, Seq<(u64, u64)>)>;

pub open spec fn keys_unique(s: PairsView) -> bool {
    forall|i: int, j: int| 0 <= i < s.len() && 0 <= j < s.len() && i != j ==> s[i].0 != s[j].0
}

pub open spec fn has_key(s: PairsView, key: Seq<char>) -> bool {
    exists|i: int| 0 <= i < s.len() && s[i].0 == key
}

/// Position of the pair named `key`.
pub open spec fn key_index(s: PairsView, key: Seq<char>) -> int {
    choose|i: int| 0 <= i < s.len() && s[i].0 == key
}

/// Observations of the pair named `key`.
pub open spec fn history_of(s: PairsView, key: Seq<char>) -> Seq<(u64, u64)> {
    s[key_index(s, key)].1
}

/// A history after one more observation: the oldest is dropped once the
/// history would exceed `max` observations.
pub open spec fn bounded_push(h: Seq<(u64, u64)>, o: (u64, u64), max: nat) -> Seq<(u64, u64)> {
    if h.len() + 1 > max {
        h.push(o).drop_first()
    } else {
        h.push(o)
    }
}

/// The latest `n` observations of a history, oldest first; all of them when
/// there are fewer.
pub open spec fn last_n(h: Seq<(u64, u64)>, n: nat) -> Seq<(u64, u64)> {
    if n >= h.len() {
        h
    } else {
        h.subrange(h.len() - n, h.len() as int)
    }
}

/// The price pairs that the oracle follows.
pub struct PairPrice {
    max_len: usize,
    keys: Vec<String>,
    histories: Vec<Vec<(u64, u64)>>,
}

impl View for PairPrice {
    type V = PairsView;

    closed spec fn view(&self) -> PairsView {
        Seq::new(self.keys@.len(), |i: int| (self.keys@[i]@, self.histories@[i]@))
    }
}

impl PairPrice {
    /// Largest number of observations kept for a pair.
    pub closed spec fn capacity(&self) -> nat {
        self.max_len as nat
    }

    /// Pair names are unique and no history is longer than the capacity.
    pub closed spec fn wf(&self) -> bool {
        &&& self.keys@.len() == self.histories@.len()
        &&& keys_unique(self@)
        &&& forall|i: int| 0 <= i < self.histories@.len() ==> #[trigger] self.histories@[i]@.len()
            <= self.max_len
    }

    /// No pairs; each will keep at most `max_len` observations.
    pub fn new(max_len: usize) -> (r: PairPrice)
        ensures
            r.wf(),
            r@ == PairsView::empty(),
            r.capacity() == max_len,
    {
        let r = PairPrice { max_len, keys: Vec::new(), histories: Vec::new() };
        assert(r@ =~= PairsView::empty());
        r
    }

    fn find(&self, pair: &String) -> (r: Option<usize>)
        requires
            self.wf(),
        ensures
            r matches Some(i) ==> i < self@.len() && self@[i as int].0 == pair@ && i == key_index(
                self@,
                pair@,
            ),
            r is None <==> !has_key(self@, pair@),
    {
        let mut i: usize = 0;
        while i < self.keys.len()
            invariant
                self.wf(),
                i <= self.keys@.len(),
                forall|j: int| 0 <= j < i ==> self@[j].0 != pair@,
            decreases self.keys@.len() - i,
        {
            if self.keys[i] == *pair {
                proof {
                    let k = key_index(self@, pair@);
                    assert(self@[i as int].0 == pair@);
                    assert(has_key(self@, pair@));
                    assert(k == i);
                }
                return Some(i);
            }
            i = i + 1;
        }
        None
    }

    /// Whether a pair of this name exists.
    pub fn is_exist(&self, pair: &String) -> (r: bool)
        requires
            self.wf(),
        ensures
            r == has_key(self@, pair@),
    {
        self.find(pair).is_some()
    }

    /// The pair names, in the order they were added.
    pub fn get_pairs(&self) -> (r: Vec<String>)
        requires
            self.wf(),
        ensures
            r@.len() == self@.len(),
            forall|i: int| 0 <= i < r@.len() ==> #[trigger] r@[i]@ == self@[i].0,
    {
        let mut r: Vec<String> = Vec::new();
        let mut i: usize = 0;
        while i < self.keys.len()
            invariant
                self.wf(),
                i <= self.keys@.len(),
                r@.len() == i,
                forall|j: int| 0 <= j < i ==> #[trigger] r@[j]@ == self@[j].0,
            decreases self.keys@.len() - i,
        {
            r.push(self.keys[i].clone());
            i = i + 1;
        }
        r
    }

    /// Adds a pair with no observations; fails, changing nothing, when a pair
    /// of this name exists.
    pub fn add_pair(&mut self, pair: String) -> (r: Result<(), Error>)
        requires
            old(self).wf(),
        ensures
            final(self).wf(),
            final(self).capacity() == old(self).capacity(),
            has_key(old(self)@, pair@) ==> r == Err::<(), Error>(Error::PairExist) && final(self)@
                == old(self)@,
            !has_key(old(self)@, pair@) ==> r == Ok::<(), Error>(()) && final(self)@ == old(self)@.push((pair@, Seq::<(u64, u64)>::empty())),
    {
        if self.find(&pair).is_some() {
            return Err(Error::PairExist);
        }
        let ghost before = self@;
        self.keys.push(pair);
        self.histories.push(Vec::new());
        assert(self@ =~= before.push((pair@, Seq::<(u64, u64)>::empty())));
        proof {
            assert forall|i: int, j: int|
                0 <= i < self@.len() && 0 <= j < self@.len() && i != j implies self@[i].0
                != self@[j].0 by {
                if i == before.len() as int {
                    assert(before[j].0 != pair@);
                } else if j == before.len() as int {
                    assert(before[i].0 != pair@);
                }
            }
        }
        Ok(())
    }

    /// Removes a pair and its observations; fails, changing nothing, when no
    /// pair of this name exists.
    pub fn del_pair(&mut self, pair: &String) -> (r: Result<(), Error>)
        requires
            old(self).wf(),
        ensures
            final(self).wf(),
            final(self).capacity() == old(self).capacity(),
            !has_key(old(self)@, pair@) ==> r == Err::<(), Error>(Error::PairNotExist) && final(self)@ == old(self)@,
            has_key(old(self)@, pair@) ==> r == Ok::<(), Error>(()) && final(self)@ == old(self)@.remove(key_index(old(self)@, pair@)),
    {
        match self.find(pair) {
            None => Err(Error::PairNotExist),
            Some(i) => {
                let ghost before = self@;
                self.keys.remove(i);
                self.histories.remove(i);
                assert(self@ =~= before.remove(i as int));
                proof {
                    assert forall|k: int| 0 <= k < self.histories@.len() implies #[trigger] self.histories@[k]@.len()
                        <= self.max_len by {
                        if k >= i {
                            assert(self.histories@[k] == old(self).histories@[k + 1]);
                        }
                    }
                }
                Ok(())
            },
        }
    }

    /// Records an observation for a pair, dropping its oldest once the pair
    /// holds as many as the capacity; fails, changing nothing, when no pair of
    /// this name exists.
    pub fn update_price(&mut self, pair: &String, timestamp: u64, price: u64) -> (r: Result<
        (),
        Error,
    >)
        requires
            old(self).wf(),
        ensures
            final(self).wf(),
            final(self).capacity() == old(self).capacity(),
            !has_key(old(self)@, pair@) ==> r == Err::<(), Error>(Error::PairNotExist) && final(self)@ == old(self)@,
            has_key(old(self)@, pair@) ==> r == Ok::<(), Error>(()) && final(self)@ == old(self)@.update(
                key_index(old(self)@, pair@),
                (pair@, bounded_push(history_of(old(self)@, pair@), (timestamp, price), old(self).capacity())),
            ),
    {
        match self.find(pair) {
            None => Err(Error::PairNotExist),
            Some(i) => {
                let ghost before = self@;
                let mut history = self.histories.remove(i);
                let ghost h0 = history@;
                assert(h0 == before[i as int].1);
                history.push((timestamp, price));
                if history.len() > self.max_len {
                    history.remove(0);
                }
                assert(history@ =~= bounded_push(h0, (timestamp, price), self.max_len as nat));
                self.histories.insert(i, history);
                assert(self.histories@ =~= old(self).histories@.update(i as int, self.histories@[i as int]));
                assert(self@ =~= before.update(i as int, (pair@, history@)));
                proof {
                    assert forall|a: int, b: int|
                        0 <= a < self@.len() && 0 <= b < self@.len() && a != b implies self@[a].0
                        != self@[b].0 by {
                        assert(self@[a].0 == before[a].0 && self@[b].0 == before[b].0);
                    }
                    assert forall|k: int| 0 <= k < self.histories@.len() implies #[trigger] self.histories@[k]@.len()
                        <= self.max_len by {
                        if k != i {
                            assert(self.histories@[k] == old(self).histories@[k]);
                        }
                    }
                }
                Ok(())
            },
        }
    }

    /// The latest observation of a pair, if it exists and has one.
    pub fn get_latest_price(&self, pair: &String) -> (r: Option<(u64, u64)>)
        requires
            self.wf(),
        ensures
            has_key(self@, pair@) && history_of(self@, pair@).len() > 0 ==> r == Some(
                history_of(self@, pair@).last(),
            ),
            !(has_key(self@, pair@) && history_of(self@, pair@).len() > 0) ==> r is None,
    {
        match self.find(pair) {
            None => None,
            Some(i) => {
                let n = self.histories[i].len();
                if n == 0 {
                    None
                } else {
                    Some(self.histories[i][n - 1])
                }
            },
        }
    }

    /// The latest observation of an existing pair.
    pub fn latest_price(&self, pair: &String) -> (r: Result<(u64, u64), Error>)
        requires
            self.wf(),
        ensures
            !has_key(self@, pair@) ==> r == Err::<(u64, u64), Error>(Error::PairNotExist),
            has_key(self@, pair@) && history_of(self@, pair@).len() == 0 ==> r == Err::<
                (u64, u64),
                Error,
            >(Error::PriceNotAvailable),
            has_key(self@, pair@) && history_of(self@, pair@).len() > 0 ==> r == Ok::<
                (u64, u64),
                Error,
            >(history_of(self@, pair@).last()),
    {
        if !self.is_exist(pair) {
            return Err(Error::PairNotExist);
        }
        match self.get_latest_price(pair) {
            Some(latest) => Ok(latest),
            None => Err(Error::PriceNotAvailable),
        }
    }

    /// The latest `n` observations of a pair, oldest first, or all of them
    /// when it has fewer; none when no pair of this name exists.
    pub fn get_prices(&self, pair: &String, n: usize) -> (r: Vec<(u64, u64)>)
        requires
            self.wf(),
        ensures
            has_key(self@, pair@) ==> r@ == last_n(history_of(self@, pair@), n as nat),
            !has_key(self@, pair@) ==> r@ == Seq::<(u64, u64)>::empty(),
    {
        let mut r: Vec<(u64, u64)> = Vec::new();
        match self.find(pair) {
            None => {},
            Some(k) => {
                let h = &self.histories[k];
                let start: usize = if n >= h.len() {
                    0
                } else {
                    h.len() - n
                };
                let mut i: usize = start;
                while i < h.len()
                    invariant
                        start <= i <= h@.len(),
                        r@ == h@.subrange(start as int, i as int),
                    decreases h@.len() - i,
                {
                    r.push(h[i]);
                    i = i + 1;
                    assert(r@ =~= h@.subrange(start as int, i as int));
                }
                assert(r@ =~= last_n(h@, n as nat));
            },
        }
        r
    }

    /// Arguments of the aggregator's `updateAnswers`: each pair with its latest
    /// timestamp and price, in the order the pairs were added. None when some
    /// pair has no observation yet.
    pub fn feed_answers(&self) -> (r: Option<(Vec<String>, Vec<U256>, Vec<U256>)>)
        requires
            self.wf(),
        ensures
            (exists|i: int| 0 <= i < self@.len() && self@[i].1.len() == 0) <==> r is None,
            r matches Some((pairs, timestamps, prices)) ==> {
                &&& pairs@.len() == self@.len()
                &&& timestamps@.len() == self@.len()
                &&& prices@.len() == self@.len()
                &&& forall|i: int|
                    0 <= i < self@.len() ==> {
                        &&& #[trigger] pairs@[i]@ == self@[i].0
                        &&& timestamps@[i]@ == self@[i].1.last().0
                        &&& prices@[i]@ == self@[i].1.last().1
                    }
            },
    {
        let mut pairs: Vec<String> = Vec::new();
        let mut timestamps: Vec<U256> = Vec::new();
        let mut prices: Vec<U256> = Vec::new();
        let mut i: usize = 0;
        while i < self.keys.len()
            invariant
                self.wf(),
                i <= self.keys@.len(),
                pairs@.len() == i && timestamps@.len() == i && prices@.len() == i,
                forall|j: int| 0 <= j < i ==> self@[j].1.len() > 0,
                forall|j: int|
                    0 <= j < i ==> {
                        &&& #[trigger] pairs@[j]@ == self@[j].0
                        &&& timestamps@[j]@ == self@[j].1.last().0
                        &&& prices@[j]@ == self@[j].1.last().1
                    },
            decreases self.keys@.len() - i,
        {
            let n = self.histories[i].len();
            if n == 0 {
                assert(self@[i as int].1.len() == 0);
                return None;
            }
            let (timestamp, price) = self.histories[i][n - 1];
            pairs.push(self.keys[i].clone());
            timestamps.push(U256::from_u64(timestamp));
            prices.push(U256::from_u64(price));
            i = i + 1;
        }
        Some((pairs, timestamps, prices))
    }
}

} // verus!
