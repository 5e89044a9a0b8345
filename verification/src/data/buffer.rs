//! Per-asset sliding-window history of feature entries.
use ringbuffer::AllocRingBuffer;
use vstd::prelude::*;

use super::ring::{
    bounded_push, ring_back, ring_capacity, ring_clear, ring_front, ring_items, ring_len, ring_new,
    ring_push, ring_to_vec, Entry, max_ring_capacity,
};
use super::types::Asset;

verus! {

/// The assets of `s` in order of first occurrence, each kept once.
pub open spec fn first_occurrences(s: Seq<Asset>) -> Seq<Asset>
    decreases s.len(),
{
    if s.len() == 0 {
        Seq::empty()
    } else {
        let d = first_occurrences(s.drop_last());
        if d.contains(s.last()) {
            d
        } else {
            d.push(s.last())
        }
    }
}

/// What a window of capacity `cap` holds after the entries of `xs` were pushed,
/// one after the other, onto a window holding `items`.
pub open spec fn push_all(items: Seq<Entry>, xs: Seq<Entry>, cap: nat) -> Seq<Entry>
    decreases xs.len(),
{
    if xs.len() == 0 {
        items
    } else {
        bounded_push(push_all(items, xs.drop_last(), cap), xs.last(), cap)
    }
}

/// The newest `cap` entries of `xs`, oldest first.
pub open spec fn newest(xs: Seq<Entry>, cap: nat) -> Seq<Entry> {
    if xs.len() <= cap {
        xs
    } else {
        xs.subrange(xs.len() - cap, xs.len() as int)
    }
}

/// Circular buffer for storing time-series data
pub struct FeatureBuffer {
    /// Watched assets, each once
    assets: Vec<Asset>,
    /// One ring per watched asset, at the asset's position
    rings: Vec<AllocRingBuffer<Entry>>,
    /// Maximum sequence length
    max_len: usize,
}

impl FeatureBuffer {
    /// The buffer's internal invariant.
    pub closed spec fn wf(&self) -> bool {
        &&& self.assets@.len() == self.rings@.len()
        &&& self.assets@.no_duplicates()
        &&& self.assets@.len() > 0 ==> 0 < self.max_len <= max_ring_capacity()
        &&& forall|i: int|
            0 <= i < self.rings@.len() ==> {
                &&& ring_capacity(#[trigger] self.rings@[i]) == self.max_len
                &&& ring_items(self.rings@[i]).len() <= self.max_len
            }
    }

    /// The watched assets, in the order they were first named.
    pub closed spec fn watched(&self) -> Seq<Asset> {
        self.assets@
    }

    /// Whether the buffer keeps a history for `a`.
    pub open spec fn watches(&self, a: Asset) -> bool {
        self.watched().contains(a)
    }

    /// The maximum number of entries kept per asset.
    pub closed spec fn capacity_spec(&self) -> nat {
        self.max_len as nat
    }

    /// The entries buffered for `a`, oldest first (empty for an unwatched asset).
    pub closed spec fn history(&self, a: Asset) -> Seq<Entry> {
        if self.assets@.contains(a) {
            ring_items(self.rings@[self.assets@.index_of(a)])
        } else {
            Seq::empty()
        }
    }

    /// Every watched asset holds at least `min_len` entries.
    pub open spec fn ready(&self, min_len: usize) -> bool {
        forall|a: Asset| self.watches(a) ==> #[trigger] self.history(a).len() >= min_len
    }

    proof fn lemma_slot(&self, i: int)
        requires
            self.wf(),
            0 <= i < self.assets@.len(),
        ensures
            self.assets@.index_of(self.assets@[i]) == i,
            self.history(self.assets@[i]) == ring_items(self.rings@[i]),
    {
        assert(self.assets@.contains(self.assets@[i]));
    }

    /// Position of `asset` among the watched assets.
    fn slot_of(&self, asset: Asset) -> (r: Option<usize>)
        requires
            self.wf(),
        ensures
            r is None <==> !self.watches(asset),
            r matches Some(i) ==> i < self.assets@.len() && self.assets@[i as int] == asset
                && self.assets@.index_of(asset) == i,
    {
        let mut i: usize = 0;
        while i < self.assets.len()
            invariant
                self.wf(),
                i <= self.assets@.len(),
                forall|j: int| 0 <= j < i ==> self.assets@[j] != asset,
            decreases self.assets@.len() - i,
        {
            if self.assets[i] == asset {
                proof {
                    self.lemma_slot(i as int);
                }
                return Some(i);
            }
            i = i + 1;
        }
        None
    }

    /// Create a new feature buffer
    pub fn new(assets: Vec<Asset>, max_len: usize) -> (buf: Self)
        requires
            assets@.len() > 0 ==> 0 < max_len <= max_ring_capacity(),
        ensures
            buf.wf(),
            buf.watched() == first_occurrences(assets@),
            forall|a: Asset| #[trigger] buf.watches(a) <==> assets@.contains(a),
            forall|a: Asset| #[trigger] buf.history(a) == Seq::<Entry>::empty(),
            buf.capacity_spec() == max_len,
    {
        let mut kept: Vec<Asset> = Vec::new();
        let mut rings: Vec<AllocRingBuffer<Entry>> = Vec::new();
        let mut i: usize = 0;
        while i < assets.len()
            invariant
                i <= assets@.len(),
                assets@.len() > 0 ==> 0 < max_len <= max_ring_capacity(),
                kept@ == first_occurrences(assets@.take(i as int)),
                kept@.len() == rings@.len(),
                kept@.no_duplicates(),
                forall|x: Asset|
                    kept@.contains(x) <==> (exists|k: int| 0 <= k < i && #[trigger] assets@[k] == x),
                forall|j: int|
                    0 <= j < rings@.len() ==> ring_capacity(#[trigger] rings@[j]) == max_len
                        && ring_items(rings@[j]) == Seq::<Entry>::empty(),
            decreases assets@.len() - i,
        {
            let a = assets[i];
            let ghost old_kept = kept@;
            let mut seen = false;
            let mut j: usize = 0;
            while j < kept.len()
                invariant
                    j <= kept@.len(),
                    kept@ == old_kept,
                    seen <==> exists|k: int| 0 <= k < j && kept@[k] == a,
                decreases kept@.len() - j,
            {
                if kept[j] == a {
                    seen = true;
                }
                j = j + 1;
            }
            assert(assets@.take(i + 1).drop_last() =~= assets@.take(i as int));
            assert(assets@.take(i + 1).last() == a);
            if !seen {
                kept.push(a);
                rings.push(ring_new(max_len));
            }
            assert forall|x: Asset| kept@.contains(x) <==> (exists|k: int|
                0 <= k < i + 1 && #[trigger] assets@[k] == x) by {
                if x == a {
                    assert(assets@[i as int] == a);
                    if seen {
                        let m = choose|m: int| 0 <= m < old_kept.len() && old_kept[m] == a;
                        assert(kept@[m] == a);
                    } else {
                        assert(kept@[kept@.len() - 1] == a);
                    }
                } else {
                    if kept@.contains(x) {
                        let m = choose|m: int| 0 <= m < kept@.len() && kept@[m] == x;
                        assert(m < old_kept.len());
                        assert(old_kept[m] == x);
                        assert(old_kept.contains(x));
                    }
                    if exists|k: int| 0 <= k < i + 1 && #[trigger] assets@[k] == x {
                        let k = choose|k: int| 0 <= k < i + 1 && #[trigger] assets@[k] == x;
                        assert(k < i);
                        assert(old_kept.contains(x));
                        let m = choose|m: int| 0 <= m < old_kept.len() && old_kept[m] == x;
                        assert(kept@[m] == x);
                    }
                }
            }
            i = i + 1;
        }
        assert(assets@.take(assets@.len() as int) =~= assets@);
        let buf = FeatureBuffer { assets: kept, rings, max_len };
        assert forall|a: Asset| #[trigger] buf.history(a) == Seq::<Entry>::empty() by {
            if buf.assets@.contains(a) {
                let k = buf.assets@.index_of(a);
                assert(0 <= k < buf.rings@.len());
            }
        }
        buf
    }

    /// Push a new entry for an asset; an unwatched asset is ignored.
    pub fn push(&mut self, asset: Asset, id: u64, timestamp: i64)
        requires
            old(self).wf(),
        ensures
            final(self).wf(),
            final(self).watched() == old(self).watched(),
            final(self).capacity_spec() == old(self).capacity_spec(),
            final(self).history(asset) == if old(self).watches(asset) {
                bounded_push(old(self).history(asset), (id, timestamp), old(self).capacity_spec())
            } else {
                old(self).history(asset)
            },
            forall|b: Asset| b != asset ==> #[trigger] final(self).history(b) == old(self).history(b),
    {
        match self.slot_of(asset) {
            Some(i) => {
                proof {
                    self.lemma_slot(i as int);
                }
                ring_push(&mut self.rings[i], (id, timestamp));
                proof {
                    assert forall|j: int| 0 <= j < self.rings@.len() implies {
                        &&& ring_capacity(#[trigger] self.rings@[j]) == self.max_len
                        &&& ring_items(self.rings@[j]).len() <= self.max_len
                    } by {
                        if j == i {
                        } else {
                            assert(self.rings@[j] == old(self).rings@[j]);
                        }
                    }
                    assert forall|b: Asset| b != asset implies #[trigger] self.history(b)
                        == old(self).history(b) by {
                        if self.assets@.contains(b) {
                            let k = self.assets@.index_of(b);
                            old(self).lemma_slot(k);
                            assert(k != i);
                        }
                    }
                }
            },
            None => {},
        }
    }

    /// Get the current sequence for an asset
    pub fn get_sequence(&self, asset: Asset) -> (r: Option<Vec<Entry>>)
        requires
            self.wf(),
        ensures
            r is Some <==> self.watches(asset),
            r matches Some(v) ==> v@ == self.history(asset),
    {
        match self.slot_of(asset) {
            Some(i) => Some(ring_to_vec(&self.rings[i])),
            None => None,
        }
    }

    /// Get sequences for all assets as a batch, in watch order.
    /// Returns None if any asset doesn't have enough data
    pub fn get_batch(&self, min_len: usize) -> (r: Option<Vec<(Asset, Vec<Entry>)>>)
        requires
            self.wf(),
        ensures
            r is Some <==> self.ready(min_len),
            r matches Some(v) ==> {
                &&& v@.len() == self.watched().len()
                &&& forall|i: int|
                    0 <= i < v@.len() ==> (#[trigger] v@[i]).0 == self.watched()[i] && v@[i].1@
                        == self.history(self.watched()[i])
            },
    {
        let mut batch: Vec<(Asset, Vec<Entry>)> = Vec::new();
        let mut i: usize = 0;
        while i < self.assets.len()
            invariant
                self.wf(),
                i <= self.assets@.len(),
                batch@.len() == i,
                forall|j: int|
                    0 <= j < i ==> self.history(self.assets@[j]).len() >= min_len,
                forall|j: int|
                    0 <= j < i ==> (#[trigger] batch@[j]).0 == self.assets@[j] && batch@[j].1@
                        == self.history(self.assets@[j]),
            decreases self.assets@.len() - i,
        {
            proof {
                self.lemma_slot(i as int);
            }
            if ring_len(&self.rings[i]) < min_len {
                assert(self.watches(self.assets@[i as int]));
                return None;
            }
            batch.push((self.assets[i], ring_to_vec(&self.rings[i])));
            i = i + 1;
        }
        assert forall|a: Asset| self.watches(a) implies #[trigger] self.history(a).len()
            >= min_len by {
            let k = self.assets@.index_of(a);
            assert(self.assets@[k] == a);
        }
        Some(batch)
    }

    /// Check if all assets have at least min_len samples
    pub fn is_ready(&self, min_len: usize) -> (r: bool)
        requires
            self.wf(),
        ensures
            r == self.ready(min_len),
    {
        let mut i: usize = 0;
        while i < self.assets.len()
            invariant
                self.wf(),
                i <= self.assets@.len(),
                forall|j: int|
                    0 <= j < i ==> self.history(self.assets@[j]).len() >= min_len,
            decreases self.assets@.len() - i,
        {
            proof {
                self.lemma_slot(i as int);
            }
            if ring_len(&self.rings[i]) < min_len {
                assert(self.watches(self.assets@[i as int]));
                return false;
            }
            i = i + 1;
        }
        assert forall|a: Asset| self.watches(a) implies #[trigger] self.history(a).len()
            >= min_len by {
            let k = self.assets@.index_of(a);
            assert(self.assets@[k] == a);
        }
        true
    }

    /// Get buffer length for an asset
    pub fn len(&self, asset: Asset) -> (n: usize)
        requires
            self.wf(),
        ensures
            n == self.history(asset).len(),
    {
        match self.slot_of(asset) {
            Some(i) => ring_len(&self.rings[i]),
            None => 0,
        }
    }

    /// Check if buffer is empty for an asset
    pub fn is_empty(&self, asset: Asset) -> (r: bool)
        requires
            self.wf(),
        ensures
            r == (self.history(asset).len() == 0),
    {
        self.len(asset) == 0
    }

    /// Get the maximum buffer capacity
    pub fn capacity(&self) -> (c: usize)
        ensures
            c == self.capacity_spec(),
    {
        self.max_len
    }

    /// Clear all buffers
    pub fn clear(&mut self)
        requires
            old(self).wf(),
        ensures
            final(self).wf(),
            final(self).watched() == old(self).watched(),
            final(self).capacity_spec() == old(self).capacity_spec(),
            forall|a: Asset| #[trigger] final(self).history(a) == Seq::<Entry>::empty(),
    {
        let mut i: usize = 0;
        while i < self.rings.len()
            invariant
                self.wf(),
                self.assets@ == old(self).assets@,
                self.max_len == old(self).max_len,
                i <= self.rings@.len(),
                forall|j: int| 0 <= j < i ==> ring_items(#[trigger] self.rings@[j]) == Seq::<
                    Entry,
                >::empty(),
            decreases self.rings@.len() - i,
        {
            let ghost before = self.rings@;
            ring_clear(&mut self.rings[i]);
            proof {
                assert forall|j: int| 0 <= j < self.rings@.len() && j != i implies self.rings@[j]
                    == before[j] by {}
            }
            i = i + 1;
        }
        proof {
            assert forall|a: Asset| #[trigger] self.history(a) == Seq::<Entry>::empty() by {
                if self.assets@.contains(a) {
                    let k = self.assets@.index_of(a);
                    assert(0 <= k < self.rings@.len());
                }
            }
        }
    }

    /// Get latest entry for an asset
    pub fn get_latest(&self, asset: Asset) -> (r: Option<Entry>)
        requires
            self.wf(),
        ensures
            r is None <==> self.history(asset).len() == 0,
            r matches Some(e) ==> e == self.history(asset).last(),
    {
        match self.slot_of(asset) {
            Some(i) => ring_back(&self.rings[i]),
            None => None,
        }
    }

    /// Get oldest entry for an asset
    pub fn get_oldest(&self, asset: Asset) -> (r: Option<Entry>)
        requires
            self.wf(),
        ensures
            r is None <==> self.history(asset).len() == 0,
            r matches Some(e) ==> e == self.history(asset)[0],
    {
        match self.slot_of(asset) {
            Some(i) => ring_front(&self.rings[i]),
            None => None,
        }
    }

    /// Get time range (oldest, latest timestamp) of buffered data for an asset
    pub fn time_range(&self, asset: Asset) -> (r: Option<(i64, i64)>)
        requires
            self.wf(),
        ensures
            r is None <==> self.history(asset).len() == 0,
            r matches Some(t) ==> t.0 == self.history(asset)[0].1 && t.1 == self.history(
                asset,
            ).last().1,
    {
        let i = match self.slot_of(asset) {
            Some(i) => i,
            None => {
                return None;
            },
        };
        let oldest = match ring_front(&self.rings[i]) {
            Some(e) => e,
            None => {
                return None;
            },
        };
        let latest = match ring_back(&self.rings[i]) {
            Some(e) => e,
            None => {
                return None;
            },
        };
        Some((oldest.1, latest.1))
    }
}

/// Sliding window: pushing `xs` one by one onto an empty history of capacity
/// `cap` leaves exactly the newest `cap` entries of `xs`, oldest first.
pub proof fn lemma_window_keeps_newest(xs: Seq<Entry>, cap: nat)
    requires
        cap > 0,
    ensures
        push_all(Seq::empty(), xs, cap) == newest(xs, cap),
    decreases xs.len(),
{
    if xs.len() > 0 {
        let init = xs.drop_last();
        lemma_window_keeps_newest(init, cap);
        let prev = newest(init, cap);
        if init.len() < cap {
            assert(prev.push(xs.last()) =~= xs);
        } else {
            assert(prev.len() == cap);
            assert(prev.drop_first().push(xs.last()) =~= xs.subrange(
                xs.len() - cap,
                xs.len() as int,
            ));
        }
    } else {
        assert(newest(xs, cap) =~= Seq::<Entry>::empty());
    }
}

/// A push makes the pushed entry the newest one, grows the history by one until
/// it reaches the capacity, and keeps every earlier entry that still fits.
pub proof fn lemma_push_newest(items: Seq<Entry>, x: Entry, cap: nat)
    requires
        cap > 0,
        items.len() <= cap,
    ensures
        bounded_push(items, x, cap).last() == x,
        bounded_push(items, x, cap).len() == if items.len() < cap {
            items.len() + 1
        } else {
            cap
        },
        bounded_push(items, x, cap) == newest(items.push(x), cap),
{
    if items.len() < cap {
    } else {
        assert(items.drop_first().push(x) =~= items.push(x).subrange(
            items.push(x).len() - cap,
            items.push(x).len() as int,
        ));
    }
}

impl FeatureBuffer {
    /// No history ever holds more entries than the buffer's capacity.
    pub proof fn lemma_history_bounded(&self, a: Asset)
        requires
            self.wf(),
        ensures
            self.history(a).len() <= self.capacity_spec(),
    {
        if self.assets@.contains(a) {
            let k = self.assets@.index_of(a);
            assert(0 <= k < self.rings@.len());
        }
    }
}

} // verus!
