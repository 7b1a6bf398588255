//! The bid book: for each bidder of one auction what the auction keeps for that
//! bidder, with at most one entry for a party and a fixed capacity.
use crate::party::PartyId;
use vstd::prelude::*;

verus! {

/// What a bid book keeps for one bidder.
#[derive(Debug)]
pub struct Entry<V> {
    pub bidder: PartyId,
    pub value: V,
}

/// A value that stands for an amount of currency held in escrow.
pub trait Escrowed {
    /// The amount held for this value.
    spec fn escrowed(&self) -> nat;
}

impl Escrowed for u64 {
    open spec fn escrowed(&self) -> nat {
        *self as nat
    }
}

/// Whether some entry of `s` belongs to `who`.
pub open spec fn has_bidder<V>(s: Seq<Entry<V>>, who: PartyId) -> bool {
    exists|i: int| 0 <= i < s.len() && (#[trigger] s[i]).bidder == who
}

/// The position of the entry of `who`; meaningful where `has_bidder` holds.
pub open spec fn index_of<V>(s: Seq<Entry<V>>, who: PartyId) -> int {
    choose|i: int| 0 <= i < s.len() && (#[trigger] s[i]).bidder == who
}

/// What the book keeps for `who`, if anything.
pub open spec fn value_of<V>(s: Seq<Entry<V>>, who: PartyId) -> Option<V> {
    if has_bidder(s, who) {
        Some(s[index_of(s, who)].value)
    } else {
        None
    }
}

/// No party has two entries.
pub open spec fn distinct_bidders<V>(s: Seq<Entry<V>>) -> bool {
    forall|i: int, j: int|
        0 <= i < j < s.len() ==> (#[trigger] s[i]).bidder != (#[trigger] s[j]).bidder
}

/// The currency held for all entries together.
pub open spec fn total_escrowed<V: Escrowed>(s: Seq<Entry<V>>) -> nat
    decreases s.len(),
{
    if s.len() == 0 {
        0
    } else {
        total_escrowed(s.drop_last()) + s.last().value.escrowed()
    }
}

/// In a book without duplicates the entry of a party is found at one place only.
pub proof fn lemma_index_unique<V>(s: Seq<Entry<V>>, who: PartyId, i: int)
    requires
        distinct_bidders(s),
        0 <= i < s.len(),
        s[i].bidder == who,
    ensures
        has_bidder(s, who),
        index_of(s, who) == i,
        value_of(s, who) == Some(s[i].value),
{
    let j = index_of(s, who);
    assert(0 <= j < s.len() && s[j].bidder == who);
    if j < i {
        assert(s[j].bidder != s[i].bidder);
    } else if i < j {
        assert(s[i].bidder != s[j].bidder);
    }
}

/// Where a party has an entry, `index_of` points at it.
pub proof fn lemma_index_of_found<V>(s: Seq<Entry<V>>, who: PartyId)
    requires
        has_bidder(s, who),
    ensures
        0 <= index_of(s, who) < s.len(),
        s[index_of(s, who)].bidder == who,
{
}

/// Appending the entry of a party that had none keeps the book free of duplicates
/// and touches no other party.
pub proof fn lemma_push<V>(s: Seq<Entry<V>>, e: Entry<V>)
    requires
        distinct_bidders(s),
        !has_bidder(s, e.bidder),
    ensures
        distinct_bidders(s.push(e)),
        value_of(s.push(e), e.bidder) == Some(e.value),
        forall|who: PartyId| who != e.bidder ==> value_of(s.push(e), who) == value_of(s, who),
        forall|who: PartyId|
            has_bidder(s.push(e), who) <==> (has_bidder(s, who) || who == e.bidder),
{
    let t = s.push(e);
    assert forall|i: int, j: int| 0 <= i < j < t.len() implies (#[trigger] t[i]).bidder != (
    #[trigger] t[j]).bidder by {
        if j < s.len() {
            assert(s[i].bidder != s[j].bidder);
        } else {
            assert(s[i].bidder != e.bidder);
        }
    }
    assert(t[s.len() as int].bidder == e.bidder);
    lemma_index_unique(t, e.bidder, s.len() as int);
    assert forall|who: PartyId| who != e.bidder implies value_of(t, who) == value_of(s, who) by {
        if has_bidder(s, who) {
            let i = index_of(s, who);
            assert(t[i].bidder == who);
            lemma_index_unique(t, who, i);
        } else if has_bidder(t, who) {
            let i = index_of(t, who);
            assert(i < s.len());
            assert(s[i].bidder == who);
        }
    }
    assert forall|who: PartyId| has_bidder(t, who) <==> (has_bidder(s, who) || who == e.bidder) by {
        if has_bidder(s, who) {
            let i = index_of(s, who);
            assert(t[i].bidder == who);
        }
        if has_bidder(t, who) && who != e.bidder {
            let i = index_of(t, who);
            assert(s[i].bidder == who);
        }
    }
}

/// Replacing what is kept for the party at `i` touches no other party.
pub proof fn lemma_update<V>(s: Seq<Entry<V>>, i: int, v: V)
    requires
        distinct_bidders(s),
        0 <= i < s.len(),
    ensures
        distinct_bidders(s.update(i, Entry { bidder: s[i].bidder, value: v })),
        value_of(s.update(i, Entry { bidder: s[i].bidder, value: v }), s[i].bidder) == Some(v),
        forall|who: PartyId|
            who != s[i].bidder ==> value_of(
                s.update(i, Entry { bidder: s[i].bidder, value: v }),
                who,
            ) == value_of(s, who),
        forall|who: PartyId|
            has_bidder(s.update(i, Entry { bidder: s[i].bidder, value: v }), who) <==> has_bidder(
                s,
                who,
            ),
{
    let e = Entry { bidder: s[i].bidder, value: v };
    let t = s.update(i, e);
    assert forall|a: int, b: int| 0 <= a < b < t.len() implies (#[trigger] t[a]).bidder != (
    #[trigger] t[b]).bidder by {
        assert(s[a].bidder != s[b].bidder);
    }
    assert(t[i].bidder == s[i].bidder);
    lemma_index_unique(t, s[i].bidder, i);
    assert forall|who: PartyId| has_bidder(t, who) <==> has_bidder(s, who) by {
        if has_bidder(s, who) {
            let k = index_of(s, who);
            assert(t[k].bidder == who);
        }
        if has_bidder(t, who) {
            let k = index_of(t, who);
            assert(s[k].bidder == who);
        }
    }
    assert forall|who: PartyId| who != s[i].bidder implies value_of(t, who) == value_of(
        s,
        who,
    ) by {
        if has_bidder(s, who) {
            let k = index_of(s, who);
            assert(k != i);
            assert(t[k] == s[k]);
            lemma_index_unique(t, who, k);
        }
    }
}

/// Taking out the entry at `i` removes that party and touches no other.
pub proof fn lemma_remove<V>(s: Seq<Entry<V>>, i: int)
    requires
        distinct_bidders(s),
        0 <= i < s.len(),
    ensures
        distinct_bidders(s.remove(i)),
        !has_bidder(s.remove(i), s[i].bidder),
        forall|who: PartyId| who != s[i].bidder ==> value_of(s.remove(i), who) == value_of(s, who),
        forall|who: PartyId|
            has_bidder(s.remove(i), who) <==> (has_bidder(s, who) && who != s[i].bidder),
{
    let t = s.remove(i);
    assert forall|a: int| 0 <= a < t.len() implies #[trigger] t[a] == s[if a < i {
        a
    } else {
        a + 1
    }] by {}
    assert forall|a: int, b: int| 0 <= a < b < t.len() implies (#[trigger] t[a]).bidder != (
    #[trigger] t[b]).bidder by {
        let a2 = if a < i { a } else { a + 1 };
        let b2 = if b < i { b } else { b + 1 };
        assert(t[a] == s[a2]);
        assert(t[b] == s[b2]);
        assert(s[a2].bidder != s[b2].bidder);
    }
    if has_bidder(t, s[i].bidder) {
        let k = index_of(t, s[i].bidder);
        let k2 = if k < i { k } else { k + 1 };
        assert(t[k] == s[k2]);
        if k2 < i {
            assert(s[k2].bidder != s[i].bidder);
        } else {
            assert(s[i].bidder != s[k2].bidder);
        }
    }
    assert forall|who: PartyId| has_bidder(t, who) <==> (has_bidder(s, who) && who
        != s[i].bidder) by {
        if has_bidder(t, who) {
            let k = index_of(t, who);
            let k2 = if k < i { k } else { k + 1 };
            assert(t[k] == s[k2]);
            assert(s[k2].bidder == who);
        }
        if has_bidder(s, who) && who != s[i].bidder {
            let k = index_of(s, who);
            let k2 = if k < i { k } else { k - 1 };
            assert(t[k2] == s[k]);
            assert(t[k2].bidder == who);
        }
    }
    assert forall|who: PartyId| who != s[i].bidder implies value_of(t, who) == value_of(
        s,
        who,
    ) by {
        if has_bidder(s, who) {
            let k = index_of(s, who);
            let k2 = if k < i { k } else { k - 1 };
            assert(t[k2] == s[k]);
            lemma_index_unique(t, who, k2);
        }
    }
}

/// Appending an entry adds its amount to the total.
pub proof fn lemma_total_push<V: Escrowed>(s: Seq<Entry<V>>, e: Entry<V>)
    ensures
        total_escrowed(s.push(e)) == total_escrowed(s) + e.value.escrowed(),
{
    assert(s.push(e).drop_last() =~= s);
}

/// Replacing the entry at `i` changes the total by the difference of the amounts.
pub proof fn lemma_total_update<V: Escrowed>(s: Seq<Entry<V>>, i: int, e: Entry<V>)
    requires
        0 <= i < s.len(),
    ensures
        total_escrowed(s.update(i, e)) == total_escrowed(s) - s[i].value.escrowed()
            + e.value.escrowed(),
    decreases s.len(),
{
    if i == s.len() - 1 {
        assert(s.update(i, e).drop_last() =~= s.drop_last());
    } else {
        lemma_total_update(s.drop_last(), i, e);
        assert(s.update(i, e).drop_last() =~= s.drop_last().update(i, e));
    }
}

/// Taking out the entry at `i` takes its amount from the total.
pub proof fn lemma_total_remove<V: Escrowed>(s: Seq<Entry<V>>, i: int)
    requires
        0 <= i < s.len(),
    ensures
        total_escrowed(s.remove(i)) == total_escrowed(s) - s[i].value.escrowed(),
    decreases s.len(),
{
    if i == s.len() - 1 {
        assert(s.remove(i) =~= s.drop_last());
    } else {
        lemma_total_remove(s.drop_last(), i);
        assert(s.remove(i).drop_last() =~= s.drop_last().remove(i));
        assert(s.remove(i).last() == s.last());
    }
}

/// The bid book of one auction: at most one entry for each party, and never more
/// entries than the capacity it was made with. Entries keep the order in which
/// they were inserted.
pub struct BidBook<V> {
    cap: u64,
    entries: Vec<Entry<V>>,
}

impl<V> View for BidBook<V> {
    type V = Seq<Entry<V>>;

    closed spec fn view(&self) -> Seq<Entry<V>> {
        self.entries@
    }
}

impl<V> BidBook<V> {
    /// The largest number of entries the book may hold.
    pub closed spec fn spec_capacity(&self) -> u64 {
        self.cap
    }

    /// The book's invariant.
    pub open spec fn wf(&self) -> bool {
        &&& distinct_bidders(self@)
        &&& self@.len() <= self.spec_capacity()
    }

    /// An empty book for at most `cap` bidders.
    pub fn new(cap: u64) -> (book: Self)
        ensures
            book@ == Seq::<Entry<V>>::empty(),
            book.spec_capacity() == cap,
            book.wf(),
    {
        BidBook { cap, entries: Vec::new() }
    }

    /// A book with the given entries, in their order, where they are at most
    /// `cap` and no party occurs twice among them.
    pub fn from_entries(cap: u64, entries: Vec<Entry<V>>) -> (book: Option<Self>)
        ensures
            book is Some <==> (entries@.len() <= cap && distinct_bidders(entries@)),
            book is Some ==> book->0@ == entries@ && book->0.spec_capacity() == cap
                && book->0.wf(),
    {
        let n = entries.len();
        if n as u64 > cap {
            return None;
        }
        let mut j: usize = 0;
        while j < n
            invariant
                n == entries.len(),
                j <= n,
                forall|a: int, b: int|
                    0 <= a < b < j ==> (#[trigger] entries@[a]).bidder != (
                    #[trigger] entries@[b]).bidder,
            decreases n - j,
        {
            let mut i: usize = 0;
            while i < j
                invariant
                    n == entries.len(),
                    j < n,
                    i <= j,
                    forall|a: int|
                        0 <= a < i ==> (#[trigger] entries@[a]).bidder != entries@[j as int].bidder,
                decreases j - i,
            {
                if entries[i].bidder == entries[j].bidder {
                    return None;
                }
                i += 1;
            }
            j += 1;
        }
        Some(BidBook { cap, entries })
    }

    /// The entries, in their order; the book is given up.
    pub fn into_entries(self) -> (entries: Vec<Entry<V>>)
        ensures
            entries@ == self@,
    {
        self.entries
    }

    /// The largest number of entries the book may hold.
    pub fn capacity(&self) -> (cap: u64)
        ensures
            cap == self.spec_capacity(),
    {
        self.cap
    }

    /// The number of entries.
    pub fn len(&self) -> (n: usize)
        ensures
            n == self@.len(),
    {
        self.entries.len()
    }

    /// Whether the book holds as many entries as it may, so that no further
    /// party can be entered.
    pub fn is_full(&self) -> (full: bool)
        requires
            self.wf(),
        ensures
            full == (self@.len() >= self.spec_capacity()),
    {
        self.entries.len() as u64 >= self.cap
    }

    /// Where the entry of `who` stands.
    pub fn position(&self, who: &PartyId) -> (at: Option<usize>)
        requires
            self.wf(),
        ensures
            at is Some <==> has_bidder(self@, *who),
            at is Some ==> at->0 == index_of(self@, *who) && at->0 < self@.len()
                && self@[at->0 as int].bidder == *who,
    {
        let n = self.entries.len();
        let mut i: usize = 0;
        while i < n
            invariant
                self.wf(),
                n == self.entries.len(),
                i <= n,
                forall|a: int| 0 <= a < i ==> (#[trigger] self.entries@[a]).bidder != *who,
            decreases n - i,
        {
            if self.entries[i].bidder == *who {
                proof {
                    lemma_index_unique(self@, *who, i as int);
                }
                return Some(i);
            }
            i += 1;
        }
        None
    }

    /// The entry at position `at`.
    pub fn entry_at(&self, at: usize) -> (e: &Entry<V>)
        requires
            at < self@.len(),
        ensures
            *e == self@[at as int],
    {
        &self.entries[at]
    }

    /// What the book keeps for `who`, if anything.
    pub fn get(&self, who: &PartyId) -> (v: Option<&V>)
        requires
            self.wf(),
        ensures
            v is Some <==> has_bidder(self@, *who),
            v is Some ==> value_of(self@, *who) == Some(*v->0),
    {
        match self.position(who) {
            Some(i) => Some(&self.entries[i].value),
            None => None,
        }
    }

    /// Enters `who` with `value` at the end of the book, if `who` has no entry
    /// yet and the book is not full; tells whether it did.
    pub fn insert(&mut self, who: PartyId, value: V) -> (done: bool)
        requires
            old(self).wf(),
        ensures
            final(self).wf(),
            final(self).spec_capacity() == old(self).spec_capacity(),
            done == (!has_bidder(old(self)@, who) && old(self)@.len() < old(
                self,
            ).spec_capacity()),
            done ==> final(self)@ == old(self)@.push(Entry { bidder: who, value }),
            !done ==> final(self)@ == old(self)@,
    {
        if self.is_full() {
            return false;
        }
        if self.position(&who).is_some() {
            return false;
        }
        proof {
            lemma_push(self@, Entry { bidder: who, value });
        }
        self.entries.push(Entry { bidder: who, value });
        true
    }

    /// Replaces what the book keeps at position `at`; the party stays.
    pub fn set_value(&mut self, at: usize, value: V)
        requires
            old(self).wf(),
            at < old(self)@.len(),
        ensures
            final(self).wf(),
            final(self).spec_capacity() == old(self).spec_capacity(),
            final(self)@ == old(self)@.update(
                at as int,
                Entry { bidder: old(self)@[at as int].bidder, value },
            ),
    {
        proof {
            lemma_update(self@, at as int, value);
        }
        let bidder = self.entries[at].bidder;
        self.entries.set(at, Entry { bidder, value });
    }

    /// Takes out the entry at position `at`, with all that is kept for that
    /// party; the entries behind it move up.
    pub fn remove_at(&mut self, at: usize) -> (e: Entry<V>)
        requires
            old(self).wf(),
            at < old(self)@.len(),
        ensures
            final(self).wf(),
            final(self).spec_capacity() == old(self).spec_capacity(),
            final(self)@ == old(self)@.remove(at as int),
            e == old(self)@[at as int],
    {
        proof {
            lemma_remove(self@, at as int);
        }
        self.entries.remove(at)
    }
}

} // verus!
