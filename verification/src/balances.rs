use vstd::prelude::*;
use crate::account::AccountId;
use crate::Balance;

verus! {

/// No identity stands at two places of `entries`.
pub open spec fn distinct_keys(entries: Seq<(AccountId, Balance)>) -> bool {
    forall|i: int, j: int|
        0 <= i < entries.len() && 0 <= j < entries.len() && i != j ==> entries[i].0
            != entries[j].0
}

/// `who` stands at place `i` of `entries`.
pub open spec fn key_at(entries: Seq<(AccountId, Balance)>, who: AccountId, i: int) -> bool {
    0 <= i < entries.len() && entries[i].0 == who
}

/// The mapping that a list of entries with distinct identities stands for:
/// each listed identity goes to the amount listed with it.
pub open spec fn mapping_of(entries: Seq<(AccountId, Balance)>) -> Map<AccountId, Balance> {
    Map::new(
        |who: AccountId| exists|i: int| key_at(entries, who, i),
        |who: AccountId| entries[choose|i: int| key_at(entries, who, i)].1,
    )
}

/// The list after `amount` was recorded for `who`: the entry of `who` is
/// replaced where it stands, or a new entry is added at the end.
pub open spec fn listing_with(
    entries: Seq<(AccountId, Balance)>,
    who: AccountId,
    amount: Balance,
) -> Seq<(AccountId, Balance)> {
    if exists|i: int| key_at(entries, who, i) {
        entries.update(choose|i: int| key_at(entries, who, i), (who, amount))
    } else {
        entries.push((who, amount))
    }
}

/// In a list with distinct identities, the entry at place `i` is what the
/// mapping holds for its identity.
pub proof fn lemma_mapping_at(entries: Seq<(AccountId, Balance)>, i: int)
    requires
        distinct_keys(entries),
        0 <= i < entries.len(),
    ensures
        mapping_of(entries).contains_key(entries[i].0),
        mapping_of(entries)[entries[i].0] == entries[i].1,
{
    let who = entries[i].0;
    assert(key_at(entries, who, i));
    let k = choose|k: int| key_at(entries, who, k);
    assert(k == i);
}

/// Standing balance of each bidder: a finite mapping from identities to
/// amounts, held as a list in which no identity occurs twice.
pub struct Balances {
    entries: Vec<(AccountId, Balance)>,
}

impl View for Balances {
    type V = Map<AccountId, Balance>;

    open spec fn view(&self) -> Map<AccountId, Balance> {
        mapping_of(self.listing())
    }
}

impl Balances {
    /// The entries in the order in which their identities first came in.
    pub closed spec fn listing(self) -> Seq<(AccountId, Balance)> {
        self.entries@
    }

    /// No identity is listed twice.
    pub open spec fn wf(self) -> bool {
        distinct_keys(self.listing())
    }

    /// A mapping with no entry.
    pub fn new() -> (book: Balances)
        ensures
            book.wf(),
            book@ == Map::<AccountId, Balance>::empty(),
            book.listing() == Seq::<(AccountId, Balance)>::empty(),
    {
        let book = Balances { entries: Vec::new() };
        assert(book@ =~= Map::<AccountId, Balance>::empty());
        book
    }

    /// Takes a list of entries as a mapping, provided that no identity is
    /// listed twice.
    pub fn from_entries(entries: Vec<(AccountId, Balance)>) -> (book: Option<Balances>)
        ensures
            book is Some <==> distinct_keys(entries@),
            book matches Some(b) ==> b.wf() && b.listing() == entries@,
    {
        let mut upper: usize = 0;
        while upper < entries.len()
            invariant
                upper <= entries.len(),
                forall|i: int, j: int| 0 <= i < j < upper ==> entries@[i].0 != entries@[j].0,
            decreases entries.len() - upper,
        {
            let mut lower: usize = 0;
            while lower < upper
                invariant
                    lower <= upper < entries.len(),
                    forall|i: int| 0 <= i < lower ==> entries@[i].0 != entries@[upper as int].0,
                decreases upper - lower,
            {
                if entries[lower].0 == entries[upper].0 {
                    return None;
                }
                lower += 1;
            }
            upper += 1;
        }
        assert forall|i: int, j: int|
            0 <= i < entries@.len() && 0 <= j < entries@.len() && i != j implies entries@[i].0
            != entries@[j].0 by {
            if i < j {
                assert(entries@[i].0 != entries@[j].0);
            } else {
                assert(entries@[j].0 != entries@[i].0);
            }
        }
        Some(Balances { entries })
    }

    /// The entries, one for each identity that has a balance.
    pub fn entries(&self) -> (list: &Vec<(AccountId, Balance)>)
        ensures
            list@ == self.listing(),
    {
        &self.entries
    }

    /// Place of `who` in the list, if it is there.
    fn position(&self, who: &AccountId) -> (found: Option<usize>)
        ensures
            match found {
                Some(i) => key_at(self.entries@, *who, i as int),
                None => forall|i: int| !key_at(self.entries@, *who, i),
            },
    {
        let mut i: usize = 0;
        while i < self.entries.len()
            invariant
                i <= self.entries.len(),
                forall|j: int| 0 <= j < i ==> self.entries@[j].0 != *who,
            decreases self.entries.len() - i,
        {
            if self.entries[i].0 == *who {
                return Some(i);
            }
            i += 1;
        }
        None
    }

    /// The amount recorded for `who`, if any.
    pub fn get(&self, who: &AccountId) -> (amount: Option<Balance>)
        requires
            self.wf(),
        ensures
            amount == (if self@.contains_key(*who) {
                Some(self@[*who])
            } else {
                None
            }),
    {
        match self.position(who) {
            Some(i) => {
                proof {
                    lemma_mapping_at(self.entries@, i as int);
                }
                Some(self.entries[i].1)
            },
            None => None,
        }
    }

    /// Records `amount` for `who`, in place of what was recorded before.
    pub fn insert(&mut self, who: AccountId, amount: Balance)
        requires
            old(self).wf(),
        ensures
            final(self).wf(),
            final(self)@ == old(self)@.insert(who, amount),
            final(self).listing() == listing_with(old(self).listing(), who, amount),
    {
        let ghost before = self.entries@;
        let ghost at: int;
        match self.position(&who) {
            Some(i) => {
                self.entries[i] = (who, amount);
                proof {
                    at = i as int;
                }
            },
            None => {
                self.entries.push((who, amount));
                proof {
                    at = before.len() as int;
                }
            },
        }
        proof {
            let after = self.entries@;
            assert(key_at(after, who, at) && after[at].1 == amount);
            assert forall|i: int| 0 <= i < after.len() && i != at implies 0 <= i < before.len()
                && after[i] == before[i] && before[i].0 != who by {
                if 0 <= i < after.len() && i != at {
                    assert(!key_at(before, who, i) || at < before.len());
                }
            }
            assert(distinct_keys(after));
            lemma_mapping_at(after, at);
            assert forall|k: AccountId| #[trigger]
                mapping_of(after).contains_key(k) <==> mapping_of(before).insert(
                    who,
                    amount,
                ).contains_key(k) by {
                if mapping_of(after).contains_key(k) && k != who {
                    let i = choose|i: int| key_at(after, k, i);
                    assert(key_at(before, k, i));
                }
                if mapping_of(before).contains_key(k) && k != who {
                    let i = choose|i: int| key_at(before, k, i);
                    assert(key_at(after, k, i));
                }
            }
            assert forall|k: AccountId| #[trigger]
                mapping_of(after).contains_key(k) implies mapping_of(after)[k] == mapping_of(
                before,
            ).insert(who, amount)[k] by {
                if k != who {
                    let i = choose|i: int| key_at(after, k, i);
                    lemma_mapping_at(after, i);
                    assert(key_at(before, k, i));
                    lemma_mapping_at(before, i);
                }
            }
            assert(mapping_of(after) =~= mapping_of(before).insert(who, amount));
            if exists|i: int| key_at(before, who, i) {
                let i = choose|i: int| key_at(before, who, i);
                assert(i == at);
            }
        }
    }
}

} // verus!
