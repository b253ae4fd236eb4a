//! The two persistent state entities behind the treasury: the singleton
//! [`TreasuryConfig`] and the per-address [`BotRoleTable`]. The engine works
//! on a transient, exclusively owned copy of each during one call; the
//! durable copy belongs to the persistence collaborator outside this crate.

use vstd::prelude::*;

verus! {

/// An account identity, an opaque address string. The engine never inspects
/// an address beyond comparing it for equality.
#[derive(Debug)]
pub struct Addr {
    id: String,
}

impl View for Addr {
    type V = Seq<char>;

    closed spec fn view(&self) -> Seq<char> {
        self.id@
    }
}

impl Addr {
    pub fn new(id: String) -> (addr: Addr)
        ensures
            addr@ == id@,
    {
        Addr { id }
    }

    pub fn as_str(&self) -> (s: &str)
        ensures
            s@ == self@,
    {
        self.id.as_str()
    }
}

impl Clone for Addr {
    fn clone(&self) -> (other: Self)
        ensures
            other@ == self@,
    {
        Addr { id: self.id.clone() }
    }
}

impl PartialEq for Addr {
    fn eq(&self, other: &Addr) -> bool {
        self.id == other.id
    }
}

impl vstd::std_specs::cmp::PartialEqSpecImpl for Addr {
    open spec fn obeys_eq_spec() -> bool {
        true
    }

    open spec fn eq_spec(&self, other: &Addr) -> bool {
        self@ == other@
    }
}

/// The singleton treasury state: the owner permitted to perform admin
/// operations, and the fees accrued but not yet withdrawn, in the treasury's
/// native unit. The accumulator is unsigned, so a negative fee balance is
/// unrepresentable; every decrease is checked against the current value.
pub struct TreasuryConfig {
    pub owner: Addr,
    pub pending_platform_fee: u128,
}

/// The value of `entries`, read as a partial map keyed by address. The most
/// recently written entry for a key wins, so pushing is an upsert.
spec fn role_lookup(entries: Seq<(Addr, bool)>, key: Seq<char>) -> Option<bool>
    decreases entries.len(),
{
    if entries.len() == 0 {
        None
    } else if entries.last().0@ == key {
        Some(entries.last().1)
    } else {
        role_lookup(entries.drop_last(), key)
    }
}

/// The bot-role table: address -> enabled flag. Absence of an entry is
/// distinct from an entry set to `false`: a caller with no entry was never
/// granted a role, one with a `false` entry was explicitly disabled. The
/// engine rejects both for a buy, for distinguishable reasons.
pub struct BotRoleTable {
    entries: Vec<(Addr, bool)>,
}

impl BotRoleTable {
    /// The table as a partial map: `None` for an address that has no entry.
    pub closed spec fn spec_get(&self, key: Seq<char>) -> Option<bool> {
        role_lookup(self.entries@, key)
    }

    pub fn new() -> (table: BotRoleTable)
        ensures
            forall|key: Seq<char>| #[trigger] table.spec_get(key) is None,
    {
        BotRoleTable { entries: Vec::new() }
    }

    /// The entry for `addr`, if any was ever written.
    pub fn get(&self, addr: &Addr) -> (entry: Option<bool>)
        ensures
            entry == self.spec_get(addr@),
    {
        proof {
            assert(self.entries@.take(self.entries@.len() as int) =~= self.entries@);
        }
        let mut i: usize = self.entries.len();
        while i > 0
            invariant
                i <= self.entries.len(),
                role_lookup(self.entries@.take(i as int), addr@) == self.spec_get(addr@),
            decreases i,
        {
            i = i - 1;
            if self.entries[i].0 == *addr {
                proof {
                    assert(self.entries@.take(i + 1).last() == self.entries@[i as int]);
                }
                return Some(self.entries[i].1);
            }
            proof {
                assert(self.entries@.take(i + 1).last() == self.entries@[i as int]);
                assert(self.entries@.take(i + 1).drop_last() =~= self.entries@.take(i as int));
            }
        }
        None
    }

    /// Create or overwrite the entry for `addr`. There is no restriction on
    /// repeatedly setting the same address, or on disabling one that was
    /// never enabled.
    pub fn set(&mut self, addr: Addr, enabled: bool)
        ensures
            forall|key: Seq<char>| #[trigger] final(self).spec_get(key) == (if key == addr@ {
                Some(enabled)
            } else {
                old(self).spec_get(key)
            }),
    {
        let ghost prev = self.entries@;
        let ghost key_added = addr@;
        self.entries.push((addr, enabled));
        proof {
            assert(self.entries@.last().0@ == key_added);
            assert(self.entries@.last().1 == enabled);
            assert(self.entries@.drop_last() =~= prev);
            assert forall|key: Seq<char>| #[trigger] self.spec_get(key) == (if key == key_added {
                Some(enabled)
            } else {
                old(self).spec_get(key)
            }) by {
                assert(role_lookup(self.entries@, key) == (if self.entries@.last().0@ == key {
                    Some(self.entries@.last().1)
                } else {
                    role_lookup(self.entries@.drop_last(), key)
                }));
            }
        }
    }
}

} // verus!
