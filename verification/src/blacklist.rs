//! The blacklist registry: one record per flagged (or once-flagged)
//! address, created lazily on first use and never deleted, so that the
//! history of flagging stays auditable. Mathematically the registry is a
//! map from an address's bytes to its current flag; an address outside
//! the map's domain has never been touched and is not blacklisted.
use vstd::prelude::*;

use crate::errors::ProgramError;
use crate::state::{Address, BlacklistEntry, Config, Role};
use crate::state::require_role;

verus! {

/// No two records govern the same address.
spec fn unique_keys(s: Seq<(Address, BlacklistEntry)>) -> bool {
    forall|i: int, j: int| 0 <= i < j < s.len() ==> s[i].0@ != s[j].0@
}

/// The map a sequence of records denotes: each address's bytes bound to
/// the flag of its record.
spec fn entries_map(s: Seq<(Address, BlacklistEntry)>) -> Map<Seq<u8>, bool>
    decreases s.len(),
{
    if s.len() == 0 {
        Map::empty()
    } else {
        entries_map(s.drop_last()).insert(s.last().0@, s.last().1.is_blacklisted)
    }
}

proof fn lemma_unique_keys_drop_last(s: Seq<(Address, BlacklistEntry)>)
    requires
        unique_keys(s),
        s.len() > 0,
    ensures
        unique_keys(s.drop_last()),
{
    assert forall|i: int, j: int|
        0 <= i < j < s.drop_last().len() implies s.drop_last()[i].0@ != s.drop_last()[j].0@ by {
        assert(s[i].0@ != s[j].0@);
    }
}

/// A record's address is in the denoted map's domain, bound to the
/// record's flag.
proof fn lemma_entries_map_lookup(s: Seq<(Address, BlacklistEntry)>, i: int)
    requires
        unique_keys(s),
        0 <= i < s.len(),
    ensures
        entries_map(s).dom().contains(s[i].0@),
        entries_map(s)[s[i].0@] == s[i].1.is_blacklisted,
    decreases s.len(),
{
    if i < s.len() - 1 {
        lemma_unique_keys_drop_last(s);
        lemma_entries_map_lookup(s.drop_last(), i);
        assert(s.drop_last()[i] == s[i]);
        assert(s[i].0@ != s.last().0@);
    }
}

/// An address no record governs is outside the denoted map's domain.
proof fn lemma_entries_map_absent(s: Seq<(Address, BlacklistEntry)>, key: Seq<u8>)
    requires
        forall|i: int| 0 <= i < s.len() ==> s[i].0@ != key,
    ensures
        !entries_map(s).dom().contains(key),
    decreases s.len(),
{
    if s.len() > 0 {
        lemma_entries_map_absent(s.drop_last(), key);
        assert(s.last().0@ != key);
    }
}

/// Overwriting the record at `i` with one governing the same address
/// denotes an insertion of that address's new flag.
proof fn lemma_entries_map_update(
    s: Seq<(Address, BlacklistEntry)>,
    i: int,
    p: (Address, BlacklistEntry),
)
    requires
        unique_keys(s),
        0 <= i < s.len(),
        p.0@ == s[i].0@,
    ensures
        entries_map(s.update(i, p)) == entries_map(s).insert(p.0@, p.1.is_blacklisted),
        unique_keys(s.update(i, p)),
    decreases s.len(),
{
    let t = s.update(i, p);
    assert forall|a: int, b: int| 0 <= a < b < t.len() implies t[a].0@ != t[b].0@ by {
        assert(s[a].0@ != s[b].0@);
    }
    if i == s.len() - 1 {
        assert(t.drop_last() =~= s.drop_last());
        assert(t.last() == p);
        assert(entries_map(t) =~= entries_map(s).insert(p.0@, p.1.is_blacklisted));
    } else {
        lemma_unique_keys_drop_last(s);
        lemma_entries_map_update(s.drop_last(), i, p);
        assert(t.drop_last() =~= s.drop_last().update(i, p));
        assert(t.last() == s.last());
        assert(s[i].0@ != s.last().0@);
        assert(entries_map(t) =~= entries_map(s).insert(p.0@, p.1.is_blacklisted));
    }
}

/// Appending a record for a fresh address denotes an insertion of its
/// flag, and keeps the records' addresses distinct.
proof fn lemma_entries_map_push(
    s: Seq<(Address, BlacklistEntry)>,
    p: (Address, BlacklistEntry),
)
    requires
        unique_keys(s),
        forall|i: int| 0 <= i < s.len() ==> s[i].0@ != p.0@,
    ensures
        entries_map(s.push(p)) == entries_map(s).insert(p.0@, p.1.is_blacklisted),
        unique_keys(s.push(p)),
{
    let t = s.push(p);
    assert(t.drop_last() =~= s);
    assert(t.last() == p);
    assert forall|a: int, b: int| 0 <= a < b < t.len() implies t[a].0@ != t[b].0@ by {
        if b < s.len() {
            assert(s[a].0@ != s[b].0@);
        }
    }
}

/// With one record per address, the denoted map has exactly one binding
/// per record.
proof fn lemma_entries_map_len(s: Seq<(Address, BlacklistEntry)>)
    requires
        unique_keys(s),
    ensures
        entries_map(s).dom().finite(),
        entries_map(s).dom().len() == s.len(),
    decreases s.len(),
{
    if s.len() == 0 {
        assert(entries_map(s).dom() =~= Set::<Seq<u8>>::empty());
    } else {
        lemma_unique_keys_drop_last(s);
        lemma_entries_map_len(s.drop_last());
        assert forall|i: int|
            0 <= i < s.drop_last().len() implies s.drop_last()[i].0@ != s.last().0@ by {
            assert(s[i].0@ != s.last().0@);
        }
        lemma_entries_map_absent(s.drop_last(), s.last().0@);
        assert(entries_map(s).dom() =~= entries_map(s.drop_last()).dom().insert(s.last().0@));
    }
}

/// The blacklist registry. Its view, `self@`, is the map from governed
/// addresses (as byte sequences) to their current flag. Records are
/// created on first use and never removed: unblacklisting merely stores
/// `false`.
pub struct Blacklist {
    entries: Vec<(Address, BlacklistEntry)>,
}

impl View for Blacklist {
    type V = Map<Seq<u8>, bool>;

    closed spec fn view(&self) -> Map<Seq<u8>, bool> {
        entries_map(self.entries@)
    }
}

impl Blacklist {
    #[verifier::type_invariant]
    spec fn wf(self) -> bool {
        unique_keys(self.entries@)
    }

    /// An empty registry: no address has ever been flagged.
    pub fn new() -> (r: Blacklist)
        ensures
            r@ == Map::<Seq<u8>, bool>::empty(),
    {
        Blacklist { entries: Vec::new() }
    }

    /// The index of the record governing `target`, if one exists.
    fn find_index(&self, target: &Address) -> (r: Option<usize>)
        ensures
            r matches Some(i) ==> i < self.entries@.len() && self.entries@[i as int].0@ == target@,
            r is None ==> forall|j: int| 0 <= j < self.entries@.len() ==> self.entries@[j].0@ != target@,
    {
        let mut i: usize = 0;
        while i < self.entries.len()
            invariant
                0 <= i <= self.entries@.len(),
                forall|j: int| 0 <= j < i ==> self.entries@[j].0@ != target@,
            decreases self.entries@.len() - i,
        {
            if self.entries[i].0.addr_eq(target) {
                return Some(i);
            }
            i += 1;
        }
        None
    }

    /// Store `blacklisted` as the flag governing `target`, creating the
    /// record if this is the first call for that address and overwriting
    /// its flag otherwise. Storing the flag a record already holds is
    /// legal and changes nothing.
    pub fn set_entry(&mut self, target: &Address, blacklisted: bool)
        ensures
            final(self)@ == old(self)@.insert(target@, blacklisted),
    {
        proof {
            use_type_invariant(&*self);
        }
        let idx = self.find_index(target);
        let record = (
            Address { bytes: target.bytes },
            BlacklistEntry { is_blacklisted: blacklisted },
        );
        let mut entries: Vec<(Address, BlacklistEntry)> = Vec::new();
        std::mem::swap(&mut entries, &mut self.entries);
        let ghost s0 = entries@;
        match idx {
            Some(i) => {
                entries.set(i, record);
                proof {
                    lemma_entries_map_update(s0, i as int, record);
                }
            },
            None => {
                entries.push(record);
                proof {
                    lemma_entries_map_push(s0, record);
                }
            },
        }
        std::mem::swap(&mut entries, &mut self.entries);
    }

    /// Whether `target` is currently blacklisted. An address that never
    /// received a record is not.
    pub fn is_blacklisted(&self, target: &Address) -> (r: bool)
        ensures
            r == (self@.dom().contains(target@) && self@[target@]),
    {
        proof {
            use_type_invariant(self);
        }
        match self.find_index(target) {
            Some(i) => {
                proof {
                    lemma_entries_map_lookup(self.entries@, i as int);
                }
                self.entries[i].1.is_blacklisted
            },
            None => {
                proof {
                    lemma_entries_map_absent(self.entries@, target@);
                }
                false
            },
        }
    }

    /// How many addresses have a record, flagged or since cleared.
    pub fn num_entries(&self) -> (r: usize)
        ensures
            r == self@.dom().len(),
    {
        proof {
            use_type_invariant(self);
            lemma_entries_map_len(self.entries@);
        }
        self.entries.len()
    }
}

/// Set the flag governing `target_address`, gated by the `blacklister`
/// role: any other caller is rejected with `UnauthorizedBlacklister` and
/// the registry is left exactly as it was.
pub fn set_blacklist(
    config: &Config,
    caller: &Address,
    blacklist: &mut Blacklist,
    target_address: &Address,
    blacklisted: bool,
) -> (r: Result<(), ProgramError>)
    ensures
        r is Ok <==> caller@ == config.blacklister@,
        r is Ok ==> final(blacklist)@ == old(blacklist)@.insert(target_address@, blacklisted),
        r is Err ==> r->Err_0 == ProgramError::UnauthorizedBlacklister
            && *final(blacklist) == *old(blacklist),
{
    match require_role(config, Role::Blacklister, caller) {
        Err(e) => Err(e),
        Ok(()) => {
            blacklist.set_entry(target_address, blacklisted);
            Ok(())
        },
    }
}

/// Flag `account_to_blacklist`; callable only by the `blacklister` role.
pub fn add_to_blacklist(
    config: &Config,
    caller: &Address,
    blacklist: &mut Blacklist,
    account_to_blacklist: &Address,
) -> (r: Result<(), ProgramError>)
    ensures
        r is Ok <==> caller@ == config.blacklister@,
        r is Ok ==> final(blacklist)@ == old(blacklist)@.insert(account_to_blacklist@, true),
        r is Err ==> r->Err_0 == ProgramError::UnauthorizedBlacklister
            && *final(blacklist) == *old(blacklist),
{
    set_blacklist(config, caller, blacklist, account_to_blacklist, true)
}

/// Clear the flag of `account_to_remove`, keeping its record; callable
/// only by the `blacklister` role.
pub fn remove_from_blacklist(
    config: &Config,
    caller: &Address,
    blacklist: &mut Blacklist,
    account_to_remove: &Address,
) -> (r: Result<(), ProgramError>)
    ensures
        r is Ok <==> caller@ == config.blacklister@,
        r is Ok ==> final(blacklist)@ == old(blacklist)@.insert(account_to_remove@, false),
        r is Err ==> r->Err_0 == ProgramError::UnauthorizedBlacklister
            && *final(blacklist) == *old(blacklist),
{
    set_blacklist(config, caller, blacklist, account_to_remove, false)
}

} // verus!
