//! The singleton registry slot and its maintenance operations: creation of
//! the role record, and rotation of the five non-master roles by `master`.
use vstd::prelude::*;

use crate::errors::ProgramError;
use crate::state::{Address, Config};

verus! {

/// The one registry slot a deployment owns. It starts empty, is filled
/// exactly once by [`Registry::initialize_config`], and is never
/// destroyed; every later operation reads the record it holds.
pub struct Registry {
    slot: Option<Config>,
}

impl Registry {
    /// Whether the role record has been created.
    pub closed spec fn is_initialized(self) -> bool {
        self.slot is Some
    }

    /// The role record held by the slot; meaningful only once
    /// [`Registry::is_initialized`] holds.
    pub closed spec fn config(self) -> Config
        recommends
            self.is_initialized(),
    {
        self.slot->0
    }

    /// An empty slot: the state of a deployment before initialization.
    pub fn new() -> (r: Registry)
        ensures
            !r.is_initialized(),
    {
        Registry { slot: None }
    }

    /// Read the role record, if it has been created.
    pub fn current(&self) -> (r: Option<&Config>)
        ensures
            r is Some <==> self.is_initialized(),
            r matches Some(c) ==> *c == self.config(),
    {
        match &self.slot {
            Some(c) => Some(c),
            None => None,
        }
    }

    /// Create the role record, binding one identity to each of the six
    /// roles. Fails with `AlreadyInitialized`, leaving the record
    /// untouched, if the slot is already filled: the registry is created
    /// at most once per deployment.
    pub fn initialize_config(
        &mut self,
        master: Address,
        minter: Address,
        burner: Address,
        pauser: Address,
        blacklister: Address,
        seizer: Address,
    ) -> (r: Result<(), ProgramError>)
        ensures
            r is Ok <==> !old(self).is_initialized(),
            final(self).is_initialized(),
            r is Ok ==> final(self).config().master == master
                && final(self).config().minter == minter
                && final(self).config().burner == burner
                && final(self).config().pauser == pauser
                && final(self).config().blacklister == blacklister
                && final(self).config().seizer == seizer,
            r is Err ==> r->Err_0 == ProgramError::AlreadyInitialized
                && *final(self) == *old(self),
    {
        if self.slot.is_some() {
            return Err(ProgramError::AlreadyInitialized);
        }
        self.slot = Some(
            Config { master, minter, burner, pauser, blacklister, seizer },
        );
        Ok(())
    }

    /// Rotate the five non-master roles, all of them at once or none.
    /// Only the stored `master` may do so; any other caller is rejected
    /// with `UnauthorizedMaster` and the record is left exactly as it
    /// was. `master` itself cannot be changed by this operation.
    pub fn update_config(
        &mut self,
        caller: &Address,
        minter: Address,
        burner: Address,
        pauser: Address,
        blacklister: Address,
        seizer: Address,
    ) -> (r: Result<(), ProgramError>)
        requires
            old(self).is_initialized(),
        ensures
            final(self).is_initialized(),
            r is Ok <==> caller@ == old(self).config().master@,
            r is Ok ==> final(self).config().master == old(self).config().master
                && final(self).config().minter == minter
                && final(self).config().burner == burner
                && final(self).config().pauser == pauser
                && final(self).config().blacklister == blacklister
                && final(self).config().seizer == seizer,
            r is Err ==> r->Err_0 == ProgramError::UnauthorizedMaster
                && *final(self) == *old(self),
    {
        let config = self.slot.unwrap();
        if !caller.addr_eq(&config.master) {
            return Err(ProgramError::UnauthorizedMaster);
        }
        let master = config.master;
        self.slot = Some(Config { master, minter, burner, pauser, blacklister, seizer });
        Ok(())
    }
}

} // verus!
