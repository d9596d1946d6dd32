//! Core data model: participant identities, the role registry record, and
//! the per-address blacklist record.
use vstd::prelude::*;

use crate::errors::ProgramError;

verus! {

/// A participant identity: the raw bytes of a public key. Its
/// mathematical identity is the sequence of its bytes, `self@`.
#[derive(Clone, Copy, Debug)]
pub struct Address {
    pub bytes: [u8; 32],
}

impl View for Address {
    type V = Seq<u8>;

    open spec fn view(&self) -> Seq<u8> {
        self.bytes@
    }
}

impl Address {
    pub fn new(bytes: [u8; 32]) -> (r: Address)
        ensures
            r@ == bytes@,
    {
        Address { bytes }
    }

    /// Byte-wise equality of two identities.
    pub fn addr_eq(&self, other: &Address) -> (r: bool)
        ensures
            r <==> self@ == other@,
    {
        let mut i: usize = 0;
        while i < 32
            invariant
                0 <= i <= 32,
                forall|j: int| 0 <= j < i ==> self.bytes@[j] == other.bytes@[j],
            decreases 32 - i,
        {
            if self.bytes[i] != other.bytes[i] {
                return false;
            }
            i += 1;
        }
        proof {
            assert(self.bytes@ =~= other.bytes@);
        }
        true
    }
}

impl PartialEq for Address {
    fn eq(&self, other: &Address) -> (r: bool) {
        self.addr_eq(other)
    }
}

impl vstd::std_specs::cmp::PartialEqSpecImpl for Address {
    open spec fn obeys_eq_spec() -> bool {
        true
    }

    open spec fn eq_spec(&self, other: &Address) -> bool {
        self@ == other@
    }
}

/// The role record of the singleton registry: one authorized identity per
/// privileged role. `master` alone may rotate the other five roles and is
/// itself immutable after creation. Roles carry no hierarchy, and the same
/// identity may hold several of them.
#[derive(Clone, Copy, Debug)]
pub struct Config {
    pub master: Address,
    pub minter: Address,
    pub burner: Address,
    pub pauser: Address,
    pub blacklister: Address,
    pub seizer: Address,
}

/// The record kept for an address that is or once was blacklisted.
/// The governed address is the key under which the record is stored,
/// not a field of it.
#[derive(Clone, Copy, Debug)]
pub struct BlacklistEntry {
    pub is_blacklisted: bool,
}

/// The privileged role families a caller can be checked against.
#[derive(Clone, Copy, Debug, PartialEq, Eq, Structural)]
pub enum Role {
    Master,
    Minter,
    Burner,
    Pauser,
    Blacklister,
    Seizer,
}

/// The identity that a role record binds to the given role.
pub open spec fn role_holder(config: Config, role: Role) -> Seq<u8> {
    match role {
        Role::Master => config.master@,
        Role::Minter => config.minter@,
        Role::Burner => config.burner@,
        Role::Pauser => config.pauser@,
        Role::Blacklister => config.blacklister@,
        Role::Seizer => config.seizer@,
    }
}

/// The rejection returned when a caller does not hold the given role.
pub open spec fn role_error(role: Role) -> ProgramError {
    match role {
        Role::Master => ProgramError::UnauthorizedMaster,
        Role::Minter => ProgramError::UnauthorizedMinter,
        Role::Burner => ProgramError::UnauthorizedBurner,
        Role::Pauser => ProgramError::UnauthorizedPauser,
        Role::Blacklister => ProgramError::UnauthorizedBlacklister,
        Role::Seizer => ProgramError::UnauthorizedSeizer,
    }
}

/// The authorization primitive every privileged operation goes through: a
/// pure equality check between the caller's identity and the one identity
/// the registry binds to `role`. Holding one role grants nothing about
/// any other.
pub fn require_role(config: &Config, role: Role, caller: &Address) -> (r: Result<(), ProgramError>)
    ensures
        r is Ok <==> caller@ == role_holder(*config, role),
        r is Err ==> r->Err_0 == role_error(role),
{
    let holder = match role {
        Role::Master => &config.master,
        Role::Minter => &config.minter,
        Role::Burner => &config.burner,
        Role::Pauser => &config.pauser,
        Role::Blacklister => &config.blacklister,
        Role::Seizer => &config.seizer,
    };
    if caller.addr_eq(holder) {
        Ok(())
    } else {
        let e = match role {
            Role::Master => ProgramError::UnauthorizedMaster,
            Role::Minter => ProgramError::UnauthorizedMinter,
            Role::Burner => ProgramError::UnauthorizedBurner,
            Role::Pauser => ProgramError::UnauthorizedPauser,
            Role::Blacklister => ProgramError::UnauthorizedBlacklister,
            Role::Seizer => ProgramError::UnauthorizedSeizer,
        };
        Err(e)
    }
}

} // verus!
