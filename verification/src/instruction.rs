use vstd::prelude::*;

use crate::addr::Address;

verus! {

/// One account referenced by an instruction, together with its access mode.
#[derive(Debug)]
pub struct AccountRole {
    pub address: Address,
    pub is_signer: bool,
    pub is_writable: bool,
}

/// A primitive ledger instruction: the program that executes it, the ordered
/// account list it touches, and its opaque data payload.
#[derive(Debug)]
pub struct Instruction {
    pub program: Address,
    pub accounts: Vec<AccountRole>,
    pub data: Vec<u8>,
}

/// Holds when `a` references address `addr` with the given signer and
/// writability flags.
pub open spec fn is_account(a: AccountRole, addr: Seq<u8>, signer: bool, writable: bool) -> bool {
    &&& a.address@ == addr
    &&& a.is_signer == signer
    &&& a.is_writable == writable
}

impl AccountRole {
    /// A writable, non-signing account reference.
    pub fn writable(address: Address) -> (r: AccountRole)
        ensures
            is_account(r, address@, false, true),
    {
        AccountRole { address, is_signer: false, is_writable: true }
    }

    /// A writable account reference that must sign the transaction.
    pub fn writable_signer(address: Address) -> (r: AccountRole)
        ensures
            is_account(r, address@, true, true),
    {
        AccountRole { address, is_signer: true, is_writable: true }
    }

    /// A read-only, non-signing account reference.
    pub fn readonly(address: Address) -> (r: AccountRole)
        ensures
            is_account(r, address@, false, false),
    {
        AccountRole { address, is_signer: false, is_writable: false }
    }

    /// A read-only account reference that must sign the transaction.
    pub fn readonly_signer(address: Address) -> (r: AccountRole)
        ensures
            is_account(r, address@, true, false),
    {
        AccountRole { address, is_signer: true, is_writable: false }
    }
}

impl Instruction {
    /// Every account of a well-formed instruction is a 32-byte address, as is
    /// the program that executes it.
    pub open spec fn wf(&self) -> bool {
        &&& self.program.wf()
        &&& forall|i: int| 0 <= i < self.accounts@.len() ==> (#[trigger] self.accounts@[i]).address.wf()
    }
}

} // verus!
