use vstd::prelude::*;

verus! {

/// A 32-byte identity: an account's address, or the address of a program.
#[derive(Debug, Clone, Copy, PartialEq, Eq)]
pub struct Pubkey {
    pub bytes: [u8; 32],
}

impl Pubkey {
    pub fn new(bytes: [u8; 32]) -> (r: Pubkey)
        ensures
            r.bytes == bytes,
    {
        Pubkey { bytes }
    }

    /// Whether the two identities are the same, byte for byte.
    pub fn same_as(&self, other: &Pubkey) -> (r: bool)
        ensures
            r == (*self == *other),
    {
        let mut i: usize = 0;
        while i < 32
            invariant
                0 <= i <= 32,
                forall|j: int| 0 <= j < i ==> self.bytes[j] == other.bytes[j],
            decreases 32 - i,
        {
            if self.bytes[i] != other.bytes[i] {
                return false;
            }
            i = i + 1;
        }
        assert(self.bytes =~= other.bytes);
        true
    }
}

/// What the program can see of an account handed to it: its identity, the
/// identity of the program that owns it, its signer and writable flags, and
/// its storage.
#[derive(Debug, Clone)]
pub struct AccountInfo {
    pub key: Pubkey,
    pub owner: Pubkey,
    pub is_signer: bool,
    pub is_writable: bool,
    pub data: Vec<u8>,
}

/// An account as a mathematical value.
pub struct AccountState {
    pub key: Pubkey,
    pub owner: Pubkey,
    pub is_signer: bool,
    pub is_writable: bool,
    pub data: Seq<u8>,
}

impl View for AccountInfo {
    type V = AccountState;

    open spec fn view(&self) -> AccountState {
        AccountState {
            key: self.key,
            owner: self.owner,
            is_signer: self.is_signer,
            is_writable: self.is_writable,
            data: self.data@,
        }
    }
}

/// The states of a list of accounts, in order.
pub open spec fn accounts_view(accounts: Seq<AccountInfo>) -> Seq<AccountState> {
    accounts.map_values(|a: AccountInfo| a@)
}

} // verus!
