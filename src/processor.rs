use vstd::prelude::*;

use crate::account::{accounts_view, AccountInfo, AccountState, Pubkey};
use crate::error::CounterError;
use crate::state::{u32_from_le, u32_to_le, CounterAccount, RECORD_LEN};

verus! {

/// The counter after one increment: one more, with `u32::MAX` wrapping to zero.
pub open spec fn incremented(n: u32) -> u32 {
    if n == u32::MAX {
        0
    } else {
        (n + 1) as u32
    }
}

/// The outcome of invoking the program as `program_id` on `accounts` with
/// `instruction_data`. The payload takes no part in it.
pub open spec fn invocation_result(
    program_id: Pubkey,
    accounts: Seq<AccountState>,
    instruction_data: Seq<u8>,
) -> Result<(), CounterError> {
    if accounts.len() == 0 {
        Err(CounterError::MissingAccount)
    } else if accounts[0].owner != program_id {
        Err(CounterError::IncorrectOwner)
    } else if accounts[0].data.len() != RECORD_LEN {
        Err(CounterError::DecodeError)
    } else {
        Ok(())
    }
}

/// The target account after a successful invocation: its stored counter
/// incremented, everything else as it was.
pub open spec fn counted(account: AccountState) -> AccountState {
    AccountState { data: u32_to_le(incremented(u32_from_le(account.data))), ..account }
}

/// The accounts after invoking the program as `program_id` on `accounts` with
/// `instruction_data`: only a successful invocation changes anything, and then
/// only the first account's storage.
pub open spec fn accounts_after(
    program_id: Pubkey,
    accounts: Seq<AccountState>,
    instruction_data: Seq<u8>,
) -> Seq<AccountState> {
    if invocation_result(program_id, accounts, instruction_data) is Ok {
        accounts.update(0, counted(accounts[0]))
    } else {
        accounts
    }
}

/// Runs the counter program as `program_id` on `accounts`. The first account is
/// the target: it must be owned by `program_id` and its storage must hold
/// exactly one encoded counter record, which is replaced by the record with the
/// counter incremented. Further accounts and the instruction data are ignored.
pub fn process_instruction(
    program_id: &Pubkey,
    accounts: &mut Vec<AccountInfo>,
    instruction_data: &[u8],
) -> (r: Result<(), CounterError>)
    ensures
        final(accounts)@.len() == old(accounts)@.len(),
        r == invocation_result(*program_id, accounts_view(old(accounts)@), instruction_data@),
        accounts_view(final(accounts)@) == accounts_after(
            *program_id,
            accounts_view(old(accounts)@),
            instruction_data@,
        ),
{
    let ghost before = accounts_view(accounts@);
    if accounts.len() == 0 {
        return Err(CounterError::MissingAccount);
    }
    assert(before[0] == accounts@[0]@);
    if !accounts[0].owner.same_as(program_id) {
        return Err(CounterError::IncorrectOwner);
    }
    let mut counter = match CounterAccount::try_from_slice(accounts[0].data.as_slice()) {
        Ok(c) => c,
        Err(e) => return Err(e),
    };
    counter.count = counter.count.wrapping_add(1);
    let account = &mut accounts[0];
    if let Err(e) = counter.serialize(&mut account.data) {
        return Err(e);
    }
    assert(accounts_view(accounts@) =~= accounts_after(*program_id, before, instruction_data@));
    Ok(())
}

} // verus!
