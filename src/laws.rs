//! Properties of invocations, stated over the model that the contract of
//! `process_instruction` uses.
use vstd::prelude::*;

use crate::account::{AccountState, Pubkey};
use crate::error::CounterError;
use crate::processor::{accounts_after, incremented, invocation_result};
use crate::state::{lemma_decode_encode, u32_from_le, RECORD_LEN};

verus! {

/// The target account is owned by `program_id` and holds a four-byte record.
pub open spec fn well_formed_target(program_id: Pubkey, accounts: Seq<AccountState>) -> bool {
    &&& accounts.len() > 0
    &&& accounts[0].owner == program_id
    &&& accounts[0].data.len() == RECORD_LEN
}

/// An invocation on an owned account holding counter `n < u32::MAX` succeeds and
/// leaves a record holding `n + 1`; the other accounts are untouched.
pub proof fn lemma_increments(
    program_id: Pubkey,
    accounts: Seq<AccountState>,
    instruction_data: Seq<u8>,
)
    requires
        well_formed_target(program_id, accounts),
        u32_from_le(accounts[0].data) < u32::MAX,
    ensures
        invocation_result(program_id, accounts, instruction_data) is Ok,
        ({
            let after = accounts_after(program_id, accounts, instruction_data);
            &&& well_formed_target(program_id, after)
            &&& u32_from_le(after[0].data) == u32_from_le(accounts[0].data) + 1
            &&& after.subrange(1, after.len() as int) == accounts.subrange(
                1,
                accounts.len() as int,
            )
        }),
{
    let after = accounts_after(program_id, accounts, instruction_data);
    lemma_decode_encode(incremented(u32_from_le(accounts[0].data)));
    assert(after.subrange(1, after.len() as int) =~= accounts.subrange(1, accounts.len() as int));
}

/// An invocation on an owned account holding `u32::MAX` succeeds and leaves a
/// record holding zero: the counter wraps around.
pub proof fn lemma_wraps_around(
    program_id: Pubkey,
    accounts: Seq<AccountState>,
    instruction_data: Seq<u8>,
)
    requires
        well_formed_target(program_id, accounts),
        u32_from_le(accounts[0].data) == u32::MAX,
    ensures
        invocation_result(program_id, accounts, instruction_data) is Ok,
        ({
            let after = accounts_after(program_id, accounts, instruction_data);
            &&& well_formed_target(program_id, after)
            &&& u32_from_le(after[0].data) == 0
        }),
{
    lemma_decode_encode(0);
}

/// An invocation whose target account is owned by another program fails with
/// `IncorrectOwner` and changes nothing, whatever the payload and the storage.
pub proof fn lemma_ownership_gate(
    program_id: Pubkey,
    accounts: Seq<AccountState>,
    instruction_data: Seq<u8>,
)
    requires
        accounts.len() > 0,
        accounts[0].owner != program_id,
    ensures
        invocation_result(program_id, accounts, instruction_data) == Err::<(), CounterError>(
            CounterError::IncorrectOwner,
        ),
        accounts_after(program_id, accounts, instruction_data) == accounts,
{
}

/// An invocation without accounts fails with `MissingAccount` and changes nothing.
pub proof fn lemma_missing_account(
    program_id: Pubkey,
    accounts: Seq<AccountState>,
    instruction_data: Seq<u8>,
)
    requires
        accounts.len() == 0,
    ensures
        invocation_result(program_id, accounts, instruction_data) == Err::<(), CounterError>(
            CounterError::MissingAccount,
        ),
        accounts_after(program_id, accounts, instruction_data) == accounts,
{
}

/// The payload has no effect: two invocations on the same accounts with
/// different payloads have the same outcome and leave the same accounts.
pub proof fn lemma_payload_independent(
    program_id: Pubkey,
    accounts: Seq<AccountState>,
    data1: Seq<u8>,
    data2: Seq<u8>,
)
    ensures
        invocation_result(program_id, accounts, data1) == invocation_result(
            program_id,
            accounts,
            data2,
        ),
        accounts_after(program_id, accounts, data1) == accounts_after(program_id, accounts, data2),
{
}

/// An invocation on an owned account whose storage is not exactly four bytes
/// long fails with `DecodeError` and changes nothing.
pub proof fn lemma_decode_failure(
    program_id: Pubkey,
    accounts: Seq<AccountState>,
    instruction_data: Seq<u8>,
)
    requires
        accounts.len() > 0,
        accounts[0].owner == program_id,
        accounts[0].data.len() != RECORD_LEN,
    ensures
        invocation_result(program_id, accounts, instruction_data) == Err::<(), CounterError>(
            CounterError::DecodeError,
        ),
        accounts_after(program_id, accounts, instruction_data) == accounts,
{
}

/// Invoking is not idempotent: two invocations in a row on an owned account
/// holding `n` both succeed and leave `n + 2` (modulo 2^32), which differs from
/// the `n + 1` that one invocation leaves.
pub proof fn lemma_two_invocations(
    program_id: Pubkey,
    accounts: Seq<AccountState>,
    data1: Seq<u8>,
    data2: Seq<u8>,
)
    requires
        well_formed_target(program_id, accounts),
    ensures
        ({
            let once = accounts_after(program_id, accounts, data1);
            let twice = accounts_after(program_id, once, data2);
            &&& invocation_result(program_id, accounts, data1) is Ok
            &&& invocation_result(program_id, once, data2) is Ok
            &&& u32_from_le(once[0].data) == (u32_from_le(accounts[0].data) + 1) % 0x1_0000_0000
            &&& u32_from_le(twice[0].data) == (u32_from_le(accounts[0].data) + 2) % 0x1_0000_0000
            &&& u32_from_le(twice[0].data) != u32_from_le(once[0].data)
        }),
{
    let n = u32_from_le(accounts[0].data);
    lemma_decode_encode(incremented(n));
    lemma_decode_encode(incremented(incremented(n)));
}

} // verus!
