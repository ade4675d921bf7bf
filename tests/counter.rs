use counter::{process_instruction, AccountInfo, CounterAccount, CounterError, Pubkey, RECORD_LEN};

fn program() -> Pubkey {
    Pubkey::new([7u8; 32])
}

fn account(owner: Pubkey, data: Vec<u8>) -> AccountInfo {
    AccountInfo { key: Pubkey::new([1u8; 32]), owner, is_signer: false, is_writable: true, data }
}

fn stored(n: u32) -> Vec<u8> {
    n.to_le_bytes().to_vec()
}

#[test]
fn increments_stored_counter() {
    let mut accounts = vec![account(program(), stored(41))];
    assert_eq!(process_instruction(&program(), &mut accounts, &[]), Ok(()));
    assert_eq!(accounts[0].data, stored(42));
}

#[test]
fn increments_from_zero() {
    let mut accounts = vec![account(program(), vec![0, 0, 0, 0])];
    assert_eq!(process_instruction(&program(), &mut accounts, &[]), Ok(()));
    assert_eq!(accounts[0].data, vec![1, 0, 0, 0]);
}

#[test]
fn carries_into_higher_bytes() {
    let mut accounts = vec![account(program(), vec![0xff, 0xff, 0, 0])];
    assert_eq!(process_instruction(&program(), &mut accounts, &[]), Ok(()));
    assert_eq!(accounts[0].data, vec![0, 0, 1, 0]);
}

#[test]
fn wraps_around_at_max() {
    let mut accounts = vec![account(program(), stored(u32::MAX))];
    assert_eq!(process_instruction(&program(), &mut accounts, &[]), Ok(()));
    assert_eq!(accounts[0].data, stored(0));
}

#[test]
fn foreign_owner_is_rejected() {
    let other = Pubkey::new([9u8; 32]);
    let mut accounts = vec![account(other, stored(5))];
    assert_eq!(
        process_instruction(&program(), &mut accounts, &[1, 2, 3]),
        Err(CounterError::IncorrectOwner)
    );
    assert_eq!(accounts[0].data, stored(5));
}

#[test]
fn foreign_owner_with_bad_storage_is_rejected_as_owner() {
    let mut other_bytes = [7u8; 32];
    other_bytes[31] = 8;
    let mut accounts = vec![account(Pubkey::new(other_bytes), vec![1, 2, 3])];
    assert_eq!(
        process_instruction(&program(), &mut accounts, &[]),
        Err(CounterError::IncorrectOwner)
    );
    assert_eq!(accounts[0].data, vec![1, 2, 3]);
}

#[test]
fn empty_account_list_is_rejected() {
    let mut accounts: Vec<AccountInfo> = Vec::new();
    assert_eq!(
        process_instruction(&program(), &mut accounts, &[0xaa]),
        Err(CounterError::MissingAccount)
    );
    assert!(accounts.is_empty());
}

#[test]
fn payload_does_not_matter() {
    let payloads: Vec<Vec<u8>> = vec![vec![], vec![3, 1, 4, 1, 5, 9, 2, 6], vec![0xee; 10_000]];
    for payload in payloads {
        let mut accounts = vec![account(program(), stored(100))];
        assert_eq!(process_instruction(&program(), &mut accounts, &payload), Ok(()));
        assert_eq!(accounts[0].data, stored(101));
        let mut short = vec![account(program(), vec![1, 2])];
        assert_eq!(
            process_instruction(&program(), &mut short, &payload),
            Err(CounterError::DecodeError)
        );
        assert_eq!(short[0].data, vec![1, 2]);
    }
}

#[test]
fn wrong_storage_length_is_a_decode_error() {
    for data in [vec![], vec![1, 2, 3], vec![1, 2, 3, 4, 5]] {
        let mut accounts = vec![account(program(), data.clone())];
        assert_eq!(
            process_instruction(&program(), &mut accounts, &[]),
            Err(CounterError::DecodeError)
        );
        assert_eq!(accounts[0].data, data);
    }
}

#[test]
fn two_invocations_add_two() {
    let mut accounts = vec![account(program(), stored(10))];
    assert_eq!(process_instruction(&program(), &mut accounts, &[]), Ok(()));
    let after_one = accounts[0].data.clone();
    assert_eq!(process_instruction(&program(), &mut accounts, &[]), Ok(()));
    assert_eq!(accounts[0].data, stored(12));
    assert_ne!(accounts[0].data, after_one);
}

#[test]
fn two_invocations_across_the_wrap() {
    let mut accounts = vec![account(program(), stored(u32::MAX - 1))];
    assert_eq!(process_instruction(&program(), &mut accounts, &[]), Ok(()));
    assert_eq!(process_instruction(&program(), &mut accounts, &[]), Ok(()));
    assert_eq!(accounts[0].data, stored(0));
}

#[test]
fn only_the_first_account_changes() {
    let second = account(program(), stored(3));
    let mut accounts = vec![account(program(), stored(3)), second.clone()];
    assert_eq!(process_instruction(&program(), &mut accounts, &[]), Ok(()));
    assert_eq!(accounts.len(), 2);
    assert_eq!(accounts[0].data, stored(4));
    assert_eq!(accounts[0].key, Pubkey::new([1u8; 32]));
    assert_eq!(accounts[0].owner, program());
    assert_eq!(accounts[1].data, second.data);
}

#[test]
fn decode_reads_little_endian() {
    let record = CounterAccount::try_from_slice(&[0x78, 0x56, 0x34, 0x12]).unwrap();
    assert_eq!(record.count, 0x1234_5678);
    assert_eq!(RECORD_LEN, 4);
}

#[test]
fn decode_rejects_other_lengths() {
    assert_eq!(CounterAccount::try_from_slice(&[]), Err(CounterError::DecodeError));
    assert_eq!(CounterAccount::try_from_slice(&[1, 2, 3]), Err(CounterError::DecodeError));
    assert_eq!(CounterAccount::try_from_slice(&[1, 2, 3, 4, 5]), Err(CounterError::DecodeError));
}

#[test]
fn encode_writes_little_endian_prefix() {
    let record = CounterAccount { count: 0x0a0b_0c0d };
    let mut buf = vec![0u8; 6];
    assert_eq!(record.serialize(&mut buf), Ok(()));
    assert_eq!(buf, vec![0x0d, 0x0c, 0x0b, 0x0a, 0, 0]);
}

#[test]
fn encode_into_short_buffer_fails() {
    let record = CounterAccount { count: 1 };
    let mut buf = vec![0u8; 3];
    assert_eq!(record.serialize(&mut buf), Err(CounterError::EncodeError));
    assert_eq!(buf.len(), 3);
}

#[test]
fn encode_after_decode_gives_back_the_bytes() {
    for bytes in [[0u8, 0, 0, 0], [1, 2, 3, 4], [0xff, 0xff, 0xff, 0xff], [0x80, 0, 0x7f, 0x01]] {
        let record = CounterAccount::try_from_slice(&bytes).unwrap();
        let mut buf = vec![0u8; 4];
        assert_eq!(record.serialize(&mut buf), Ok(()));
        assert_eq!(buf, bytes.to_vec());
    }
}

#[test]
fn identities_compare_byte_for_byte() {
    let a = Pubkey::new([5u8; 32]);
    let mut bytes = [5u8; 32];
    assert!(a.same_as(&Pubkey::new(bytes)));
    bytes[17] = 6;
    assert!(!a.same_as(&Pubkey::new(bytes)));
}
