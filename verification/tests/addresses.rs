use anchor_lang::prelude::Pubkey;
use solsocial::state::keys::{
    get_key_holder_pda, get_key_transaction_pda, get_user_keys_pda, KEY_HOLDER_SEED,
    KEY_TRANSACTION_SEED, USER_KEYS_SEED,
};

const PROGRAM: [u8; 32] = [3; 32];
const USER: [u8; 32] = [5; 32];
const HOLDER: [u8; 32] = [6; 32];

#[test]
fn seeds_spell_their_names() {
    assert_eq!(&USER_KEYS_SEED[..], "user_keys".as_bytes());
    assert_eq!(&KEY_HOLDER_SEED[..], "key_holder".as_bytes());
    assert_eq!(&KEY_TRANSACTION_SEED[..], "key_transaction".as_bytes());
}

#[test]
fn ledger_address_is_derived_from_the_user() {
    let (address, bump) = get_user_keys_pda(&USER, &PROGRAM).unwrap();
    let program = Pubkey::new_from_array(PROGRAM);
    let expected =
        Pubkey::create_program_address(&["user_keys".as_bytes(), &USER[..], &[bump]], &program)
            .unwrap();
    assert_eq!(address, expected.to_bytes());
    assert_ne!(address, USER);
    assert_ne!(address, PROGRAM);
    assert!(!expected.is_on_curve());
    assert_eq!(get_user_keys_pda(&USER, &PROGRAM), Some((address, bump)));
    assert_ne!(get_user_keys_pda(&HOLDER, &PROGRAM).unwrap().0, address);
    assert_ne!(get_user_keys_pda(&USER, &HOLDER).unwrap().0, address);
}

#[test]
fn position_address_is_derived_from_holder_and_subject() {
    let (address, bump) = get_key_holder_pda(&HOLDER, &USER, &PROGRAM).unwrap();
    let program = Pubkey::new_from_array(PROGRAM);
    let (expected, expected_bump) = Pubkey::find_program_address(
        &["key_holder".as_bytes(), &HOLDER[..], &USER[..]],
        &program,
    );
    assert_eq!(address, expected.to_bytes());
    assert_eq!(bump, expected_bump);
    assert_ne!(get_key_holder_pda(&USER, &HOLDER, &PROGRAM).unwrap().0, address);
}

#[test]
fn trade_address_is_derived_from_the_time_of_the_trade() {
    let program = Pubkey::new_from_array(PROGRAM);
    for timestamp in [0i64, 1, 1_700_000_000, -1, i64::MIN, i64::MAX] {
        let (address, bump) =
            get_key_transaction_pda(&USER, &HOLDER, timestamp, &PROGRAM).unwrap();
        let (expected, expected_bump) = Pubkey::find_program_address(
            &["key_transaction".as_bytes(), &USER[..], &HOLDER[..], &timestamp.to_le_bytes()],
            &program,
        );
        assert_eq!(address, expected.to_bytes());
        assert_eq!(bump, expected_bump);
    }
    assert_ne!(
        get_key_transaction_pda(&USER, &HOLDER, 1, &PROGRAM),
        get_key_transaction_pda(&USER, &HOLDER, 2, &PROGRAM)
    );
}
