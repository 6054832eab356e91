use spl_stake_pool_core::pool::StakePool;
use spl_stake_pool_core::typedefs::{
    AccountType, Fee, FutureEpoch, Lockup, StakeStatus, ValidatorListHeader,
};
use spl_stake_pool_core::validator_list::{DecodeError, ValidatorList, ValidatorStakeInfo};

fn key(b: u8) -> [u8; 32] {
    let mut k = [0u8; 32];
    for (i, x) in k.iter_mut().enumerate() {
        *x = b.wrapping_add(i as u8);
    }
    k
}

fn sample_pool() -> StakePool {
    StakePool {
        manager: key(1),
        staker: key(2),
        stake_deposit_authority: key(3),
        stake_withdraw_bump_seed: 254,
        validator_list: key(4),
        reserve_stake: key(5),
        pool_mint: key(6),
        manager_fee_account: key(7),
        token_program_id: key(8),
        total_lamports: 4135211783809274,
        pool_token_supply: 3792758591416065,
        last_update_epoch: 751,
        lockup: Lockup { unix_timestamp: -7, epoch: 3, custodian: key(9) },
        epoch_fee: Fee { denominator: 100, numerator: 3 },
        next_epoch_fee: FutureEpoch::Two(Fee { denominator: 100, numerator: 4 }),
        preferred_deposit_validator_vote_address: Some(key(10)),
        preferred_withdraw_validator_vote_address: None,
        stake_deposit_fee: Fee { denominator: 1000, numerator: 1 },
        stake_withdrawal_fee: Fee { denominator: 1000, numerator: 2 },
        next_stake_withdrawal_fee: FutureEpoch::One(Fee { denominator: 7, numerator: 0 }),
        stake_referral_fee: 50,
        sol_deposit_authority: Some(key(11)),
        sol_deposit_fee: Fee { denominator: 0, numerator: 0 },
        sol_referral_fee: 20,
        sol_withdraw_authority: Some(key(12)),
        sol_withdrawal_fee: Fee { denominator: 10000, numerator: 10 },
        next_sol_withdrawal_fee: FutureEpoch::Unset,
        last_epoch_pool_token_supply: 1,
        last_epoch_total_lamports: 2,
        ..Default::default()
    }
}

#[test]
fn test_stake_pool_serde() {
    let stake_pool = StakePool {
        total_lamports: 4135211783809274,
        pool_token_supply: 3792758591416065,
        ..Default::default()
    };
    let mut serialized = Vec::new();
    stake_pool.borsh_ser(&mut serialized);
    assert_eq!(serialized.len(), 435);
    let mut account_data = serialized.clone();
    account_data.extend_from_slice(&[0u8; 200]);
    let parsed = StakePool::borsh_de(&account_data).unwrap();
    assert_eq!(parsed.account_type, AccountType::StakePool);
    assert_eq!(parsed.pool_token_supply, 3792758591416065);
    assert_eq!(parsed.total_lamports, 4135211783809274);
    let mut again = Vec::new();
    parsed.borsh_ser(&mut again);
    assert_eq!(again, account_data[..435]);
}

#[test]
fn stake_pool_round_trip_with_options() {
    let sp = sample_pool();
    let mut bytes = Vec::new();
    sp.borsh_ser(&mut bytes);
    // 435 plus 16 for each of two pending fees and 32 for each of three keys
    assert_eq!(bytes.len(), 435 + 2 * 16 + 3 * 32);
    assert_eq!(bytes[0], 1);
    assert_eq!(&bytes[1..33], &key(1)[..]);
    assert_eq!(&bytes[258..266], &4135211783809274u64.to_le_bytes()[..]);
    assert_eq!(&bytes[282..290], &(-7i64).to_le_bytes()[..]);
    assert_eq!(StakePool::borsh_de(&bytes), Ok(sp.clone()));
    bytes.push(42);
    assert_eq!(StakePool::borsh_de(&bytes), Ok(sp));
}

#[test]
fn stake_pool_decode_errors() {
    let mut bytes = Vec::new();
    sample_pool().borsh_ser(&mut bytes);
    assert_eq!(StakePool::borsh_de(&bytes[..345]), Err(DecodeError::UnexpectedEnd));
    assert_eq!(StakePool::borsh_de(&bytes[..bytes.len() - 1]), Err(DecodeError::UnexpectedEnd));
    let mut bad = bytes.clone();
    bad[0] = 3;
    assert_eq!(StakePool::borsh_de(&bad), Err(DecodeError::InvalidTag));
    let mut bad = bytes.clone();
    bad[346] = 3;
    assert_eq!(StakePool::borsh_de(&bad), Err(DecodeError::InvalidTag));
}

fn validator(active: u64, epoch: u64, vote: u8) -> ValidatorStakeInfo {
    let mut v = ValidatorStakeInfo::zeroed();
    v.set_active_stake_lamports(active);
    v.set_transient_stake_lamports(0);
    v.set_last_update_epoch(epoch);
    v.set_transient_seed_suffix(5);
    v.set_validator_seed_suffix(Some(9));
    v.set_status(StakeStatus::Active);
    v.set_vote_account_address(key(vote));
    v
}

#[test]
fn test_validator_list_serde() {
    let list = ValidatorList {
        header: ValidatorListHeader { account_type: AccountType::ValidatorList, max_validators: 10000 },
        validators: vec![
            validator(2947319964963369, 751, 1),
            validator(1, 750, 2),
            validator(2, 749, 3),
        ],
    };
    let mut account_data = Vec::new();
    list.borsh_ser(&mut account_data).unwrap();
    assert_eq!(account_data.len(), 9 + 73 * 10000);

    let validator_list = ValidatorList::deserialize(&account_data).unwrap();
    assert_eq!(validator_list.header.account_type, AccountType::ValidatorList);
    assert_eq!(validator_list.header.max_validators, 10000);
    assert_eq!(validator_list.validators.len(), 3);
    let first_validator = &validator_list.validators[0];
    assert_eq!(first_validator.active_stake_lamports(), 2947319964963369);
    assert_eq!(first_validator.transient_stake_lamports(), 0u64);
    assert_eq!(first_validator.last_update_epoch(), 751);
    assert_eq!(first_validator.status(), StakeStatus::Active);
    assert_eq!(first_validator.validator_seed_suffix(), Some(9));
    assert_eq!(first_validator.vote_account_address(), &key(1));

    let mut serialized = Vec::new();
    validator_list.borsh_ser(&mut serialized).unwrap();
    assert_eq!(serialized, account_data);
    assert_eq!(validator_list, list);
}

#[test]
fn validator_list_padding_and_layout() {
    let list = ValidatorList {
        header: ValidatorListHeader { account_type: AccountType::ValidatorList, max_validators: 4 },
        validators: vec![validator(7, 8, 4)],
    };
    let mut bytes = Vec::new();
    list.borsh_ser(&mut bytes).unwrap();
    assert_eq!(bytes.len(), 9 + 73 * 4);
    assert_eq!(&bytes[..9], &[2, 4, 0, 0, 0, 1, 0, 0, 0]);
    assert_eq!(&bytes[9..17], &7u64.to_le_bytes());
    assert_eq!(bytes[9 + 40], 0);
    assert!(bytes[9 + 73..].iter().all(|b| *b == 0));

    // more records than the capacity: no padding
    let over = ValidatorList {
        header: ValidatorListHeader { account_type: AccountType::ValidatorList, max_validators: 1 },
        validators: vec![validator(1, 1, 1), validator(2, 2, 2)],
    };
    let mut bytes = Vec::new();
    over.borsh_ser(&mut bytes).unwrap();
    assert_eq!(bytes.len(), 9 + 73 * 2);
    assert_eq!(ValidatorList::deserialize(&bytes).unwrap(), over);
}

#[test]
fn validator_list_decode_errors() {
    let list = ValidatorList {
        header: ValidatorListHeader { account_type: AccountType::ValidatorList, max_validators: 2 },
        validators: vec![validator(7, 8, 4), validator(1, 2, 3)],
    };
    let mut bytes = Vec::new();
    list.borsh_ser(&mut bytes).unwrap();
    assert_eq!(ValidatorList::deserialize(&bytes[..8]), Err(DecodeError::UnexpectedEnd));
    assert_eq!(
        ValidatorList::deserialize(&bytes[..9 + 73 + 72]),
        Err(DecodeError::UnexpectedEnd)
    );
    let mut bad = bytes.clone();
    bad[9 + 73 + 40] = 5;
    assert_eq!(ValidatorList::deserialize(&bad), Err(DecodeError::InvalidTag));
    let mut bad = bytes.clone();
    bad[0] = 9;
    assert_eq!(ValidatorList::deserialize(&bad), Err(DecodeError::InvalidTag));
}

#[test]
fn stake_status_bytes() {
    let all = [
        StakeStatus::Active,
        StakeStatus::DeactivatingTransient,
        StakeStatus::ReadyForRemoval,
        StakeStatus::DeactivatingValidator,
        StakeStatus::DeactivatingAll,
    ];
    for (i, s) in all.iter().enumerate() {
        assert_eq!(s.as_byte(), i as u8);
        assert_eq!(StakeStatus::from_byte(i as u8), Some(*s));
    }
    assert_eq!(StakeStatus::from_byte(5), None);
}
