use spl_stake_pool_core::consts::{STAKE_PROGRAM, SYSTEM_PROGRAM, SYSVAR_CLOCK, SYSVAR_STAKE_HISTORY};
use spl_stake_pool_core::instructions::deposit_sol::{
    DepositSolIxData, DepositSolIxPrefixKeysOwned, DEPOSIT_SOL_IX_PREFIX_IS_SIGNER,
    DEPOSIT_SOL_IX_PREFIX_IS_WRITER,
};
use spl_stake_pool_core::instructions::initialize::InitializeIxData;
use spl_stake_pool_core::instructions::increase_additional_validator_stake::IncreaseAdditionalValidatorStakeIxData;
use spl_stake_pool_core::instructions::update_stake_pool_balance::{
    UpdateStakePoolBalanceIxData, UpdateStakePoolBalanceIxKeysOwned,
};
use spl_stake_pool_core::instructions::update_validator_list_balance::{
    UpdateValidatorListBalanceIxData, UpdateValidatorListBalanceIxPrefixKeysOwned,
};
use spl_stake_pool_core::instructions::withdraw_stake::{WithdrawStakeIxData, WithdrawStakeIxKeysOwned};
use spl_stake_pool_core::pool::StakePool;
use spl_stake_pool_core::typedefs::{AccountType, Fee, StakeStatus, ValidatorListHeader};
use spl_stake_pool_core::validator_list::{ValidatorList, ValidatorStakeInfo};

fn key(b: u8) -> [u8; 32] {
    [b; 32]
}

fn stake_pool() -> StakePool {
    StakePool {
        stake_deposit_authority: key(1),
        validator_list: key(2),
        reserve_stake: key(3),
        pool_mint: key(4),
        manager_fee_account: key(5),
        token_program_id: key(6),
        ..Default::default()
    }
}

#[test]
fn test_update_stake_pool_balance_ix() {
    let stake_pool = stake_pool();
    let accounts = UpdateStakePoolBalanceIxKeysOwned::default()
        .with_keys_from_stake_pool(&stake_pool)
        .with_stake_pool(stake_pool.stake_deposit_authority)
        .with_withdraw_auth(stake_pool.stake_deposit_authority);
    let data = UpdateStakePoolBalanceIxData::new();
    assert_eq!(accounts.0[0], stake_pool.stake_deposit_authority);
    assert_eq!(accounts.0[1], stake_pool.stake_deposit_authority);
    assert_eq!(
        accounts.0[2..],
        [key(2), key(3), key(5), key(4), key(6)]
    );
    assert_eq!(data.to_buf(), [7]);
}

#[test]
fn test_update_validator_list_balance_ix() {
    let stake_pool = stake_pool();
    let stake_pool_addr: [u8; 32] = [
        111, 99, 178, 34, 95, 150, 29, 23, 252, 84, 216, 218, 59, 220, 200, 67, 192, 162, 13, 74,
        141, 108, 170, 116, 154, 235, 212, 76, 163, 141, 31, 75,
    ];
    let mut v = ValidatorStakeInfo::zeroed();
    v.set_status(StakeStatus::Active);
    let validator_list = ValidatorList {
        header: ValidatorListHeader { account_type: AccountType::ValidatorList, max_validators: 5 },
        validators: vec![v, v, v],
    };
    let accounts = UpdateValidatorListBalanceIxPrefixKeysOwned::default()
        .with_keys_from_stake_pool(&stake_pool)
        .with_stake_pool(stake_pool.stake_deposit_authority)
        .with_withdraw_auth(stake_pool.stake_deposit_authority)
        .with_consts();
    let data = UpdateValidatorListBalanceIxData::new(0, false);
    let validator_seeds = validator_list.validator_stake_account_seeds_itr(&stake_pool_addr);
    let transient_seeds = validator_list.transient_stake_account_seeds_itr(&stake_pool_addr);
    assert_eq!(accounts.0[0], stake_pool.stake_deposit_authority);
    assert_eq!(accounts.0[1], stake_pool.stake_deposit_authority);
    assert_eq!(
        accounts.0[2..],
        [key(2), key(3), SYSVAR_CLOCK, SYSVAR_STAKE_HISTORY, STAKE_PROGRAM]
    );
    assert_eq!(data.to_buf(), [6, 0, 0, 0, 0, 0]);
    assert_eq!(validator_seeds.len(), 3);
    assert_eq!(transient_seeds.len(), 3);
    assert_eq!(validator_seeds[0].1, &stake_pool_addr);
    let pairs = validator_list.account_pair_seeds_itr(&stake_pool_addr);
    assert_eq!(pairs.len(), 3);
    assert_eq!(pairs[1].0, validator_seeds[1]);
    assert_eq!(pairs[1].1, transient_seeds[1]);
    assert_eq!(UpdateValidatorListBalanceIxData::new(0x01020304, true).to_buf(), [6, 4, 3, 2, 1, 1]);
}

#[test]
fn borrowed_and_owned_keys() {
    let pool = stake_pool();
    let owned = DepositSolIxPrefixKeysOwned::default()
        .with_keys_from_stake_pool(&pool)
        .with_consts();
    let blank = DepositSolIxPrefixKeysOwned::default();
    let borrowed = blank
        .as_borrowed()
        .with_keys_from_stake_pool(&pool)
        .with_consts();
    assert_eq!(borrowed.into_owned(), owned);
    assert_eq!(owned.reserve(), &key(3));
    assert_eq!(owned.system_program(), &SYSTEM_PROGRAM);
    assert_eq!(DEPOSIT_SOL_IX_PREFIX_IS_SIGNER[3], true);
    assert_eq!(DEPOSIT_SOL_IX_PREFIX_IS_WRITER.iter().filter(|w| **w).count(), 7);
    let w = WithdrawStakeIxKeysOwned::default().with_keys_from_stake_pool(&pool).with_consts();
    assert_eq!(w.validator_list(), &key(2));
    assert_eq!(w.stake_program(), &STAKE_PROGRAM);
}

#[test]
fn instruction_data_layouts() {
    assert_eq!(DepositSolIxData::new(0x0102030405060708).to_buf(), [14, 8, 7, 6, 5, 4, 3, 2, 1]);
    assert_eq!(WithdrawStakeIxData::new(1).to_buf(), [10, 1, 0, 0, 0, 0, 0, 0, 0]);
    let inc = IncreaseAdditionalValidatorStakeIxData::new(2, 3).to_buf();
    assert_eq!(inc[0], 19);
    assert_eq!(&inc[1..9], &2u64.to_le_bytes());
    assert_eq!(&inc[9..17], &3u64.to_le_bytes());
    assert_eq!(&inc[17..25], &[0u8; 8]);
    let init = InitializeIxData::new(
        Fee { denominator: 100, numerator: 1 },
        Fee { denominator: 1000, numerator: 2 },
        Fee { denominator: 10, numerator: 3 },
        50,
        10000,
    )
    .to_buf();
    assert_eq!(init[0], 0);
    assert_eq!(&init[1..9], &100u64.to_le_bytes());
    assert_eq!(&init[9..17], &1u64.to_le_bytes());
    assert_eq!(&init[17..25], &1000u64.to_le_bytes());
    assert_eq!(&init[25..33], &2u64.to_le_bytes());
    assert_eq!(&init[33..41], &10u64.to_le_bytes());
    assert_eq!(&init[41..49], &3u64.to_le_bytes());
    assert_eq!(init[49], 50);
    assert_eq!(&init[50..54], &10000u32.to_le_bytes());
}
