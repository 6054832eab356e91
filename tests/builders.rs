use spl_stake_pool_core::account_meta::{keys_signer_writer_to_account_metas, AccountMeta, Role};
use spl_stake_pool_core::consts::{STAKE_PROGRAM, SYSTEM_PROGRAM};
use spl_stake_pool_core::ix_builders::{
    cleanup_removed_validator_entries_ix_from_stake_pool, deposit_sol_ix_from_stake_pool,
    deposit_stake_ix_from_stake_pool, increase_additional_validator_stake_ix_from_stake_pool,
    initialize_ix, update_stake_pool_balance_ix_from_stake_pool,
    update_validator_list_balance_ix_from_stake_pool, withdraw_sol_ix_from_stake_pool,
    withdraw_stake_ix_from_stake_pool, BuildError, DepositSolIxArgs, DepositSolIxUserAddrs,
    DepositStakeIxUserAddrs, IncreaseAdditionalValidatorStakeIxArgs,
    IncreaseAdditionalValidatorStakeIxUserAddrs, InitializeIxArgs, InitializeIxUserAddrs,
    ProgramAndStakePoolUserAddrs, UpdateValidatorListBalanceIxArgs, WithdrawSolIxArgs,
    WithdrawSolIxUserAddrs, WithdrawStakeIxArgs, WithdrawStakeIxUserAddrs,
};
use spl_stake_pool_core::pda::{
    find_deposit_auth_pda_internal, find_ephemeral_stake_account_pda_internal,
    find_transient_stake_account_pda_internal, find_validator_stake_account_pda_internal,
    find_withdraw_auth_pda_internal,
};
use spl_stake_pool_core::pool::StakePool;
use spl_stake_pool_core::typedefs::{AccountType, Fee, StakeStatus, ValidatorListHeader};
use spl_stake_pool_core::validator_list::{ValidatorList, ValidatorStakeInfo};
use solana_pubkey::Pubkey;

fn key(b: u8) -> [u8; 32] {
    [b; 32]
}

const PROGRAM: [u8; 32] = [42; 32];
const POOL_ADDR: [u8; 32] = [43; 32];

fn pool() -> StakePool {
    StakePool {
        staker: key(9),
        stake_deposit_authority: key(1),
        validator_list: key(2),
        reserve_stake: key(3),
        pool_mint: key(4),
        manager_fee_account: key(5),
        token_program_id: key(6),
        ..Default::default()
    }
}

fn solana_find(seeds: &[&[u8]]) -> [u8; 32] {
    Pubkey::find_program_address(seeds, &Pubkey::new_from_array(PROGRAM)).0.to_bytes()
}

#[test]
fn roles_and_metas() {
    assert_eq!(Role::from_signer_writable(false, false).as_u8(), 0);
    assert_eq!(Role::from_signer_writable(false, true).as_u8(), 1);
    assert_eq!(Role::from_signer_writable(true, false).as_u8(), 2);
    assert_eq!(Role::from_signer_writable(true, true).as_u8(), 3);
    let metas = keys_signer_writer_to_account_metas(
        &[key(1), key(2), key(3)],
        &[true, false, false],
        &[true, true, false],
    );
    assert_eq!(
        metas,
        vec![
            AccountMeta { address: key(1), role: 3 },
            AccountMeta { address: key(2), role: 1 },
            AccountMeta { address: key(3), role: 0 },
        ]
    );
}

#[test]
fn named_pdas_match_solana() {
    let vote = key(7);
    assert_eq!(
        find_withdraw_auth_pda_internal(&PROGRAM, &POOL_ADDR).unwrap().0,
        solana_find(&[&POOL_ADDR, b"withdraw"])
    );
    assert_eq!(
        find_deposit_auth_pda_internal(&PROGRAM, &POOL_ADDR).unwrap().0,
        solana_find(&[&POOL_ADDR, b"deposit"])
    );
    assert_eq!(
        find_validator_stake_account_pda_internal(&PROGRAM, &vote, &POOL_ADDR, None).unwrap().0,
        solana_find(&[&vote, &POOL_ADDR])
    );
    assert_eq!(
        find_validator_stake_account_pda_internal(&PROGRAM, &vote, &POOL_ADDR, Some(3)).unwrap().0,
        solana_find(&[&vote, &POOL_ADDR, &3u32.to_le_bytes()])
    );
    assert_eq!(
        find_transient_stake_account_pda_internal(&PROGRAM, &vote, &POOL_ADDR, 11).unwrap().0,
        solana_find(&[b"transient", &vote, &POOL_ADDR, &11u64.to_le_bytes()])
    );
    assert_eq!(
        find_ephemeral_stake_account_pda_internal(&PROGRAM, &POOL_ADDR).unwrap().0,
        solana_find(&[b"ephemeral", &POOL_ADDR, &[0u8; 8]])
    );
}

#[test]
fn deposit_and_withdraw_sol_builders() {
    let withdraw_auth = solana_find(&[&POOL_ADDR, b"withdraw"]);
    let sp = StakePool { sol_deposit_authority: Some(key(8)), ..pool() };
    let ix = deposit_sol_ix_from_stake_pool(
        DepositSolIxUserAddrs {
            program: PROGRAM,
            stake_pool: POOL_ADDR,
            referrer_fee: key(10),
            from_user_lamports: key(11),
            dest_user_pool: key(12),
        },
        &sp,
        DepositSolIxArgs { deposit_lamports: 5 },
    )
    .unwrap();
    assert_eq!(ix.program_address, PROGRAM);
    assert_eq!(ix.data, vec![14, 5, 0, 0, 0, 0, 0, 0, 0]);
    let addrs: Vec<[u8; 32]> = ix.accounts.iter().map(|m| m.address).collect();
    assert_eq!(
        addrs,
        vec![
            POOL_ADDR, withdraw_auth, key(3), key(11), key(12), key(5), key(10), key(4),
            SYSTEM_PROGRAM, key(6), key(8)
        ]
    );
    let roles: Vec<u8> = ix.accounts.iter().map(|m| m.role).collect();
    assert_eq!(roles, vec![1, 0, 1, 3, 1, 1, 1, 1, 0, 0, 2]);

    let ix = withdraw_sol_ix_from_stake_pool(
        WithdrawSolIxUserAddrs {
            program: PROGRAM,
            stake_pool: POOL_ADDR,
            user_transfer_auth: key(13),
            pool_tokens_from: key(14),
            lamports_to: key(15),
        },
        &pool(),
        WithdrawSolIxArgs { pool_tokens_in: 256 },
    )
    .unwrap();
    assert_eq!(ix.data, vec![16, 0, 1, 0, 0, 0, 0, 0, 0]);
    assert_eq!(ix.accounts.len(), 12);
    assert_eq!(ix.accounts[1], AccountMeta { address: withdraw_auth, role: 0 });
    assert_eq!(ix.accounts[2], AccountMeta { address: key(13), role: 2 });
}

#[test]
fn stake_builders() {
    let vote = key(7);
    let withdraw_auth = solana_find(&[&POOL_ADDR, b"withdraw"]);
    let validator_stake = solana_find(&[&vote, &POOL_ADDR]);
    let ix = deposit_stake_ix_from_stake_pool(
        DepositStakeIxUserAddrs {
            program: PROGRAM,
            stake_pool: POOL_ADDR,
            deposit_stake: key(20),
            validator_vote: vote,
            pool_tokens_to: key(21),
            referral_pool_tokens: key(22),
        },
        &pool(),
        None,
    )
    .unwrap();
    assert_eq!(ix.data, vec![9]);
    assert_eq!(ix.accounts.len(), 15);
    assert_eq!(ix.accounts[2].address, key(1));
    assert_eq!(ix.accounts[3].address, withdraw_auth);
    assert_eq!(ix.accounts[5], AccountMeta { address: validator_stake, role: 1 });
    assert_eq!(ix.accounts[14].address, STAKE_PROGRAM);

    let ix = withdraw_stake_ix_from_stake_pool(
        WithdrawStakeIxUserAddrs {
            program: PROGRAM,
            stake_pool: POOL_ADDR,
            stake_to_split: key(23),
            stake_to_receive: key(24),
            user_stake_auth: key(25),
            user_transfer_auth: key(26),
            pool_tokens_from: key(27),
        },
        &pool(),
        WithdrawStakeIxArgs { pool_tokens_in: 1 },
    )
    .unwrap();
    assert_eq!(ix.data, vec![10, 1, 0, 0, 0, 0, 0, 0, 0]);
    assert_eq!(ix.accounts.len(), 13);
    assert_eq!(ix.accounts[6], AccountMeta { address: key(26), role: 2 });

    let ix = increase_additional_validator_stake_ix_from_stake_pool(
        IncreaseAdditionalValidatorStakeIxUserAddrs {
            program: PROGRAM,
            vote_account: vote,
            stake_pool: POOL_ADDR,
        },
        &pool(),
        IncreaseAdditionalValidatorStakeIxArgs {
            lamports: 2,
            transient_stake_seed: 3,
            validator_stake_seed: None,
        },
    )
    .unwrap();
    assert_eq!(ix.data.len(), 25);
    assert_eq!(ix.accounts.len(), 14);
    assert_eq!(ix.accounts[1], AccountMeta { address: key(9), role: 2 });
    assert_eq!(ix.accounts[5].address, solana_find(&[b"ephemeral", &POOL_ADDR, &[0u8; 8]]));
    assert_eq!(
        ix.accounts[6].address,
        solana_find(&[b"transient", &vote, &POOL_ADDR, &3u64.to_le_bytes()])
    );
    assert_eq!(ix.accounts[7].address, validator_stake);
}

#[test]
fn pool_admin_builders() {
    let addrs = ProgramAndStakePoolUserAddrs { program: PROGRAM, stake_pool: POOL_ADDR };
    let ix = cleanup_removed_validator_entries_ix_from_stake_pool(addrs, &pool());
    assert_eq!(ix.data, vec![8]);
    assert_eq!(
        ix.accounts,
        vec![AccountMeta { address: POOL_ADDR, role: 0 }, AccountMeta { address: key(2), role: 1 }]
    );
    let ix = update_stake_pool_balance_ix_from_stake_pool(addrs, &pool()).unwrap();
    assert_eq!(ix.data, vec![7]);
    assert_eq!(ix.accounts.len(), 7);

    let init_addrs = InitializeIxUserAddrs {
        program: PROGRAM,
        stake_pool: POOL_ADDR,
        manager: key(30),
        manager_fee: key(31),
        staker: key(32),
        validator_list: key(33),
        reserve: key(34),
        pool_mint: key(35),
        pool_token_program: key(36),
        deposit_authority: None,
    };
    let args = InitializeIxArgs {
        fee: Fee { denominator: 100, numerator: 1 },
        withdrawal_fee: Fee::zero(),
        deposit_fee: Fee::zero(),
        referral_fee: 0,
        max_validators: 3,
    };
    let ix = initialize_ix(init_addrs, args).unwrap();
    assert_eq!(ix.data.len(), 54);
    assert_eq!(ix.accounts.len(), 10);
    assert_eq!(ix.accounts[1], AccountMeta { address: key(30), role: 2 });
    assert_eq!(
        ix.accounts[9],
        AccountMeta { address: solana_find(&[&POOL_ADDR, b"deposit"]), role: 0 }
    );
    let ix = initialize_ix(InitializeIxUserAddrs { deposit_authority: Some(key(37)), ..init_addrs }, args)
        .unwrap();
    assert_eq!(ix.accounts[9], AccountMeta { address: key(37), role: 0 });
}

#[test]
fn update_validator_list_balance_builder() {
    let mut records = Vec::new();
    for i in 0..4u8 {
        let mut v = ValidatorStakeInfo::zeroed();
        v.set_vote_account_address(key(100 + i));
        v.set_transient_seed_suffix(i as u64);
        v.set_validator_seed_suffix(if i % 2 == 0 { None } else { Some(i as u32) });
        v.set_status(StakeStatus::Active);
        records.push(v);
    }
    let list = ValidatorList {
        header: ValidatorListHeader { account_type: AccountType::ValidatorList, max_validators: 10 },
        validators: records,
    };
    let addrs = ProgramAndStakePoolUserAddrs { program: PROGRAM, stake_pool: POOL_ADDR };
    let args = UpdateValidatorListBalanceIxArgs { start_index: 1, no_merge: true, count: 2 };
    let ix = update_validator_list_balance_ix_from_stake_pool(addrs, &pool(), &list, args).unwrap();
    assert_eq!(ix.data, vec![6, 1, 0, 0, 0, 1]);
    assert_eq!(ix.accounts.len(), 7 + 4);
    let vote1 = key(101);
    let vote2 = key(102);
    assert_eq!(
        ix.accounts[7],
        AccountMeta { address: solana_find(&[&vote1, &POOL_ADDR, &1u32.to_le_bytes()]), role: 1 }
    );
    assert_eq!(
        ix.accounts[8],
        AccountMeta {
            address: solana_find(&[b"transient", &vote1, &POOL_ADDR, &1u64.to_le_bytes()]),
            role: 1
        }
    );
    assert_eq!(ix.accounts[9].address, solana_find(&[&vote2, &POOL_ADDR]));

    let oob = UpdateValidatorListBalanceIxArgs { start_index: 4, no_merge: false, count: 0 };
    assert_eq!(
        update_validator_list_balance_ix_from_stake_pool(addrs, &pool(), &list, oob),
        Err(BuildError::ValidatorIndexOutOfBounds)
    );
    let oob = UpdateValidatorListBalanceIxArgs { start_index: 3, no_merge: false, count: 2 };
    assert_eq!(
        update_validator_list_balance_ix_from_stake_pool(addrs, &pool(), &list, oob),
        Err(BuildError::ValidatorIndexOutOfBounds)
    );
    let all = UpdateValidatorListBalanceIxArgs { start_index: 0, no_merge: false, count: 4 };
    let ix = update_validator_list_balance_ix_from_stake_pool(addrs, &pool(), &list, all).unwrap();
    assert_eq!(ix.accounts.len(), 15);
}
