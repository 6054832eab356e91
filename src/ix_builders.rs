use vstd::prelude::*;

use crate::account_meta::{
    keys_signer_writer_to_account_metas, spec_role_byte, AccountMeta, Role,
};
use crate::codec::{extend_from, spec_u32_le, spec_u64_le};
use crate::consts::{
    STAKE_PROGRAM, SYSTEM_PROGRAM, SYSVAR_CLOCK, SYSVAR_STAKE_CONFIG, SYSVAR_STAKE_HISTORY,
};
use crate::instructions::cleanup_removed_validator_entries::{
    CleanupRemovedValidatorEntriesIxData, CLEANUP_REMOVED_VALIDATOR_ENTRIES_IX_IS_SIGNER,
    CLEANUP_REMOVED_VALIDATOR_ENTRIES_IX_IS_WRITER,
};
use crate::instructions::deposit_sol::{
    DepositSolIxData, DEPOSIT_SOL_IX_PREFIX_IS_SIGNER, DEPOSIT_SOL_IX_PREFIX_IS_WRITER,
};
use crate::instructions::deposit_stake::{
    DepositStakeIxData, DEPOSIT_STAKE_IX_IS_SIGNER, DEPOSIT_STAKE_IX_IS_WRITER,
};
use crate::instructions::increase_additional_validator_stake::{
    IncreaseAdditionalValidatorStakeIxData,
    INCREASE_ADDITIONAL_VALIDATOR_STAKE_IX_PREFIX_IS_SIGNER,
    INCREASE_ADDITIONAL_VALIDATOR_STAKE_IX_PREFIX_IS_WRITER,
};
use crate::instructions::initialize::{
    InitializeIxData, INITIALIZE_IX_PREFIX_IS_SIGNER, INITIALIZE_IX_PREFIX_IS_WRITER,
};
use crate::instructions::update_stake_pool_balance::{
    UpdateStakePoolBalanceIxData, UPDATE_STAKE_POOL_BALANCE_IX_IS_SIGNER,
    UPDATE_STAKE_POOL_BALANCE_IX_IS_WRITER,
};
use crate::instructions::update_validator_list_balance::{
    UpdateValidatorListBalanceIxData, UPDATE_VALIDATOR_LIST_BALANCE_IX_PREFIX_IS_SIGNER,
    UPDATE_VALIDATOR_LIST_BALANCE_IX_PREFIX_IS_WRITER,
};
use crate::instructions::withdraw_sol::{
    WithdrawSolIxData, WITHDRAW_SOL_IX_PREFIX_IS_SIGNER, WITHDRAW_SOL_IX_PREFIX_IS_WRITER,
};
use crate::instructions::withdraw_stake::{
    WithdrawStakeIxData, WITHDRAW_STAKE_IX_PREFIX_IS_SIGNER, WITHDRAW_STAKE_IX_PREFIX_IS_WRITER,
};
use crate::instructions::{
    INSTRUCTION_IDX_CLEANUP_REMOVED_VALIDATOR_ENTRIES, INSTRUCTION_IDX_DEPOSIT_SOL,
    INSTRUCTION_IDX_DEPOSIT_STAKE, INSTRUCTION_IDX_INCREASE_ADDITIONAL_VALIDATOR_STAKE,
    INSTRUCTION_IDX_UPDATE_STAKE_POOL_BALANCE, INSTRUCTION_IDX_UPDATE_VALIDATOR_LIST_BALANCE,
    INSTRUCTION_IDX_WITHDRAW_SOL, INSTRUCTION_IDX_WITHDRAW_STAKE,
};
use crate::pda::{
    find_deposit_auth_pda_internal, find_ephemeral_stake_account_pda_internal,
    find_transient_stake_account_pda_internal, find_validator_stake_account_pda_internal,
    find_withdraw_auth_pda_internal, spec_find_pda, spec_validator_stake_seeds,
    AUTHORITY_DEPOSIT_SEED, AUTHORITY_WITHDRAW_SEED, EPHEMERAL_SEED, TRANSIENT_SEED,
};
use crate::pool::StakePool;
use crate::typedefs::Fee;
use crate::validator_list::ValidatorList;

verus! {

/// An instruction ready to be sent: data, accounts with roles, program.
#[derive(Debug, Clone, PartialEq, Eq)]
pub struct Instruction {
    pub data: Vec<u8>,
    pub accounts: Vec<AccountMeta>,
    pub program_address: [u8; 32],
}

/// Why an instruction could not be built.
#[derive(Debug, Clone, Copy, PartialEq, Eq, Structural)]
pub enum BuildError {
    /// No bump gives an address off the curve for a required account.
    NoValidPda,
    /// The validator range lies outside the validator list.
    ValidatorIndexOutOfBounds,
    /// The start index does not fit in the instruction's 32-bit field.
    IndexTooLarge,
}

/// The program and the pool, which most instructions need.
#[derive(Debug, Clone, Copy, PartialEq, Eq)]
pub struct ProgramAndStakePoolUserAddrs {
    pub program: [u8; 32],
    pub stake_pool: [u8; 32],
}

#[derive(Debug, Clone, Copy, PartialEq, Eq)]
pub struct DepositSolIxUserAddrs {
    pub program: [u8; 32],
    pub stake_pool: [u8; 32],
    pub referrer_fee: [u8; 32],
    pub from_user_lamports: [u8; 32],
    pub dest_user_pool: [u8; 32],
}

#[derive(Debug, Clone, Copy, PartialEq, Eq)]
pub struct DepositSolIxArgs {
    pub deposit_lamports: u64,
}

#[derive(Debug, Clone, Copy, PartialEq, Eq)]
pub struct DepositStakeIxUserAddrs {
    pub program: [u8; 32],
    pub stake_pool: [u8; 32],
    pub deposit_stake: [u8; 32],
    pub validator_vote: [u8; 32],
    pub pool_tokens_to: [u8; 32],
    pub referral_pool_tokens: [u8; 32],
}

#[derive(Debug, Clone, Copy, PartialEq, Eq)]
pub struct WithdrawSolIxUserAddrs {
    pub program: [u8; 32],
    pub stake_pool: [u8; 32],
    pub user_transfer_auth: [u8; 32],
    pub pool_tokens_from: [u8; 32],
    pub lamports_to: [u8; 32],
}

#[derive(Debug, Clone, Copy, PartialEq, Eq)]
pub struct WithdrawSolIxArgs {
    pub pool_tokens_in: u64,
}

#[derive(Debug, Clone, Copy, PartialEq, Eq)]
pub struct WithdrawStakeIxUserAddrs {
    pub program: [u8; 32],
    pub stake_pool: [u8; 32],
    pub stake_to_split: [u8; 32],
    pub stake_to_receive: [u8; 32],
    pub user_stake_auth: [u8; 32],
    pub user_transfer_auth: [u8; 32],
    pub pool_tokens_from: [u8; 32],
}

#[derive(Debug, Clone, Copy, PartialEq, Eq)]
pub struct WithdrawStakeIxArgs {
    pub pool_tokens_in: u64,
}

#[derive(Debug, Clone, Copy, PartialEq, Eq)]
pub struct IncreaseAdditionalValidatorStakeIxUserAddrs {
    pub program: [u8; 32],
    pub vote_account: [u8; 32],
    pub stake_pool: [u8; 32],
}

#[derive(Debug, Clone, Copy, PartialEq, Eq)]
pub struct IncreaseAdditionalValidatorStakeIxArgs {
    pub lamports: u64,
    pub transient_stake_seed: u64,
    pub validator_stake_seed: Option<u32>,
}

#[derive(Debug, Clone, Copy, PartialEq, Eq)]
pub struct InitializeIxUserAddrs {
    pub program: [u8; 32],
    pub stake_pool: [u8; 32],
    pub manager: [u8; 32],
    pub manager_fee: [u8; 32],
    pub staker: [u8; 32],
    pub validator_list: [u8; 32],
    pub reserve: [u8; 32],
    pub pool_mint: [u8; 32],
    pub pool_token_program: [u8; 32],
    /// The pool's default deposit authority is used when this is `None`.
    pub deposit_authority: Option<[u8; 32]>,
}

#[derive(Debug, Clone, Copy, PartialEq, Eq)]
pub struct InitializeIxArgs {
    pub fee: Fee,
    pub withdrawal_fee: Fee,
    pub deposit_fee: Fee,
    pub referral_fee: u8,
    pub max_validators: u32,
}

#[derive(Debug, Clone, Copy, PartialEq, Eq)]
pub struct UpdateValidatorListBalanceIxArgs {
    pub start_index: usize,
    pub no_merge: bool,
    pub count: usize,
}

/// The metas start with `keys` in order, each with the role its signer and
/// writer flags give.
pub open spec fn metas_start_with(
    metas: Seq<AccountMeta>,
    keys: Seq<Seq<u8>>,
    signer: Seq<bool>,
    writer: Seq<bool>,
) -> bool {
    &&& metas.len() >= keys.len()
    &&& forall|i: int|
        0 <= i < keys.len() ==> (#[trigger] metas[i]).address@ == keys[i] && metas[i].role
            == spec_role_byte(signer[i], writer[i])
}

/// The pool's withdraw authority under `program`, if any.
pub open spec fn spec_withdraw_auth(program: [u8; 32], stake_pool: [u8; 32]) -> Option<
    (Seq<u8>, u8),
> {
    spec_find_pda(seq![stake_pool@, AUTHORITY_WITHDRAW_SEED@], program@)
}

fn bytes_to_vec(bytes: &[u8]) -> (r: Vec<u8>)
    ensures
        r@ == bytes@,
{
    let mut v: Vec<u8> = Vec::new();
    extend_from(&mut v, bytes);
    v
}

proof fn lemma_metas_start_with(
    metas: Seq<AccountMeta>,
    keys: Seq<[u8; 32]>,
    key_views: Seq<Seq<u8>>,
    signer: Seq<bool>,
    writer: Seq<bool>,
)
    requires
        keys.len() == key_views.len(),
        signer.len() == keys.len(),
        writer.len() == keys.len(),
        forall|i: int| 0 <= i < keys.len() ==> keys[i]@ == key_views[i],
        metas.len() >= keys.len(),
        forall|i: int|
            0 <= i < keys.len() ==> metas[i] == (AccountMeta {
                address: keys[i],
                role: spec_role_byte(signer[i], writer[i]),
            }),
    ensures
        metas_start_with(metas, key_views, signer, writer),
{
    assert forall|i: int| 0 <= i < key_views.len() implies (#[trigger] metas[i]).address@
        == key_views[i] && metas[i].role == spec_role_byte(signer[i], writer[i]) by {
        assert(metas[i] == AccountMeta { address: keys[i], role: spec_role_byte(signer[i], writer[i]) });
    }
}

/// Deposits lamports for pool tokens. The pool's SOL deposit authority, if
/// it has one, follows the accounts as a signer.
pub fn deposit_sol_ix_from_stake_pool(
    addrs: DepositSolIxUserAddrs,
    pool: &StakePool,
    args: DepositSolIxArgs,
) -> (r: Result<Instruction, BuildError>)
    ensures
        spec_withdraw_auth(addrs.program, addrs.stake_pool) is None ==> r == Err::<
            Instruction,
            BuildError,
        >(BuildError::NoValidPda),
        spec_withdraw_auth(addrs.program, addrs.stake_pool) is Some ==> r is Ok,
        r matches Ok(ix) ==> {
            &&& ix.program_address == addrs.program
            &&& ix.data@ == seq![INSTRUCTION_IDX_DEPOSIT_SOL] + spec_u64_le(args.deposit_lamports)
            &&& metas_start_with(
                ix.accounts@,
                seq![
                    addrs.stake_pool@,
                    spec_withdraw_auth(addrs.program, addrs.stake_pool).unwrap().0,
                    pool.reserve_stake@,
                    addrs.from_user_lamports@,
                    addrs.dest_user_pool@,
                    pool.manager_fee_account@,
                    addrs.referrer_fee@,
                    pool.pool_mint@,
                    SYSTEM_PROGRAM@,
                    pool.token_program_id@,
                ],
                DEPOSIT_SOL_IX_PREFIX_IS_SIGNER@,
                DEPOSIT_SOL_IX_PREFIX_IS_WRITER@,
            )
            &&& ix.accounts@.len() == 10 + (if pool.sol_deposit_authority is Some {
                1int
            } else {
                0
            })
            &&& pool.sol_deposit_authority matches Some(auth) ==> ix.accounts@[10] == (
            AccountMeta { address: auth, role: 2 })
        },
{
    let withdraw_auth = match find_withdraw_auth_pda_internal(&addrs.program, &addrs.stake_pool) {
        Some((pda, _)) => pda,
        None => {
            return Err(BuildError::NoValidPda);
        },
    };
    let keys: [[u8; 32]; 10] = [
        addrs.stake_pool,
        withdraw_auth,
        pool.reserve_stake,
        addrs.from_user_lamports,
        addrs.dest_user_pool,
        pool.manager_fee_account,
        addrs.referrer_fee,
        pool.pool_mint,
        SYSTEM_PROGRAM,
        pool.token_program_id,
    ];
    let mut accounts = keys_signer_writer_to_account_metas(
        keys.as_slice(),
        DEPOSIT_SOL_IX_PREFIX_IS_SIGNER.as_slice(),
        DEPOSIT_SOL_IX_PREFIX_IS_WRITER.as_slice(),
    );
    let ghost prefix = accounts@;
    if let Some(auth) = pool.sol_deposit_authority {
        accounts.push(AccountMeta::new(auth, Role::ReadonlySigner));
    }
    proof {
        lemma_metas_start_with(
            accounts@,
            keys@,
            seq![
                addrs.stake_pool@,
                spec_withdraw_auth(addrs.program, addrs.stake_pool).unwrap().0,
                pool.reserve_stake@,
                addrs.from_user_lamports@,
                addrs.dest_user_pool@,
                pool.manager_fee_account@,
                addrs.referrer_fee@,
                pool.pool_mint@,
                SYSTEM_PROGRAM@,
                pool.token_program_id@,
            ],
            DEPOSIT_SOL_IX_PREFIX_IS_SIGNER@,
            DEPOSIT_SOL_IX_PREFIX_IS_WRITER@,
        );
    }
    let data = DepositSolIxData::new(args.deposit_lamports).to_buf();
    Ok(
        Instruction {
            data: bytes_to_vec(data.as_slice()),
            accounts,
            program_address: addrs.program,
        },
    )
}

/// The validator stake account of `v` under `program` for pool `stake_pool`.
pub open spec fn spec_validator_stake_account(
    program: [u8; 32],
    stake_pool: [u8; 32],
    vote: [u8; 32],
    seed: Option<u32>,
) -> Option<(Seq<u8>, u8)> {
    spec_find_pda(spec_validator_stake_seeds(vote@, stake_pool@, seed), program@)
}

/// The transient stake account of `vote` for transient seed `seed`.
pub open spec fn spec_transient_stake_account(
    program: [u8; 32],
    stake_pool: [u8; 32],
    vote: [u8; 32],
    seed: u64,
) -> Option<(Seq<u8>, u8)> {
    spec_find_pda(seq![TRANSIENT_SEED@, vote@, stake_pool@, spec_u64_le(seed)], program@)
}

/// Deposits a stake account, which must be delegated to the validator
/// voting with `validator_vote`.
pub fn deposit_stake_ix_from_stake_pool(
    addrs: DepositStakeIxUserAddrs,
    pool: &StakePool,
    validator_stake_seed: Option<u32>,
) -> (r: Result<Instruction, BuildError>)
    ensures
        r is Ok <==> spec_withdraw_auth(addrs.program, addrs.stake_pool) is Some
            && spec_validator_stake_account(
            addrs.program,
            addrs.stake_pool,
            addrs.validator_vote,
            validator_stake_seed,
        ) is Some,
        r is Err ==> r == Err::<Instruction, BuildError>(BuildError::NoValidPda),
        r matches Ok(ix) ==> {
            &&& ix.program_address == addrs.program
            &&& ix.data@ == seq![INSTRUCTION_IDX_DEPOSIT_STAKE]
            &&& ix.accounts@.len() == 15
            &&& metas_start_with(
                ix.accounts@,
                seq![
                    addrs.stake_pool@,
                    pool.validator_list@,
                    pool.stake_deposit_authority@,
                    spec_withdraw_auth(addrs.program, addrs.stake_pool).unwrap().0,
                    addrs.deposit_stake@,
                    spec_validator_stake_account(
                        addrs.program,
                        addrs.stake_pool,
                        addrs.validator_vote,
                        validator_stake_seed,
                    ).unwrap().0,
                    pool.reserve_stake@,
                    addrs.pool_tokens_to@,
                    pool.manager_fee_account@,
                    addrs.referral_pool_tokens@,
                    pool.pool_mint@,
                    SYSVAR_CLOCK@,
                    SYSVAR_STAKE_HISTORY@,
                    pool.token_program_id@,
                    STAKE_PROGRAM@,
                ],
                DEPOSIT_STAKE_IX_IS_SIGNER@,
                DEPOSIT_STAKE_IX_IS_WRITER@,
            )
        },
{
    let withdraw_auth = match find_withdraw_auth_pda_internal(&addrs.program, &addrs.stake_pool) {
        Some((pda, _)) => pda,
        None => {
            return Err(BuildError::NoValidPda);
        },
    };
    let validator_stake = match find_validator_stake_account_pda_internal(
        &addrs.program,
        &addrs.validator_vote,
        &addrs.stake_pool,
        validator_stake_seed,
    ) {
        Some((pda, _)) => pda,
        None => {
            return Err(BuildError::NoValidPda);
        },
    };
    let keys: [[u8; 32]; 15] = [
        addrs.stake_pool,
        pool.validator_list,
        pool.stake_deposit_authority,
        withdraw_auth,
        addrs.deposit_stake,
        validator_stake,
        pool.reserve_stake,
        addrs.pool_tokens_to,
        pool.manager_fee_account,
        addrs.referral_pool_tokens,
        pool.pool_mint,
        SYSVAR_CLOCK,
        SYSVAR_STAKE_HISTORY,
        pool.token_program_id,
        STAKE_PROGRAM,
    ];
    let accounts = keys_signer_writer_to_account_metas(
        keys.as_slice(),
        DEPOSIT_STAKE_IX_IS_SIGNER.as_slice(),
        DEPOSIT_STAKE_IX_IS_WRITER.as_slice(),
    );
    proof {
        lemma_metas_start_with(
            accounts@,
            keys@,
            seq![
                addrs.stake_pool@,
                pool.validator_list@,
                pool.stake_deposit_authority@,
                spec_withdraw_auth(addrs.program, addrs.stake_pool).unwrap().0,
                addrs.deposit_stake@,
                spec_validator_stake_account(
                    addrs.program,
                    addrs.stake_pool,
                    addrs.validator_vote,
                    validator_stake_seed,
                ).unwrap().0,
                pool.reserve_stake@,
                addrs.pool_tokens_to@,
                pool.manager_fee_account@,
                addrs.referral_pool_tokens@,
                pool.pool_mint@,
                SYSVAR_CLOCK@,
                SYSVAR_STAKE_HISTORY@,
                pool.token_program_id@,
                STAKE_PROGRAM@,
            ],
            DEPOSIT_STAKE_IX_IS_SIGNER@,
            DEPOSIT_STAKE_IX_IS_WRITER@,
        );
    }
    let data = DepositStakeIxData::new().to_buf();
    Ok(
        Instruction {
            data: bytes_to_vec(data.as_slice()),
            accounts,
            program_address: addrs.program,
        },
    )
}

/// Withdraws lamports from the reserve for pool tokens. The pool's SOL
/// withdraw authority, if it has one, follows the accounts as a signer.
pub fn withdraw_sol_ix_from_stake_pool(
    addrs: WithdrawSolIxUserAddrs,
    pool: &StakePool,
    args: WithdrawSolIxArgs,
) -> (r: Result<Instruction, BuildError>)
    ensures
        r is Ok <==> spec_withdraw_auth(addrs.program, addrs.stake_pool) is Some,
        r is Err ==> r == Err::<Instruction, BuildError>(BuildError::NoValidPda),
        r matches Ok(ix) ==> {
            &&& ix.program_address == addrs.program
            &&& ix.data@ == seq![INSTRUCTION_IDX_WITHDRAW_SOL] + spec_u64_le(args.pool_tokens_in)
            &&& metas_start_with(
                ix.accounts@,
                seq![
                    addrs.stake_pool@,
                    spec_withdraw_auth(addrs.program, addrs.stake_pool).unwrap().0,
                    addrs.user_transfer_auth@,
                    addrs.pool_tokens_from@,
                    pool.reserve_stake@,
                    addrs.lamports_to@,
                    pool.manager_fee_account@,
                    pool.pool_mint@,
                    SYSVAR_CLOCK@,
                    SYSVAR_STAKE_HISTORY@,
                    STAKE_PROGRAM@,
                    pool.token_program_id@,
                ],
                WITHDRAW_SOL_IX_PREFIX_IS_SIGNER@,
                WITHDRAW_SOL_IX_PREFIX_IS_WRITER@,
            )
            &&& ix.accounts@.len() == 12 + (if pool.sol_withdraw_authority is Some {
                1int
            } else {
                0
            })
            &&& pool.sol_withdraw_authority matches Some(auth) ==> ix.accounts@[12] == (
            AccountMeta { address: auth, role: 2 })
        },
{
    let withdraw_auth = match find_withdraw_auth_pda_internal(&addrs.program, &addrs.stake_pool) {
        Some((pda, _)) => pda,
        None => {
            return Err(BuildError::NoValidPda);
        },
    };
    let keys: [[u8; 32]; 12] = [
        addrs.stake_pool,
        withdraw_auth,
        addrs.user_transfer_auth,
        addrs.pool_tokens_from,
        pool.reserve_stake,
        addrs.lamports_to,
        pool.manager_fee_account,
        pool.pool_mint,
        SYSVAR_CLOCK,
        SYSVAR_STAKE_HISTORY,
        STAKE_PROGRAM,
        pool.token_program_id,
    ];
    let mut accounts = keys_signer_writer_to_account_metas(
        keys.as_slice(),
        WITHDRAW_SOL_IX_PREFIX_IS_SIGNER.as_slice(),
        WITHDRAW_SOL_IX_PREFIX_IS_WRITER.as_slice(),
    );
    if let Some(auth) = pool.sol_withdraw_authority {
        accounts.push(AccountMeta::new(auth, Role::ReadonlySigner));
    }
    proof {
        lemma_metas_start_with(
            accounts@,
            keys@,
            seq![
                addrs.stake_pool@,
                spec_withdraw_auth(addrs.program, addrs.stake_pool).unwrap().0,
                addrs.user_transfer_auth@,
                addrs.pool_tokens_from@,
                pool.reserve_stake@,
                addrs.lamports_to@,
                pool.manager_fee_account@,
                pool.pool_mint@,
                SYSVAR_CLOCK@,
                SYSVAR_STAKE_HISTORY@,
                STAKE_PROGRAM@,
                pool.token_program_id@,
            ],
            WITHDRAW_SOL_IX_PREFIX_IS_SIGNER@,
            WITHDRAW_SOL_IX_PREFIX_IS_WRITER@,
        );
    }
    let data = WithdrawSolIxData::new(args.pool_tokens_in).to_buf();
    Ok(
        Instruction {
            data: bytes_to_vec(data.as_slice()),
            accounts,
            program_address: addrs.program,
        },
    )
}

/// Withdraws a split of a validator's stake account for pool tokens.
pub fn withdraw_stake_ix_from_stake_pool(
    addrs: WithdrawStakeIxUserAddrs,
    pool: &StakePool,
    args: WithdrawStakeIxArgs,
) -> (r: Result<Instruction, BuildError>)
    ensures
        r is Ok <==> spec_withdraw_auth(addrs.program, addrs.stake_pool) is Some,
        r is Err ==> r == Err::<Instruction, BuildError>(BuildError::NoValidPda),
        r matches Ok(ix) ==> {
            &&& ix.program_address == addrs.program
            &&& ix.data@ == seq![INSTRUCTION_IDX_WITHDRAW_STAKE] + spec_u64_le(args.pool_tokens_in)
            &&& ix.accounts@.len() == 13
            &&& metas_start_with(
                ix.accounts@,
                seq![
                    addrs.stake_pool@,
                    pool.validator_list@,
                    spec_withdraw_auth(addrs.program, addrs.stake_pool).unwrap().0,
                    addrs.stake_to_split@,
                    addrs.stake_to_receive@,
                    addrs.user_stake_auth@,
                    addrs.user_transfer_auth@,
                    addrs.pool_tokens_from@,
                    pool.manager_fee_account@,
                    pool.pool_mint@,
                    SYSVAR_CLOCK@,
                    pool.token_program_id@,
                    STAKE_PROGRAM@,
                ],
                WITHDRAW_STAKE_IX_PREFIX_IS_SIGNER@,
                WITHDRAW_STAKE_IX_PREFIX_IS_WRITER@,
            )
        },
{
    let withdraw_auth = match find_withdraw_auth_pda_internal(&addrs.program, &addrs.stake_pool) {
        Some((pda, _)) => pda,
        None => {
            return Err(BuildError::NoValidPda);
        },
    };
    let keys: [[u8; 32]; 13] = [
        addrs.stake_pool,
        pool.validator_list,
        withdraw_auth,
        addrs.stake_to_split,
        addrs.stake_to_receive,
        addrs.user_stake_auth,
        addrs.user_transfer_auth,
        addrs.pool_tokens_from,
        pool.manager_fee_account,
        pool.pool_mint,
        SYSVAR_CLOCK,
        pool.token_program_id,
        STAKE_PROGRAM,
    ];
    let accounts = keys_signer_writer_to_account_metas(
        keys.as_slice(),
        WITHDRAW_STAKE_IX_PREFIX_IS_SIGNER.as_slice(),
        WITHDRAW_STAKE_IX_PREFIX_IS_WRITER.as_slice(),
    );
    proof {
        lemma_metas_start_with(
            accounts@,
            keys@,
            seq![
                addrs.stake_pool@,
                pool.validator_list@,
                spec_withdraw_auth(addrs.program, addrs.stake_pool).unwrap().0,
                addrs.stake_to_split@,
                addrs.stake_to_receive@,
                addrs.user_stake_auth@,
                addrs.user_transfer_auth@,
                addrs.pool_tokens_from@,
                pool.manager_fee_account@,
                pool.pool_mint@,
                SYSVAR_CLOCK@,
                pool.token_program_id@,
                STAKE_PROGRAM@,
            ],
            WITHDRAW_STAKE_IX_PREFIX_IS_SIGNER@,
            WITHDRAW_STAKE_IX_PREFIX_IS_WRITER@,
        );
    }
    let data = WithdrawStakeIxData::new(args.pool_tokens_in).to_buf();
    Ok(
        Instruction {
            data: bytes_to_vec(data.as_slice()),
            accounts,
            program_address: addrs.program,
        },
    )
}

/// Removes validator entries that are ready for removal.
pub fn cleanup_removed_validator_entries_ix_from_stake_pool(
    addrs: ProgramAndStakePoolUserAddrs,
    pool: &StakePool,
) -> (r: Instruction)
    ensures
        r.program_address == addrs.program,
        r.data@ == seq![INSTRUCTION_IDX_CLEANUP_REMOVED_VALIDATOR_ENTRIES],
        r.accounts@.len() == 2,
        metas_start_with(
            r.accounts@,
            seq![addrs.stake_pool@, pool.validator_list@],
            CLEANUP_REMOVED_VALIDATOR_ENTRIES_IX_IS_SIGNER@,
            CLEANUP_REMOVED_VALIDATOR_ENTRIES_IX_IS_WRITER@,
        ),
{
    let keys: [[u8; 32]; 2] = [addrs.stake_pool, pool.validator_list];
    let accounts = keys_signer_writer_to_account_metas(
        keys.as_slice(),
        CLEANUP_REMOVED_VALIDATOR_ENTRIES_IX_IS_SIGNER.as_slice(),
        CLEANUP_REMOVED_VALIDATOR_ENTRIES_IX_IS_WRITER.as_slice(),
    );
    proof {
        lemma_metas_start_with(
            accounts@,
            keys@,
            seq![addrs.stake_pool@, pool.validator_list@],
            CLEANUP_REMOVED_VALIDATOR_ENTRIES_IX_IS_SIGNER@,
            CLEANUP_REMOVED_VALIDATOR_ENTRIES_IX_IS_WRITER@,
        );
    }
    let data = CleanupRemovedValidatorEntriesIxData::new().to_buf();
    Instruction { data: bytes_to_vec(data.as_slice()), accounts, program_address: addrs.program }
}

/// Updates the pool's totals from its validator list.
pub fn update_stake_pool_balance_ix_from_stake_pool(
    addrs: ProgramAndStakePoolUserAddrs,
    pool: &StakePool,
) -> (r: Result<Instruction, BuildError>)
    ensures
        r is Ok <==> spec_withdraw_auth(addrs.program, addrs.stake_pool) is Some,
        r is Err ==> r == Err::<Instruction, BuildError>(BuildError::NoValidPda),
        r matches Ok(ix) ==> {
            &&& ix.program_address == addrs.program
            &&& ix.data@ == seq![INSTRUCTION_IDX_UPDATE_STAKE_POOL_BALANCE]
            &&& ix.accounts@.len() == 7
            &&& metas_start_with(
                ix.accounts@,
                seq![
                    addrs.stake_pool@,
                    spec_withdraw_auth(addrs.program, addrs.stake_pool).unwrap().0,
                    pool.validator_list@,
                    pool.reserve_stake@,
                    pool.manager_fee_account@,
                    pool.pool_mint@,
                    pool.token_program_id@,
                ],
                UPDATE_STAKE_POOL_BALANCE_IX_IS_SIGNER@,
                UPDATE_STAKE_POOL_BALANCE_IX_IS_WRITER@,
            )
        },
{
    let withdraw_auth = match find_withdraw_auth_pda_internal(&addrs.program, &addrs.stake_pool) {
        Some((pda, _)) => pda,
        None => {
            return Err(BuildError::NoValidPda);
        },
    };
    let keys: [[u8; 32]; 7] = [
        addrs.stake_pool,
        withdraw_auth,
        pool.validator_list,
        pool.reserve_stake,
        pool.manager_fee_account,
        pool.pool_mint,
        pool.token_program_id,
    ];
    let accounts = keys_signer_writer_to_account_metas(
        keys.as_slice(),
        UPDATE_STAKE_POOL_BALANCE_IX_IS_SIGNER.as_slice(),
        UPDATE_STAKE_POOL_BALANCE_IX_IS_WRITER.as_slice(),
    );
    proof {
        lemma_metas_start_with(
            accounts@,
            keys@,
            seq![
                addrs.stake_pool@,
                spec_withdraw_auth(addrs.program, addrs.stake_pool).unwrap().0,
                pool.validator_list@,
                pool.reserve_stake@,
                pool.manager_fee_account@,
                pool.pool_mint@,
                pool.token_program_id@,
            ],
            UPDATE_STAKE_POOL_BALANCE_IX_IS_SIGNER@,
            UPDATE_STAKE_POOL_BALANCE_IX_IS_WRITER@,
        );
    }
    let data = UpdateStakePoolBalanceIxData::new().to_buf();
    Ok(
        Instruction {
            data: bytes_to_vec(data.as_slice()),
            accounts,
            program_address: addrs.program,
        },
    )
}

/// The pool's ephemeral stake account under `program`.
pub open spec fn spec_ephemeral_stake_account(program: [u8; 32], stake_pool: [u8; 32]) -> Option<
    (Seq<u8>, u8),
> {
    spec_find_pda(seq![EPHEMERAL_SEED@, stake_pool@, spec_u64_le(0)], program@)
}

/// Moves more reserve lamports to the validator voting with `vote_account`
/// through its ephemeral and transient stake accounts.
pub fn increase_additional_validator_stake_ix_from_stake_pool(
    addrs: IncreaseAdditionalValidatorStakeIxUserAddrs,
    pool: &StakePool,
    args: IncreaseAdditionalValidatorStakeIxArgs,
) -> (r: Result<Instruction, BuildError>)
    ensures
        r is Ok <==> spec_withdraw_auth(addrs.program, addrs.stake_pool) is Some
            && spec_ephemeral_stake_account(addrs.program, addrs.stake_pool) is Some
            && spec_transient_stake_account(
            addrs.program,
            addrs.stake_pool,
            addrs.vote_account,
            args.transient_stake_seed,
        ) is Some && spec_validator_stake_account(
            addrs.program,
            addrs.stake_pool,
            addrs.vote_account,
            args.validator_stake_seed,
        ) is Some,
        r is Err ==> r == Err::<Instruction, BuildError>(BuildError::NoValidPda),
        r matches Ok(ix) ==> {
            &&& ix.program_address == addrs.program
            &&& ix.data@ == seq![INSTRUCTION_IDX_INCREASE_ADDITIONAL_VALIDATOR_STAKE] + spec_u64_le(
                args.lamports,
            ) + spec_u64_le(args.transient_stake_seed) + spec_u64_le(0)
            &&& ix.accounts@.len() == 14
            &&& metas_start_with(
                ix.accounts@,
                seq![
                    addrs.stake_pool@,
                    pool.staker@,
                    spec_withdraw_auth(addrs.program, addrs.stake_pool).unwrap().0,
                    pool.validator_list@,
                    pool.reserve_stake@,
                    spec_ephemeral_stake_account(addrs.program, addrs.stake_pool).unwrap().0,
                    spec_transient_stake_account(
                        addrs.program,
                        addrs.stake_pool,
                        addrs.vote_account,
                        args.transient_stake_seed,
                    ).unwrap().0,
                    spec_validator_stake_account(
                        addrs.program,
                        addrs.stake_pool,
                        addrs.vote_account,
                        args.validator_stake_seed,
                    ).unwrap().0,
                    addrs.vote_account@,
                    SYSVAR_CLOCK@,
                    SYSVAR_STAKE_HISTORY@,
                    SYSVAR_STAKE_CONFIG@,
                    SYSTEM_PROGRAM@,
                    STAKE_PROGRAM@,
                ],
                INCREASE_ADDITIONAL_VALIDATOR_STAKE_IX_PREFIX_IS_SIGNER@,
                INCREASE_ADDITIONAL_VALIDATOR_STAKE_IX_PREFIX_IS_WRITER@,
            )
        },
{
    let withdraw_auth = match find_withdraw_auth_pda_internal(&addrs.program, &addrs.stake_pool) {
        Some((pda, _)) => pda,
        None => {
            return Err(BuildError::NoValidPda);
        },
    };
    let ephemeral_stake = match find_ephemeral_stake_account_pda_internal(
        &addrs.program,
        &addrs.stake_pool,
    ) {
        Some((pda, _)) => pda,
        None => {
            return Err(BuildError::NoValidPda);
        },
    };
    let transient_stake = match find_transient_stake_account_pda_internal(
        &addrs.program,
        &addrs.vote_account,
        &addrs.stake_pool,
        args.transient_stake_seed,
    ) {
        Some((pda, _)) => pda,
        None => {
            return Err(BuildError::NoValidPda);
        },
    };
    let validator_stake = match find_validator_stake_account_pda_internal(
        &addrs.program,
        &addrs.vote_account,
        &addrs.stake_pool,
        args.validator_stake_seed,
    ) {
        Some((pda, _)) => pda,
        None => {
            return Err(BuildError::NoValidPda);
        },
    };
    let keys: [[u8; 32]; 14] = [
        addrs.stake_pool,
        pool.staker,
        withdraw_auth,
        pool.validator_list,
        pool.reserve_stake,
        ephemeral_stake,
        transient_stake,
        validator_stake,
        addrs.vote_account,
        SYSVAR_CLOCK,
        SYSVAR_STAKE_HISTORY,
        SYSVAR_STAKE_CONFIG,
        SYSTEM_PROGRAM,
        STAKE_PROGRAM,
    ];
    let accounts = keys_signer_writer_to_account_metas(
        keys.as_slice(),
        INCREASE_ADDITIONAL_VALIDATOR_STAKE_IX_PREFIX_IS_SIGNER.as_slice(),
        INCREASE_ADDITIONAL_VALIDATOR_STAKE_IX_PREFIX_IS_WRITER.as_slice(),
    );
    proof {
        lemma_metas_start_with(
            accounts@,
            keys@,
            seq![
                addrs.stake_pool@,
                pool.staker@,
                spec_withdraw_auth(addrs.program, addrs.stake_pool).unwrap().0,
                pool.validator_list@,
                pool.reserve_stake@,
                spec_ephemeral_stake_account(addrs.program, addrs.stake_pool).unwrap().0,
                spec_transient_stake_account(
                    addrs.program,
                    addrs.stake_pool,
                    addrs.vote_account,
                    args.transient_stake_seed,
                ).unwrap().0,
                spec_validator_stake_account(
                    addrs.program,
                    addrs.stake_pool,
                    addrs.vote_account,
                    args.validator_stake_seed,
                ).unwrap().0,
                addrs.vote_account@,
                SYSVAR_CLOCK@,
                SYSVAR_STAKE_HISTORY@,
                SYSVAR_STAKE_CONFIG@,
                SYSTEM_PROGRAM@,
                STAKE_PROGRAM@,
            ],
            INCREASE_ADDITIONAL_VALIDATOR_STAKE_IX_PREFIX_IS_SIGNER@,
            INCREASE_ADDITIONAL_VALIDATOR_STAKE_IX_PREFIX_IS_WRITER@,
        );
    }
    let data = IncreaseAdditionalValidatorStakeIxData::new(
        args.lamports,
        args.transient_stake_seed,
    ).to_buf();
    Ok(
        Instruction {
            data: bytes_to_vec(data.as_slice()),
            accounts,
            program_address: addrs.program,
        },
    )
}

/// The deposit authority `initialize_ix` puts last: the given one, else
/// the pool's default deposit authority, if any.
pub open spec fn spec_initialize_deposit_authority(addrs: InitializeIxUserAddrs) -> Option<Seq<u8>> {
    match addrs.deposit_authority {
        Some(a) => Some(a@),
        None => match spec_find_pda(
            seq![addrs.stake_pool@, AUTHORITY_DEPOSIT_SEED@],
            addrs.program@,
        ) {
            Some(found) => Some(found.0),
            None => None,
        },
    }
}

/// Creates a pool; the deposit authority follows the accounts, read-only.
pub fn initialize_ix(addrs: InitializeIxUserAddrs, args: InitializeIxArgs) -> (r: Result<
    Instruction,
    BuildError,
>)
    ensures
        r is Ok <==> spec_withdraw_auth(addrs.program, addrs.stake_pool) is Some
            && spec_initialize_deposit_authority(addrs) is Some,
        r is Err ==> r == Err::<Instruction, BuildError>(BuildError::NoValidPda),
        r matches Ok(ix) ==> {
            &&& ix.program_address == addrs.program
            &&& ix.data@ == seq![crate::instructions::INSTRUCTION_IDX_INITIALIZE] + spec_u64_le(
                args.fee.denominator,
            ) + spec_u64_le(args.fee.numerator) + spec_u64_le(args.withdrawal_fee.denominator)
                + spec_u64_le(args.withdrawal_fee.numerator) + spec_u64_le(
                args.deposit_fee.denominator,
            ) + spec_u64_le(args.deposit_fee.numerator) + seq![args.referral_fee] + spec_u32_le(
                args.max_validators,
            )
            &&& ix.accounts@.len() == 10
            &&& metas_start_with(
                ix.accounts@,
                seq![
                    addrs.stake_pool@,
                    addrs.manager@,
                    addrs.staker@,
                    spec_withdraw_auth(addrs.program, addrs.stake_pool).unwrap().0,
                    addrs.validator_list@,
                    addrs.reserve@,
                    addrs.pool_mint@,
                    addrs.manager_fee@,
                    addrs.pool_token_program@,
                ],
                INITIALIZE_IX_PREFIX_IS_SIGNER@,
                INITIALIZE_IX_PREFIX_IS_WRITER@,
            )
            &&& ix.accounts@[9].address@ == spec_initialize_deposit_authority(addrs).unwrap()
            &&& ix.accounts@[9].role == 0
        },
{
    let withdraw_auth = match find_withdraw_auth_pda_internal(&addrs.program, &addrs.stake_pool) {
        Some((pda, _)) => pda,
        None => {
            return Err(BuildError::NoValidPda);
        },
    };
    let deposit_authority = match addrs.deposit_authority {
        Some(a) => a,
        None => match find_deposit_auth_pda_internal(&addrs.program, &addrs.stake_pool) {
            Some((pda, _)) => pda,
            None => {
                return Err(BuildError::NoValidPda);
            },
        },
    };
    let keys: [[u8; 32]; 9] = [
        addrs.stake_pool,
        addrs.manager,
        addrs.staker,
        withdraw_auth,
        addrs.validator_list,
        addrs.reserve,
        addrs.pool_mint,
        addrs.manager_fee,
        addrs.pool_token_program,
    ];
    let mut accounts = keys_signer_writer_to_account_metas(
        keys.as_slice(),
        INITIALIZE_IX_PREFIX_IS_SIGNER.as_slice(),
        INITIALIZE_IX_PREFIX_IS_WRITER.as_slice(),
    );
    accounts.push(AccountMeta::new(deposit_authority, Role::Readonly));
    proof {
        lemma_metas_start_with(
            accounts@,
            keys@,
            seq![
                addrs.stake_pool@,
                addrs.manager@,
                addrs.staker@,
                spec_withdraw_auth(addrs.program, addrs.stake_pool).unwrap().0,
                addrs.validator_list@,
                addrs.reserve@,
                addrs.pool_mint@,
                addrs.manager_fee@,
                addrs.pool_token_program@,
            ],
            INITIALIZE_IX_PREFIX_IS_SIGNER@,
            INITIALIZE_IX_PREFIX_IS_WRITER@,
        );
    }
    let data = InitializeIxData::new(
        args.fee,
        args.withdrawal_fee,
        args.deposit_fee,
        args.referral_fee,
        args.max_validators,
    ).to_buf();
    Ok(
        Instruction {
            data: bytes_to_vec(data.as_slice()),
            accounts,
            program_address: addrs.program,
        },
    )
}

/// The validator stake account of a validator list record.
pub open spec fn spec_record_validator_stake(
    program: [u8; 32],
    stake_pool: [u8; 32],
    v: crate::validator_list::ValidatorStakeInfo,
) -> Option<(Seq<u8>, u8)> {
    spec_validator_stake_account(
        program,
        stake_pool,
        v.vote_account_address,
        if v.validator_seed_suffix == 0 {
            None
        } else {
            Some(v.validator_seed_suffix)
        },
    )
}

/// The transient stake account of a validator list record.
pub open spec fn spec_record_transient_stake(
    program: [u8; 32],
    stake_pool: [u8; 32],
    v: crate::validator_list::ValidatorStakeInfo,
) -> Option<(Seq<u8>, u8)> {
    spec_transient_stake_account(
        program,
        stake_pool,
        v.vote_account_address,
        v.transient_seed_suffix,
    )
}

/// Both stake accounts of every record in `[start, end)` exist.
pub open spec fn spec_pairs_found(
    program: [u8; 32],
    stake_pool: [u8; 32],
    records: Seq<crate::validator_list::ValidatorStakeInfo>,
    start: int,
    end: int,
) -> bool {
    forall|k: int|
        start <= k < end ==> spec_record_validator_stake(program, stake_pool, #[trigger] records[k])
            is Some && spec_record_transient_stake(program, stake_pool, records[k]) is Some
}

/// `accounts[7 + 2k]` and `accounts[8 + 2k]` are the writable validator and
/// transient stake accounts of record `start + k`, for `k < n`.
pub open spec fn spec_pairs_listed(
    accounts: Seq<AccountMeta>,
    program: [u8; 32],
    stake_pool: [u8; 32],
    records: Seq<crate::validator_list::ValidatorStakeInfo>,
    start: int,
    n: int,
) -> bool {
    forall|k: int|
        0 <= k < n ==> (#[trigger] accounts[7 + 2 * k]).address@ == spec_record_validator_stake(
            program,
            stake_pool,
            records[start + k],
        ).unwrap().0 && accounts[7 + 2 * k].role == 1 && accounts[8 + 2 * k].address@
            == spec_record_transient_stake(program, stake_pool, records[start + k]).unwrap().0
            && accounts[8 + 2 * k].role == 1
}

/// Updates the balances of `count` validators from `start_index`: the
/// fixed accounts, then each validator's stake and transient stake
/// accounts, writable.
pub fn update_validator_list_balance_ix_from_stake_pool(
    addrs: ProgramAndStakePoolUserAddrs,
    pool: &StakePool,
    validator_list: &ValidatorList,
    args: UpdateValidatorListBalanceIxArgs,
) -> (r: Result<Instruction, BuildError>)
    ensures
        ({
            let w = spec_withdraw_auth(addrs.program, addrs.stake_pool);
            let n = validator_list.validators@.len();
            let in_bounds = args.start_index < n && args.count <= n - args.start_index;
            let found = spec_pairs_found(
                addrs.program,
                addrs.stake_pool,
                validator_list.validators@,
                args.start_index as int,
                args.start_index + args.count,
            );
            &&& w is None ==> r == Err::<Instruction, BuildError>(BuildError::NoValidPda)
            &&& w is Some && !in_bounds ==> r == Err::<Instruction, BuildError>(
                BuildError::ValidatorIndexOutOfBounds,
            )
            &&& w is Some && in_bounds && args.start_index > u32::MAX ==> r == Err::<
                Instruction,
                BuildError,
            >(BuildError::IndexTooLarge)
            &&& w is Some && in_bounds && args.start_index <= u32::MAX && !found ==> r == Err::<
                Instruction,
                BuildError,
            >(BuildError::NoValidPda)
            &&& w is Some && in_bounds && args.start_index <= u32::MAX && found ==> r is Ok
        }),
        r matches Ok(ix) ==> {
            &&& ix.program_address == addrs.program
            &&& ix.data@ == seq![INSTRUCTION_IDX_UPDATE_VALIDATOR_LIST_BALANCE] + spec_u32_le(
                args.start_index as u32,
            ) + seq![
                if args.no_merge {
                    1u8
                } else {
                    0u8
                },
            ]
            &&& ix.accounts@.len() == 7 + 2 * args.count
            &&& metas_start_with(
                ix.accounts@,
                seq![
                    addrs.stake_pool@,
                    spec_withdraw_auth(addrs.program, addrs.stake_pool).unwrap().0,
                    pool.validator_list@,
                    pool.reserve_stake@,
                    SYSVAR_CLOCK@,
                    SYSVAR_STAKE_HISTORY@,
                    STAKE_PROGRAM@,
                ],
                UPDATE_VALIDATOR_LIST_BALANCE_IX_PREFIX_IS_SIGNER@,
                UPDATE_VALIDATOR_LIST_BALANCE_IX_PREFIX_IS_WRITER@,
            )
            &&& spec_pairs_listed(
                ix.accounts@,
                addrs.program,
                addrs.stake_pool,
                validator_list.validators@,
                args.start_index as int,
                args.count as int,
            )
        },
{
    let withdraw_auth = match find_withdraw_auth_pda_internal(&addrs.program, &addrs.stake_pool) {
        Some((pda, _)) => pda,
        None => {
            return Err(BuildError::NoValidPda);
        },
    };
    let n = validator_list.validators.len();
    if args.start_index >= n {
        return Err(BuildError::ValidatorIndexOutOfBounds);
    }
    if args.count > n - args.start_index {
        return Err(BuildError::ValidatorIndexOutOfBounds);
    }
    if args.start_index > 0xffff_ffff {
        return Err(BuildError::IndexTooLarge);
    }
    let keys: [[u8; 32]; 7] = [
        addrs.stake_pool,
        withdraw_auth,
        pool.validator_list,
        pool.reserve_stake,
        SYSVAR_CLOCK,
        SYSVAR_STAKE_HISTORY,
        STAKE_PROGRAM,
    ];
    let mut accounts = keys_signer_writer_to_account_metas(
        keys.as_slice(),
        UPDATE_VALIDATOR_LIST_BALANCE_IX_PREFIX_IS_SIGNER.as_slice(),
        UPDATE_VALIDATOR_LIST_BALANCE_IX_PREFIX_IS_WRITER.as_slice(),
    );
    let ghost key_views = seq![
        addrs.stake_pool@,
        spec_withdraw_auth(addrs.program, addrs.stake_pool).unwrap().0,
        pool.validator_list@,
        pool.reserve_stake@,
        SYSVAR_CLOCK@,
        SYSVAR_STAKE_HISTORY@,
        STAKE_PROGRAM@,
    ];
    proof {
        lemma_metas_start_with(
            accounts@,
            keys@,
            key_views,
            UPDATE_VALIDATOR_LIST_BALANCE_IX_PREFIX_IS_SIGNER@,
            UPDATE_VALIDATOR_LIST_BALANCE_IX_PREFIX_IS_WRITER@,
        );
    }
    let ghost records = validator_list.validators@;
    let start = args.start_index;
    let mut k: usize = 0;
    while k < args.count
        invariant
            0 <= k <= args.count,
            start == args.start_index,
            start + args.count <= records.len(),
            n == records.len(),
            start <= 0xffff_ffff,
            spec_withdraw_auth(addrs.program, addrs.stake_pool) is Some,
            records == validator_list.validators@,
            accounts@.len() == 7 + 2 * k,
            metas_start_with(
                accounts@,
                key_views,
                UPDATE_VALIDATOR_LIST_BALANCE_IX_PREFIX_IS_SIGNER@,
                UPDATE_VALIDATOR_LIST_BALANCE_IX_PREFIX_IS_WRITER@,
            ),
            spec_pairs_found(addrs.program, addrs.stake_pool, records, start as int, start + k),
            spec_pairs_listed(accounts@, addrs.program, addrs.stake_pool, records, start as int, k as int),
        decreases args.count - k,
    {
        let v = &validator_list.validators[start + k];
        let validator_stake = match find_validator_stake_account_pda_internal(
            &addrs.program,
            v.vote_account_address(),
            &addrs.stake_pool,
            v.validator_seed_suffix(),
        ) {
            Some((pda, _)) => pda,
            None => {
                proof {
                    let ghost bad = records[start + k];
                    assert(spec_record_validator_stake(addrs.program, addrs.stake_pool, bad) is None);
                    assert(!spec_pairs_found(
                        addrs.program,
                        addrs.stake_pool,
                        validator_list.validators@,
                        args.start_index as int,
                        args.start_index + args.count,
                    )) by {
                        if spec_pairs_found(
                            addrs.program,
                            addrs.stake_pool,
                            validator_list.validators@,
                            args.start_index as int,
                            args.start_index + args.count,
                        ) {
                            assert(spec_record_validator_stake(
                                addrs.program,
                                addrs.stake_pool,
                                validator_list.validators@[start + k],
                            ) is Some);
                        }
                    }
                }
                return Err(BuildError::NoValidPda);
            },
        };
        let transient_stake = match find_transient_stake_account_pda_internal(
            &addrs.program,
            v.vote_account_address(),
            &addrs.stake_pool,
            v.transient_seed_suffix(),
        ) {
            Some((pda, _)) => pda,
            None => {
                proof {
                    let ghost bad = records[start + k];
                    assert(spec_record_transient_stake(addrs.program, addrs.stake_pool, bad) is None);
                    assert(!spec_pairs_found(
                        addrs.program,
                        addrs.stake_pool,
                        validator_list.validators@,
                        args.start_index as int,
                        args.start_index + args.count,
                    )) by {
                        if spec_pairs_found(
                            addrs.program,
                            addrs.stake_pool,
                            validator_list.validators@,
                            args.start_index as int,
                            args.start_index + args.count,
                        ) {
                            assert(spec_record_transient_stake(
                                addrs.program,
                                addrs.stake_pool,
                                validator_list.validators@[start + k],
                            ) is Some);
                        }
                    }
                }
                return Err(BuildError::NoValidPda);
            },
        };
        let ghost before = accounts@;
        accounts.push(AccountMeta::new(validator_stake, Role::Writable));
        accounts.push(AccountMeta::new(transient_stake, Role::Writable));
        proof {
            assert forall|i: int| 0 <= i < 7 + 2 * k implies accounts@[i] == before[i] by {}
            assert(metas_start_with(
                accounts@,
                key_views,
                UPDATE_VALIDATOR_LIST_BALANCE_IX_PREFIX_IS_SIGNER@,
                UPDATE_VALIDATOR_LIST_BALANCE_IX_PREFIX_IS_WRITER@,
            )) by {
                assert forall|i: int| 0 <= i < key_views.len() implies (#[trigger] accounts@[i]).address@
                    == key_views[i] && accounts@[i].role == spec_role_byte(
                    UPDATE_VALIDATOR_LIST_BALANCE_IX_PREFIX_IS_SIGNER@[i],
                    UPDATE_VALIDATOR_LIST_BALANCE_IX_PREFIX_IS_WRITER@[i],
                ) by {
                    assert(UPDATE_VALIDATOR_LIST_BALANCE_IX_PREFIX_IS_SIGNER@.len() == 7);
                    assert(UPDATE_VALIDATOR_LIST_BALANCE_IX_PREFIX_IS_WRITER@.len() == 7);
                    assert(accounts@[i] == before[i]);
                }
            }
            assert forall|j: int| 0 <= j < k + 1 implies (#[trigger] accounts@[7 + 2 * j]).address@
                == spec_record_validator_stake(addrs.program, addrs.stake_pool, records[start + j]).unwrap().0
                && accounts@[7 + 2 * j].role == 1 && accounts@[8 + 2 * j].address@
                == spec_record_transient_stake(addrs.program, addrs.stake_pool, records[start + j]).unwrap().0
                && accounts@[8 + 2 * j].role == 1 by {
                if j < k {
                    assert(accounts@[7 + 2 * j] == before[7 + 2 * j]);
                    assert(accounts@[8 + 2 * j] == before[8 + 2 * j]);
                    assert(before[7 + 2 * j] == before[7 + 2 * j]);
                }
            }
            assert forall|j: int| start <= j < start + k + 1 implies spec_record_validator_stake(
                addrs.program,
                addrs.stake_pool,
                #[trigger] records[j],
            ) is Some && spec_record_transient_stake(addrs.program, addrs.stake_pool, records[j]) is Some by {
                if j < start + k {
                    assert(spec_pairs_found(addrs.program, addrs.stake_pool, records, start as int, start + k));
                }
            }
        }
        k += 1;
    }
    let data = UpdateValidatorListBalanceIxData::new(start as u32, args.no_merge).to_buf();
    Ok(
        Instruction {
            data: bytes_to_vec(data.as_slice()),
            accounts,
            program_address: addrs.program,
        },
    )
}

} // verus!
