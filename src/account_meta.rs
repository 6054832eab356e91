use vstd::prelude::*;

verus! {

/// The role of an account in a transaction.
#[derive(Debug, Clone, Copy, PartialEq, Eq, Structural)]
pub enum Role {
    Readonly,
    Writable,
    ReadonlySigner,
    WritableSigner,
}

/// Role byte: `2` for a signer plus `1` for a writable account.
pub open spec fn spec_role_byte(signer: bool, writable: bool) -> u8 {
    if signer && writable {
        3
    } else if signer {
        2
    } else if writable {
        1
    } else {
        0
    }
}

impl Role {
    pub open spec fn spec_as_u8(self) -> u8 {
        match self {
            Role::Readonly => 0,
            Role::Writable => 1,
            Role::ReadonlySigner => 2,
            Role::WritableSigner => 3,
        }
    }

    pub fn from_signer_writable(signer: bool, writable: bool) -> (r: Role)
        ensures
            r.spec_as_u8() == spec_role_byte(signer, writable),
    {
        match (signer, writable) {
            (true, true) => Role::WritableSigner,
            (true, false) => Role::ReadonlySigner,
            (false, true) => Role::Writable,
            (false, false) => Role::Readonly,
        }
    }

    /// Readonly 0, Writable 1, ReadonlySigner 2, WritableSigner 3.
    pub fn as_u8(&self) -> (r: u8)
        ensures
            r == self.spec_as_u8(),
    {
        match self {
            Role::Readonly => 0,
            Role::Writable => 1,
            Role::ReadonlySigner => 2,
            Role::WritableSigner => 3,
        }
    }
}

/// An account of an instruction with its role byte.
#[derive(Debug, Clone, Copy, PartialEq, Eq)]
pub struct AccountMeta {
    pub address: [u8; 32],
    pub role: u8,
}

impl AccountMeta {
    pub fn new(address: [u8; 32], role: Role) -> (r: AccountMeta)
        ensures
            r.address == address,
            r.role == role.spec_as_u8(),
    {
        AccountMeta { address, role: role.as_u8() }
    }
}

/// The metas of `keys`, each with the role its signer and writer flags give.
pub open spec fn spec_account_metas(keys: Seq<[u8; 32]>, signer: Seq<bool>, writer: Seq<bool>) -> Seq<
    AccountMeta,
> {
    Seq::new(
        keys.len(),
        |i: int| AccountMeta { address: keys[i], role: spec_role_byte(signer[i], writer[i]) },
    )
}

/// One meta per key, in order, with the role from the matching flags.
pub fn keys_signer_writer_to_account_metas(keys: &[[u8; 32]], signer: &[bool], writer: &[bool]) -> (r:
    Vec<AccountMeta>)
    requires
        signer@.len() == keys@.len(),
        writer@.len() == keys@.len(),
    ensures
        r@ == spec_account_metas(keys@, signer@, writer@),
{
    let mut r: Vec<AccountMeta> = Vec::new();
    let mut i: usize = 0;
    while i < keys.len()
        invariant
            0 <= i <= keys@.len(),
            signer@.len() == keys@.len(),
            writer@.len() == keys@.len(),
            r@ == spec_account_metas(keys@, signer@, writer@).take(i as int),
        decreases keys.len() - i,
    {
        r.push(AccountMeta::new(keys[i], Role::from_signer_writable(signer[i], writer[i])));
        i += 1;
        proof {
            assert(r@ =~= spec_account_metas(keys@, signer@, writer@).take(i as int));
        }
    }
    proof {
        assert(r@ =~= spec_account_metas(keys@, signer@, writer@));
    }
    r
}

} // verus!
