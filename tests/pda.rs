use solana_pubkey::Pubkey;
use spl_stake_pool_core::pda::{
    create_pda, deposit_auth_seeds, ephemeral_stake_seeds, find_pda, transient_stake_seeds,
    validator_stake_seeds, withdraw_auth_seeds, OptionalSeed, MAX_SEEDS, MAX_SEED_LEN,
};

struct Rng(u64);

impl Rng {
    fn next(&mut self) -> u64 {
        self.0 ^= self.0 << 13;
        self.0 ^= self.0 >> 7;
        self.0 ^= self.0 << 17;
        self.0
    }

    fn bytes(&mut self, n: usize) -> Vec<u8> {
        (0..n).map(|_| self.next() as u8).collect()
    }

    fn key(&mut self) -> [u8; 32] {
        let mut k = [0u8; 32];
        k.copy_from_slice(&self.bytes(32));
        k
    }
}

fn solana_find(seeds: &[&[u8]], program_id: &[u8; 32]) -> Option<([u8; 32], u8)> {
    Pubkey::try_find_program_address(seeds, &Pubkey::new_from_array(*program_id))
        .map(|(pk, bump)| (pk.to_bytes(), bump))
}

#[test]
fn check_find_pda_against_solana() {
    let mut rng = Rng(0x2545f4914f6cdd1d);
    for _ in 0..300 {
        let program_id = rng.key();
        let n_seeds = (rng.next() % (MAX_SEEDS as u64 + 1)) as usize;
        let seeds: Vec<Vec<u8>> = (0..n_seeds)
            .map(|_| {
                let len = (rng.next() % (MAX_SEED_LEN as u64 + 2)) as usize;
                rng.bytes(len)
            })
            .collect();
        let slices: Vec<&[u8]> = seeds.iter().map(|v| v.as_slice()).collect();
        assert_eq!(find_pda(&slices, &program_id), solana_find(&slices, &program_id));
    }
}

#[test]
fn check_create_pda_against_solana() {
    let mut rng = Rng(0x853c49e6748fea9b);
    let mut found = 0;
    for _ in 0..300 {
        let program_id = rng.key();
        let n_seeds = (rng.next() % (MAX_SEEDS as u64 + 2)) as usize;
        let seeds: Vec<Vec<u8>> = (0..n_seeds)
            .map(|_| {
                let len = (rng.next() % (MAX_SEED_LEN as u64 + 2)) as usize;
                rng.bytes(len)
            })
            .collect();
        let slices: Vec<&[u8]> = seeds.iter().map(|v| v.as_slice()).collect();
        let ours = create_pda(&slices, &program_id);
        let theirs = Pubkey::create_program_address(&slices, &Pubkey::new_from_array(program_id))
            .ok()
            .map(|pk| pk.to_bytes());
        assert_eq!(ours, theirs);
        if ours.is_some() {
            found += 1;
        }
    }
    assert!(found > 0);
}

#[test]
fn seed_limits() {
    let program_id = [7u8; 32];
    let long = [1u8; 33];
    assert_eq!(create_pda(&[&long[..]], &program_id), None);
    assert_eq!(find_pda(&[&long[..]], &program_id), None);
    let one = [1u8; 1];
    let sixteen: Vec<&[u8]> = (0..16).map(|_| &one[..]).collect();
    // with the bump seed there would be 17
    assert_eq!(find_pda(&sixteen, &program_id), None);
    let fifteen: Vec<&[u8]> = (0..15).map(|_| &one[..]).collect();
    assert_eq!(find_pda(&fifteen, &program_id), solana_find(&fifteen, &program_id));
    assert!(find_pda(&fifteen, &program_id).is_some());
}

#[test]
fn pool_seed_sets() {
    let pool = [3u8; 32];
    let vote = [4u8; 32];
    let program_id = [5u8; 32];
    let (a, b) = withdraw_auth_seeds(&pool);
    assert_eq!(b, b"withdraw");
    let expected = solana_find(&[&pool[..], b"withdraw"], &program_id);
    assert_eq!(find_pda(&[a.as_slice(), b.as_slice()], &program_id), expected);
    let (_, b) = deposit_auth_seeds(&pool);
    assert_eq!(b, b"deposit");
    let (v, p, s) = validator_stake_seeds(&vote, &pool, Some(258));
    assert_eq!((v, p), (&vote, &pool));
    assert_eq!(s, OptionalSeed::Present([2, 1, 0, 0]));
    assert_eq!(s.as_slice(), &[2, 1, 0, 0]);
    let (_, _, none) = validator_stake_seeds(&vote, &pool, None);
    assert_eq!(none.as_slice(), &[] as &[u8]);
    let (_, _, zero) = validator_stake_seeds(&vote, &pool, Some(0));
    assert_eq!(zero, OptionalSeed::Absent);
    let (t, v, p, suffix) = transient_stake_seeds(&vote, &pool, 0x0102030405060708);
    assert_eq!(t, b"transient");
    assert_eq!((v, p), (&vote, &pool));
    assert_eq!(suffix, [8, 7, 6, 5, 4, 3, 2, 1]);
    let (e, p, zeros) = ephemeral_stake_seeds(&pool);
    assert_eq!(e, b"ephemeral");
    assert_eq!(p, &pool);
    assert_eq!(zeros, [0u8; 8]);
    let expected = solana_find(&[t.as_slice(), &vote[..], &pool[..], &suffix[..]], &program_id);
    assert_eq!(
        find_pda(&[t.as_slice(), &vote[..], &pool[..], &suffix[..]], &program_id),
        expected
    );
}
