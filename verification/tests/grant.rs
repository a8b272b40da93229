use vesting_sol_program::instructions::claim::{self, Claim};
use vesting_sol_program::instructions::create_vesting::{self, CreateVesting};
use vesting_sol_program::pubkey::Pubkey;
use vesting_sol_program::state::{Vesting, VestingRecord, VestingStorage};

const NOW: u64 = 1_700_000_000;

fn key(b: u8) -> Pubkey {
    Pubkey::new_from_array([b; 32])
}

fn blank_record() -> VestingRecord {
    VestingRecord {
        owner: Pubkey::default(),
        amount: 0,
        start_time: 0,
        end_time: 0,
        periods: 0,
        period_duration: 0,
        amount_per_period: 0,
        storage_pda: Pubkey::default(),
        claimed_amount: 0,
    }
}

fn created() -> CreateVesting {
    let mut ctx = CreateVesting {
        owner: key(1),
        owner_lamports: 1_000_000,
        beneficiary: key(7),
        vesting_record_key: key(2),
        vesting_record: blank_record(),
        vesting_storage_key: key(3),
        vesting_storage_bump: 255,
        vesting_storage: VestingStorage { vesting_record: Pubkey::default(), bump: 0 },
        vesting: Vesting { owner: key(4), treasury: key(5), creation_fee: 5000 },
    };
    let grant =
        create_vesting::handler(&ctx, 84_000, NOW + 60, NOW + 3660, 12, 300, 7000, NOW).unwrap();
    assert_eq!(grant.fee.lamports, 5000);
    assert_eq!(grant.deposit.lamports, 84_000);
    create_vesting::settle(&mut ctx, &grant, true, true);
    ctx
}

fn claim_accounts(created: &CreateVesting, caller: Pubkey) -> Claim {
    Claim {
        owner: caller,
        vesting_record_key: created.vesting_record_key,
        vesting_record: created.vesting_record,
        vesting_storage_key: created.vesting_storage_key,
        vesting_storage: created.vesting_storage,
    }
}

#[test]
fn grant_pays_out_exactly_what_was_deposited() {
    let created = created();
    let mut ctx = claim_accounts(&created, key(7));
    let mut vault = 84_000u64;
    let mut paid = 0u64;
    let mut t = NOW;
    while t <= NOW + 60 + 13 * 300 {
        if let Ok(payout) = claim::handler(&ctx, t) {
            assert_eq!(payout.transfer.from, key(3));
            assert_eq!(payout.transfer.to, key(7));
            assert_eq!(payout.signer_seeds[1], vec![2u8; 32]);
            assert_eq!(payout.signer_seeds[2], vec![255u8]);
            assert!(payout.transfer.lamports <= vault);
            vault -= payout.transfer.lamports;
            paid += payout.transfer.lamports;
            claim::settle(&mut ctx, payout.transfer.lamports, true);
        }
        assert_eq!(vault, ctx.vesting_record.amount - ctx.vesting_record.claimed_amount);
        t += 431;
    }
    assert_eq!(paid, 84_000);
    assert_eq!(vault, 0);
    assert_eq!(ctx.vesting_record.claimed_amount, 84_000);
}

#[test]
fn grant_is_claimed_by_its_beneficiary_only() {
    let created = created();
    let late = NOW + 60 + 12 * 300;
    let grantor = claim_accounts(&created, key(1));
    assert!(claim::handler(&grantor, late).is_err());
    let beneficiary = claim_accounts(&created, key(7));
    assert_eq!(claim::handler(&beneficiary, late).unwrap().transfer.lamports, 84_000);
}

#[test]
fn grant_pays_nothing_before_its_start() {
    let created = created();
    let ctx = claim_accounts(&created, key(7));
    assert!(claim::handler(&ctx, NOW).is_err());
    assert!(claim::handler(&ctx, NOW + 59).is_err());
    assert!(claim::handler(&ctx, NOW + 60 + 299).is_err());
    assert_eq!(claim::handler(&ctx, NOW + 60 + 300).unwrap().transfer.lamports, 7000);
}
