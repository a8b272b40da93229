use vesting_sol_program::error::ErrorCode;
use vesting_sol_program::instructions::initialize::{handler, Initialize};
use vesting_sol_program::instructions::update_vesting::{
    transfer_ownership_handler, update_creation_fee_handler, update_treasury_handler,
    TransferOwnership, UpdateCreationFee, UpdateTreasury,
};
use vesting_sol_program::pubkey::Pubkey;
use vesting_sol_program::state::Vesting;

fn key(b: u8) -> Pubkey {
    Pubkey::new_from_array([b; 32])
}

fn config() -> Vesting {
    Vesting { owner: key(1), treasury: key(2), creation_fee: 50 }
}

fn blank() -> Vesting {
    Vesting { owner: Pubkey::default(), treasury: Pubkey::default(), creation_fee: 0 }
}

#[test]
fn default_key_is_all_zero() {
    assert_eq!(Pubkey::default().to_bytes(), [0u8; 32]);
    assert_eq!(Pubkey::default(), Pubkey::new_from_array([0u8; 32]));
}

#[test]
fn keys_are_equal_when_their_bytes_are() {
    let mut bytes = [7u8; 32];
    assert_eq!(Pubkey::new_from_array(bytes), key(7));
    assert_eq!(key(7).to_bytes(), bytes);
    bytes[31] = 8;
    assert_ne!(Pubkey::new_from_array(bytes), key(7));
    bytes[31] = 7;
    bytes[0] = 0;
    assert_ne!(Pubkey::new_from_array(bytes), key(7));
}

#[test]
fn initialize_makes_the_caller_the_authority() {
    let mut ctx = Initialize { vesting: blank(), owner: key(1), treasury: key(2) };
    assert_eq!(handler(&mut ctx, 50), Ok(()));
    assert_eq!(ctx, Initialize { vesting: config(), owner: key(1), treasury: key(2) });
}

#[test]
fn initialize_rejects_a_zero_fee() {
    let mut ctx = Initialize { vesting: blank(), owner: key(1), treasury: key(2) };
    assert_eq!(handler(&mut ctx, 0), Err(ErrorCode::InvalidAmount));
    assert_eq!(ctx, Initialize { vesting: blank(), owner: key(1), treasury: key(2) });
    assert_eq!(vesting_sol_program::initialize(&mut ctx, 0), Err(ErrorCode::InvalidAmount));
    assert_eq!(vesting_sol_program::initialize(&mut ctx, 1), Ok(()));
    assert_eq!(ctx.vesting.creation_fee, 1);
}

#[test]
fn fee_can_be_set_to_anything_by_the_authority() {
    let mut ctx = UpdateCreationFee { vesting: config(), owner: key(1) };
    assert_eq!(update_creation_fee_handler(&mut ctx, 75), Ok(()));
    assert_eq!(ctx.vesting, Vesting { creation_fee: 75, ..config() });
    assert_eq!(update_creation_fee_handler(&mut ctx, 0), Ok(()));
    assert_eq!(ctx.vesting, Vesting { creation_fee: 0, ..config() });
    assert_eq!(vesting_sol_program::update_creation_fee(&mut ctx, u64::MAX), Ok(()));
    assert_eq!(ctx.vesting, Vesting { creation_fee: u64::MAX, ..config() });
}

#[test]
fn fee_cannot_be_set_by_anyone_else() {
    let mut ctx = UpdateCreationFee { vesting: config(), owner: key(2) };
    assert_eq!(update_creation_fee_handler(&mut ctx, 75), Err(ErrorCode::Unauthorized));
    assert_eq!(ctx.vesting, config());
}

#[test]
fn treasury_changes_to_a_real_account_only() {
    let mut ctx = UpdateTreasury { vesting: config(), owner: key(1) };
    assert_eq!(update_treasury_handler(&mut ctx, Pubkey::default()), Err(ErrorCode::ZeroAddress));
    assert_eq!(ctx.vesting, config());
    assert_eq!(update_treasury_handler(&mut ctx, key(9)), Ok(()));
    assert_eq!(ctx.vesting, Vesting { treasury: key(9), ..config() });
    assert_eq!(vesting_sol_program::update_treasury(&mut ctx, key(8)), Ok(()));
    assert_eq!(ctx.vesting.treasury, key(8));
}

#[test]
fn treasury_cannot_be_changed_by_anyone_else() {
    let mut ctx = UpdateTreasury { vesting: config(), owner: key(3) };
    assert_eq!(update_treasury_handler(&mut ctx, key(9)), Err(ErrorCode::Unauthorized));
    assert_eq!(update_treasury_handler(&mut ctx, Pubkey::default()), Err(ErrorCode::Unauthorized));
    assert_eq!(ctx.vesting, config());
}

#[test]
fn authority_is_handed_over_at_once() {
    let mut ctx = TransferOwnership { vesting: config(), owner: key(1) };
    assert_eq!(
        transfer_ownership_handler(&mut ctx, Pubkey::default()),
        Err(ErrorCode::ZeroAddress)
    );
    assert_eq!(ctx.vesting, config());
    assert_eq!(transfer_ownership_handler(&mut ctx, key(6)), Ok(()));
    assert_eq!(ctx.vesting, Vesting { owner: key(6), ..config() });
    // the old authority has no say any more
    assert_eq!(transfer_ownership_handler(&mut ctx, key(1)), Err(ErrorCode::Unauthorized));
    assert_eq!(vesting_sol_program::transfer_ownership(&mut ctx, key(1)), Err(ErrorCode::Unauthorized));
    assert_eq!(ctx.vesting.owner, key(6));
}

#[test]
fn a_key_with_one_byte_set_is_not_the_null_identity() {
    let mut bytes = [0u8; 32];
    bytes[31] = 1;
    let mut ctx = UpdateTreasury { vesting: config(), owner: key(1) };
    assert_eq!(update_treasury_handler(&mut ctx, Pubkey::new_from_array(bytes)), Ok(()));
    assert_eq!(ctx.vesting.treasury.to_bytes(), bytes);
}
