use flash_loan::constants::{BPS_DENOMINATOR, MAX_FEE_BPS};
use flash_loan::error::ErrorCode;
use flash_loan::identity::Identity;
use flash_loan::instructions::initialize::Initialize;
use flash_loan::instructions::set_fee::SetFee;
use flash_loan::state::{fee_in_bounds, Account, Protocol};
use flash_loan::{initialize, set_fee};

fn id(byte: u8) -> Identity {
    Identity::new([byte; 32])
}

fn blank() -> Initialize {
    Initialize {
        payer: id(1),
        protocol: Account { key: id(9), data: Protocol { authority: id(0), fee: 0 } },
    }
}

fn configured(authority: Identity, fee: u64, caller: Identity) -> SetFee {
    SetFee { authority: caller, protocol: Account { key: id(9), data: Protocol { authority, fee } } }
}

#[test]
fn constants_are_ten_percent_of_a_whole() {
    assert_eq!(MAX_FEE_BPS, 1_000);
    assert_eq!(BPS_DENOMINATOR, 10_000);
}

#[test]
fn fee_bounds_are_exclusive_of_zero_and_inclusive_of_the_maximum() {
    assert!(!fee_in_bounds(0));
    assert!(fee_in_bounds(1));
    assert!(fee_in_bounds(50));
    assert!(fee_in_bounds(999));
    assert!(fee_in_bounds(1_000));
    assert!(!fee_in_bounds(1_001));
    assert!(!fee_in_bounds(u64::MAX));
}

#[test]
fn identities_compare_byte_by_byte() {
    let a = id(7);
    let b = Identity::new([7; 32]);
    assert!(a.same(&b));
    assert_eq!(a, b);
    let mut bytes = [7u8; 32];
    bytes[31] = 8;
    let c = Identity::new(bytes);
    assert!(!a.same(&c));
    assert_ne!(a, c);
    let mut first = [7u8; 32];
    first[0] = 0;
    assert_ne!(a, Identity::new(first));
    assert_eq!(a.bytes, [7u8; 32]);
}

#[test]
fn initialize_stores_authority_and_fee() {
    let mut ctx = blank();
    assert_eq!(initialize(&mut ctx, id(2), 50), Ok(()));
    assert_eq!(ctx.protocol.data, Protocol { authority: id(2), fee: 50 });
    assert_eq!(ctx.protocol.key, id(9));
    assert_eq!(ctx.payer, id(1));
}

#[test]
fn initialize_accepts_every_fee_in_bounds() {
    for fee in 1..=1_000u64 {
        let mut ctx = blank();
        assert_eq!(initialize(&mut ctx, id(2), fee), Ok(()));
        assert_eq!(ctx.protocol.data.fee, fee);
        assert_eq!(ctx.protocol.data.authority, id(2));
    }
}

#[test]
fn initialize_rejects_zero_fee() {
    let mut ctx = blank();
    assert_eq!(initialize(&mut ctx, id(2), 0), Err(ErrorCode::InvalidFee));
    assert_eq!(ctx, blank());
}

#[test]
fn initialize_rejects_fee_above_maximum() {
    for fee in [1_001u64, 1_002, 10_000, u64::MAX] {
        let mut ctx = blank();
        assert_eq!(initialize(&mut ctx, id(2), fee), Err(ErrorCode::InvalidFee));
        assert_eq!(ctx, blank());
    }
}

#[test]
fn initialize_handler_agrees_with_entry_point() {
    for fee in [0u64, 1, 1_000, 1_001] {
        let mut a = blank();
        let mut b = blank();
        let ra = initialize(&mut a, id(3), fee);
        let rb = flash_loan::instructions::initialize::handler(&mut b, id(3), fee);
        assert_eq!(ra, rb);
        assert_eq!(a, b);
    }
}

#[test]
fn set_fee_by_authority_replaces_fee() {
    let mut ctx = configured(id(2), 50, id(2));
    assert_eq!(set_fee(&mut ctx, 100), Ok(()));
    assert_eq!(ctx.protocol.data.fee, 100);
    assert_eq!(ctx.protocol.data.authority, id(2));
    assert_eq!(ctx.authority, id(2));
    assert_eq!(ctx.protocol.key, id(9));
}

#[test]
fn set_fee_accepts_every_fee_in_bounds() {
    for fee in 1..=1_000u64 {
        let mut ctx = configured(id(2), 50, id(2));
        assert_eq!(set_fee(&mut ctx, fee), Ok(()));
        assert_eq!(ctx.protocol.data.fee, fee);
    }
}

#[test]
fn set_fee_rejects_fee_out_of_bounds() {
    for fee in [0u64, 1_001, 5_000, u64::MAX] {
        let mut ctx = configured(id(2), 50, id(2));
        assert_eq!(set_fee(&mut ctx, fee), Err(ErrorCode::InvalidFee));
        assert_eq!(ctx, configured(id(2), 50, id(2)));
    }
}

#[test]
fn set_fee_by_another_caller_is_unauthorized_whatever_the_fee() {
    for fee in [0u64, 1, 50, 1_000, 1_001, u64::MAX] {
        let mut ctx = configured(id(2), 50, id(3));
        assert_eq!(set_fee(&mut ctx, fee), Err(ErrorCode::Unauthorized));
        assert_eq!(ctx, configured(id(2), 50, id(3)));
    }
}

#[test]
fn set_fee_tells_callers_apart_by_a_single_byte() {
    let mut bytes = [2u8; 32];
    bytes[17] = 3;
    let mut ctx = configured(id(2), 50, Identity::new(bytes));
    assert_eq!(set_fee(&mut ctx, 60), Err(ErrorCode::Unauthorized));
    assert_eq!(ctx.protocol.data.fee, 50);
}

#[test]
fn set_fee_handler_agrees_with_entry_point() {
    for (caller, fee) in [(2u8, 0u64), (2, 70), (2, 1_001), (3, 70), (3, 0)] {
        let mut a = configured(id(2), 50, id(caller));
        let mut b = configured(id(2), 50, id(caller));
        let ra = set_fee(&mut a, fee);
        let rb = flash_loan::instructions::set_fee::handler(&mut b, fee);
        assert_eq!(ra, rb);
        assert_eq!(a, b);
    }
}

#[test]
fn fee_set_after_initialize_is_what_loans_see() {
    let mut ctx = blank();
    assert_eq!(initialize(&mut ctx, id(2), 50), Ok(()));
    let mut update = SetFee { authority: id(2), protocol: ctx.protocol };
    assert_eq!(set_fee(&mut update, 75), Ok(()));
    assert_eq!(update.protocol.data, Protocol { authority: id(2), fee: 75 });
}
