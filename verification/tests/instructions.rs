use bl_svm::errors::HTLCError;
use bl_svm::events::{HTLCCancelled, HTLCCreated, HTLCWithdrawn};
use bl_svm::funds::{Lock, Release};
use bl_svm::instructions::{Cancel, CreateHTLC, CreateHTLCParams, WithdrawToDestination};
use bl_svm::pubkey::Pubkey;
use bl_svm::state::HTLC;

const PREIMAGE: [u8; 32] = [7u8; 32];

const HASHLOCK: [u8; 32] = [
    0x4b, 0xb0, 0x6f, 0x8e, 0x4e, 0x3a, 0x77, 0x15, 0xd2, 0x01, 0xd5, 0x73, 0xd0, 0xaa, 0x42, 0x37,
    0x62, 0xe5, 0x5d, 0xab, 0xd6, 0x1a, 0x2c, 0x02, 0x27, 0x8f, 0xa5, 0x6c, 0xc6, 0xd2, 0x94, 0xe0,
];

fn key(byte: u8) -> Pubkey {
    Pubkey::new_from_array([byte; 32])
}

fn resolver() -> Pubkey {
    key(1)
}

fn stranger() -> Pubkey {
    key(2)
}

fn mint() -> Pubkey {
    key(3)
}

fn account() -> Pubkey {
    key(4)
}

fn params() -> CreateHTLCParams {
    CreateHTLCParams {
        htlc_id: [9u8; 32],
        dst_address: [0xaa; 20],
        dst_token: [0xbb; 20],
        amount: 1_000_000,
        safety_deposit: 5_000,
        hashlock: HASHLOCK,
        finality_deadline: 100,
        resolver_deadline: 200,
        public_deadline: 300,
        cancellation_deadline: 400,
    }
}

fn creation() -> CreateHTLC {
    CreateHTLC {
        resolver: resolver(),
        htlc_account: account(),
        htlc: HTLC::default(),
        bump: 253,
        token_mint: mint(),
    }
}

fn open_record() -> HTLC {
    HTLC {
        resolver: resolver(),
        src_address: resolver(),
        dst_address: [0xaa; 20],
        src_token: mint(),
        dst_token: [0xbb; 20],
        amount: 1_000_000,
        safety_deposit: 5_000,
        hashlock: HASHLOCK,
        htlc_id: [9u8; 32],
        finality_deadline: 100,
        resolver_deadline: 200,
        public_deadline: 300,
        cancellation_deadline: 400,
        withdrawn: false,
        cancelled: false,
        created_at: 42,
        bump: 253,
    }
}

fn withdrawal(executor: Pubkey) -> WithdrawToDestination {
    WithdrawToDestination { executor, htlc_account: account(), htlc: open_record() }
}

fn cancellation(executor: Pubkey) -> Cancel {
    Cancel { executor, htlc_account: account(), htlc: open_record(), src_address: resolver() }
}

fn create(ctx: &mut CreateHTLC, params: CreateHTLCParams, now: i64) -> Result<(Lock, HTLCCreated), HTLCError> {
    bl_svm::instructions::create_htlc::handler(ctx, params, now)
}

fn withdraw(
    ctx: &mut WithdrawToDestination,
    preimage: [u8; 32],
    now: i64,
) -> Result<(Release, HTLCWithdrawn), HTLCError> {
    bl_svm::instructions::withdraw::handler(ctx, preimage, now)
}

fn cancel(ctx: &mut Cancel, now: i64) -> Result<(Release, HTLCCancelled), HTLCError> {
    bl_svm::instructions::cancel::handler(ctx, now)
}

#[test]
fn create_fills_the_record_from_the_parameters() {
    let mut ctx = creation();
    let (lock, event) = create(&mut ctx, params(), 42).unwrap();
    assert_eq!(ctx.htlc, open_record());
    assert_eq!(ctx.resolver, resolver());
    assert_eq!(ctx.htlc_account, account());
    assert_eq!(ctx.token_mint, mint());
    assert_eq!(ctx.bump, 253);
    assert_eq!(
        lock,
        Lock { payer: resolver(), token: mint(), principal: 1_000_000, safety_deposit: 5_000 }
    );
    assert_eq!(
        event,
        HTLCCreated {
            htlc_account: account(),
            htlc_id: [9u8; 32],
            resolver: resolver(),
            dst_address: [0xaa; 20],
            amount: 1_000_000,
            hashlock: HASHLOCK,
            finality_deadline: 100,
        }
    );
}

#[test]
fn create_sets_the_resolver_as_source_and_clears_the_flags() {
    let mut ctx = creation();
    ctx.htlc.withdrawn = true;
    ctx.htlc.cancelled = true;
    create(&mut ctx, params(), -7).unwrap();
    assert_eq!(ctx.htlc.src_address, resolver());
    assert_eq!(ctx.htlc.resolver, resolver());
    assert!(!ctx.htlc.withdrawn);
    assert!(!ctx.htlc.cancelled);
    assert_eq!(ctx.htlc.created_at, -7);
}

#[test]
fn create_rejects_zero_amount() {
    let mut ctx = creation();
    let before = ctx;
    let result = create(&mut ctx, CreateHTLCParams { amount: 0, ..params() }, 42);
    assert_eq!(result, Err(HTLCError::InvalidAmount));
    assert_eq!(ctx, before);
}

#[test]
fn create_rejects_zero_safety_deposit() {
    let mut ctx = creation();
    let before = ctx;
    let result = create(&mut ctx, CreateHTLCParams { safety_deposit: 0, ..params() }, 42);
    assert_eq!(result, Err(HTLCError::InvalidSafetyDeposit));
    assert_eq!(ctx, before);
}

#[test]
fn create_rejects_null_token() {
    let mut ctx = CreateHTLC { token_mint: Pubkey::default(), ..creation() };
    let before = ctx;
    assert_eq!(create(&mut ctx, params(), 42), Err(HTLCError::InvalidTokenMint));
    assert_eq!(ctx, before);
}

#[test]
fn create_rejects_zero_destination_address() {
    let mut ctx = creation();
    let result = create(&mut ctx, CreateHTLCParams { dst_address: [0u8; 20], ..params() }, 42);
    assert_eq!(result, Err(HTLCError::InvalidDestination));
}

#[test]
fn create_rejects_zero_destination_token() {
    let mut ctx = creation();
    let result = create(&mut ctx, CreateHTLCParams { dst_token: [0u8; 20], ..params() }, 42);
    assert_eq!(result, Err(HTLCError::InvalidDestination));
}

#[test]
fn create_accepts_destination_with_a_single_set_byte() {
    let mut address = [0u8; 20];
    address[19] = 1;
    let mut token = [0u8; 20];
    token[0] = 1;
    let mut ctx = creation();
    let request = CreateHTLCParams { dst_address: address, dst_token: token, ..params() };
    assert!(create(&mut ctx, request, 42).is_ok());
    assert_eq!(ctx.htlc.dst_address, address);
    assert_eq!(ctx.htlc.dst_token, token);
}

#[test]
fn create_rejects_resolver_deadline_not_after_finality() {
    let mut ctx = creation();
    let before = ctx;
    let equal = CreateHTLCParams { resolver_deadline: 100, ..params() };
    assert_eq!(create(&mut ctx, equal, 42), Err(HTLCError::InvalidTimelockOrder));
    let earlier = CreateHTLCParams { resolver_deadline: 99, ..params() };
    assert_eq!(create(&mut ctx, earlier, 42), Err(HTLCError::InvalidTimelockOrder));
    assert_eq!(ctx, before);
}

#[test]
fn create_rejects_equal_later_timelocks() {
    let mut ctx = creation();
    let public = CreateHTLCParams { public_deadline: 200, ..params() };
    assert_eq!(create(&mut ctx, public, 42), Err(HTLCError::InvalidTimelockOrder));
    let cancellation = CreateHTLCParams { cancellation_deadline: 300, ..params() };
    assert_eq!(create(&mut ctx, cancellation, 42), Err(HTLCError::InvalidTimelockOrder));
}

#[test]
fn create_accepts_timelocks_one_apart() {
    let mut ctx = creation();
    let tight = CreateHTLCParams {
        finality_deadline: i64::MAX - 3,
        resolver_deadline: i64::MAX - 2,
        public_deadline: i64::MAX - 1,
        cancellation_deadline: i64::MAX,
        ..params()
    };
    assert!(create(&mut ctx, tight, 42).is_ok());
}

#[test]
fn create_reports_the_first_broken_rule() {
    let mut ctx = CreateHTLC { token_mint: Pubkey::default(), ..creation() };
    let all_wrong = CreateHTLCParams {
        amount: 0,
        safety_deposit: 0,
        dst_address: [0u8; 20],
        resolver_deadline: 0,
        ..params()
    };
    assert_eq!(create(&mut ctx, all_wrong, 42), Err(HTLCError::InvalidAmount));
    let no_deposit = CreateHTLCParams { amount: 1, ..all_wrong };
    assert_eq!(create(&mut ctx, no_deposit, 42), Err(HTLCError::InvalidSafetyDeposit));
    let no_token = CreateHTLCParams { safety_deposit: 1, ..no_deposit };
    assert_eq!(create(&mut ctx, no_token, 42), Err(HTLCError::InvalidTokenMint));
    ctx.token_mint = mint();
    assert_eq!(create(&mut ctx, no_token, 42), Err(HTLCError::InvalidDestination));
    let bad_times = CreateHTLCParams { dst_address: [1u8; 20], ..no_token };
    assert_eq!(create(&mut ctx, bad_times, 42), Err(HTLCError::InvalidTimelockOrder));
}

#[test]
fn validate_agrees_with_create() {
    assert_eq!(params().validate(&mint()), Ok(()));
    assert_eq!(params().validate(&Pubkey::default()), Err(HTLCError::InvalidTokenMint));
    let unordered = CreateHTLCParams { public_deadline: 500, ..params() };
    assert_eq!(unordered.validate(&mint()), Err(HTLCError::InvalidTimelockOrder));
}

#[test]
fn withdraw_in_resolver_period_is_for_the_resolver_only() {
    let mut by_stranger = withdrawal(stranger());
    let before = by_stranger;
    assert_eq!(withdraw(&mut by_stranger, PREIMAGE, 150), Err(HTLCError::WithdrawalNotAllowed));
    assert_eq!(by_stranger, before);

    let mut by_resolver = withdrawal(resolver());
    let (release, event) = withdraw(&mut by_resolver, PREIMAGE, 150).unwrap();
    assert!(by_resolver.htlc.withdrawn);
    assert!(!by_resolver.htlc.cancelled);
    assert_eq!(by_resolver.htlc, HTLC { withdrawn: true, ..open_record() });
    assert_eq!(
        release,
        Release {
            token: mint(),
            principal: 1_000_000,
            principal_to: resolver(),
            safety_deposit: 5_000,
            safety_deposit_to: resolver(),
        }
    );
    assert_eq!(
        event,
        HTLCWithdrawn {
            htlc_account: account(),
            preimage: PREIMAGE,
            executor: resolver(),
            destination: [0xaa; 20],
        }
    );
}

#[test]
fn withdraw_in_public_period_is_for_anyone_with_the_preimage() {
    let mut ctx = withdrawal(stranger());
    let (release, event) = withdraw(&mut ctx, PREIMAGE, 250).unwrap();
    assert!(ctx.htlc.withdrawn);
    assert_eq!(release.principal, 1_000_000);
    assert_eq!(release.principal_to, stranger());
    assert_eq!(release.safety_deposit, 5_000);
    assert_eq!(release.safety_deposit_to, stranger());
    assert_eq!(event.executor, stranger());

    let mut by_resolver = withdrawal(resolver());
    assert!(withdraw(&mut by_resolver, PREIMAGE, 250).is_ok());
}

#[test]
fn withdraw_before_finality_is_refused_for_everyone() {
    let mut by_resolver = withdrawal(resolver());
    assert_eq!(withdraw(&mut by_resolver, PREIMAGE, 50), Err(HTLCError::WithdrawalNotAllowed));
    let mut by_stranger = withdrawal(stranger());
    assert_eq!(withdraw(&mut by_stranger, PREIMAGE, 99), Err(HTLCError::WithdrawalNotAllowed));
    assert!(!by_resolver.htlc.withdrawn);
}

#[test]
fn withdraw_after_public_deadline_is_refused_for_everyone() {
    let mut by_resolver = withdrawal(resolver());
    assert_eq!(withdraw(&mut by_resolver, PREIMAGE, 350), Err(HTLCError::WithdrawalNotAllowed));
    let mut by_stranger = withdrawal(stranger());
    assert_eq!(withdraw(&mut by_stranger, PREIMAGE, 450), Err(HTLCError::WithdrawalNotAllowed));
}

#[test]
fn withdraw_at_the_finality_deadline_is_legal_for_the_resolver() {
    let mut ctx = withdrawal(resolver());
    assert!(withdraw(&mut ctx, PREIMAGE, 100).is_ok());
    let mut early = withdrawal(resolver());
    assert_eq!(withdraw(&mut early, PREIMAGE, 99), Err(HTLCError::WithdrawalNotAllowed));
    let mut other = withdrawal(stranger());
    assert_eq!(withdraw(&mut other, PREIMAGE, 100), Err(HTLCError::WithdrawalNotAllowed));
}

#[test]
fn withdraw_at_the_resolver_deadline_is_legal_for_anyone() {
    let mut ctx = withdrawal(stranger());
    assert!(withdraw(&mut ctx, PREIMAGE, 200).is_ok());
    let mut before = withdrawal(stranger());
    assert_eq!(withdraw(&mut before, PREIMAGE, 199), Err(HTLCError::WithdrawalNotAllowed));
}

#[test]
fn withdraw_at_the_public_deadline_is_no_longer_legal() {
    let mut ctx = withdrawal(resolver());
    assert_eq!(withdraw(&mut ctx, PREIMAGE, 300), Err(HTLCError::WithdrawalNotAllowed));
    let mut last = withdrawal(stranger());
    assert!(withdraw(&mut last, PREIMAGE, 299).is_ok());
}

#[test]
fn withdraw_with_wrong_preimage_never_succeeds() {
    for now in [i64::MIN, 0, 99, 100, 150, 199, 200, 250, 299, 300, 350, 400, 450, i64::MAX] {
        for executor in [resolver(), stranger()] {
            let mut ctx = withdrawal(executor);
            let before = ctx;
            assert_eq!(withdraw(&mut ctx, [8u8; 32], now), Err(HTLCError::InvalidPreimage));
            assert_eq!(ctx, before);
        }
    }
}

#[test]
fn withdraw_does_not_take_the_hashlock_itself_as_preimage() {
    let mut ctx = withdrawal(resolver());
    assert_eq!(withdraw(&mut ctx, HASHLOCK, 150), Err(HTLCError::InvalidPreimage));
    let mut plain = withdrawal(resolver());
    plain.htlc.hashlock = PREIMAGE;
    assert_eq!(withdraw(&mut plain, PREIMAGE, 150), Err(HTLCError::InvalidPreimage));
}

#[test]
fn withdraw_checks_the_preimage_before_the_time_window() {
    let mut ctx = withdrawal(stranger());
    assert_eq!(withdraw(&mut ctx, [0u8; 32], 50), Err(HTLCError::InvalidPreimage));
    assert_eq!(withdraw(&mut ctx, [0u8; 32], 350), Err(HTLCError::InvalidPreimage));
}

#[test]
fn withdraw_twice_fails_with_already_withdrawn() {
    let mut ctx = withdrawal(resolver());
    withdraw(&mut ctx, PREIMAGE, 150).unwrap();
    let done = ctx;
    for now in [0, 150, 250, 350, 450] {
        assert_eq!(withdraw(&mut ctx, PREIMAGE, now), Err(HTLCError::AlreadyWithdrawn));
        assert_eq!(withdraw(&mut ctx, [8u8; 32], now), Err(HTLCError::AlreadyWithdrawn));
    }
    assert_eq!(ctx, done);
}

#[test]
fn withdraw_after_cancel_fails_with_already_cancelled() {
    let mut ctx = withdrawal(resolver());
    ctx.htlc.cancelled = true;
    let before = ctx;
    assert_eq!(withdraw(&mut ctx, PREIMAGE, 150), Err(HTLCError::AlreadyCancelled));
    assert_eq!(withdraw(&mut ctx, PREIMAGE, 250), Err(HTLCError::AlreadyCancelled));
    assert_eq!(ctx, before);
}

#[test]
fn withdraw_with_digest_takes_the_digest_as_given() {
    let mut ctx = withdrawal(stranger());
    ctx.htlc.hashlock = [0x11; 32];
    let result = bl_svm::instructions::withdraw::withdraw_with_digest(
        &mut ctx,
        [0x22; 32],
        [0x11; 32],
        250,
    );
    let (release, event) = result.unwrap();
    assert!(ctx.htlc.withdrawn);
    assert_eq!(release.principal, 1_000_000);
    assert_eq!(event.preimage, [0x22; 32]);

    let mut wrong = withdrawal(stranger());
    wrong.htlc.hashlock = [0x11; 32];
    let refused = bl_svm::instructions::withdraw::withdraw_with_digest(
        &mut wrong,
        [0x11; 32],
        [0x22; 32],
        250,
    );
    assert_eq!(refused, Err(HTLCError::InvalidPreimage));
}

#[test]
fn cancel_before_the_deadline_is_refused() {
    for now in [i64::MIN, 0, 150, 250, 350, 399] {
        let mut ctx = cancellation(stranger());
        let before = ctx;
        assert_eq!(cancel(&mut ctx, now), Err(HTLCError::CancellationNotAllowed));
        assert_eq!(ctx, before);
    }
}

#[test]
fn cancel_from_the_deadline_on_succeeds_for_any_caller() {
    for executor in [resolver(), stranger(), key(77)] {
        for now in [400, 450, i64::MAX] {
            let mut ctx = cancellation(executor);
            let (release, event) = cancel(&mut ctx, now).unwrap();
            assert_eq!(ctx.htlc, HTLC { cancelled: true, ..open_record() });
            assert_eq!(
                release,
                Release {
                    token: mint(),
                    principal: 1_000_000,
                    principal_to: resolver(),
                    safety_deposit: 5_000,
                    safety_deposit_to: executor,
                }
            );
            assert_eq!(event, HTLCCancelled { htlc_account: account(), executor });
        }
    }
}

#[test]
fn cancel_with_another_refund_target_is_refused() {
    let mut ctx = Cancel { src_address: stranger(), ..cancellation(stranger()) };
    let before = ctx;
    assert_eq!(cancel(&mut ctx, 450), Err(HTLCError::InvalidDestination));
    assert_eq!(cancel(&mut ctx, 0), Err(HTLCError::InvalidDestination));
    assert_eq!(ctx, before);
}

#[test]
fn cancel_checks_the_refund_target_before_the_flags() {
    let mut ctx = Cancel { src_address: stranger(), ..cancellation(stranger()) };
    ctx.htlc.withdrawn = true;
    assert_eq!(cancel(&mut ctx, 450), Err(HTLCError::InvalidDestination));
}

#[test]
fn cancel_twice_fails_with_already_cancelled() {
    let mut ctx = cancellation(stranger());
    cancel(&mut ctx, 450).unwrap();
    let done = ctx;
    for now in [0, 399, 400, 450, 1_000] {
        assert_eq!(cancel(&mut ctx, now), Err(HTLCError::AlreadyCancelled));
    }
    assert_eq!(ctx, done);
}

#[test]
fn cancel_after_withdraw_fails_with_already_withdrawn() {
    let mut ctx = cancellation(stranger());
    ctx.htlc.withdrawn = true;
    let before = ctx;
    assert_eq!(cancel(&mut ctx, 450), Err(HTLCError::AlreadyWithdrawn));
    assert_eq!(cancel(&mut ctx, 0), Err(HTLCError::AlreadyWithdrawn));
    assert_eq!(ctx, before);
}

#[test]
fn at_350_only_cancel_remains_and_it_is_too_early() {
    let mut by_resolver = withdrawal(resolver());
    assert_eq!(withdraw(&mut by_resolver, PREIMAGE, 350), Err(HTLCError::WithdrawalNotAllowed));
    let mut ctx = cancellation(resolver());
    assert_eq!(cancel(&mut ctx, 350), Err(HTLCError::CancellationNotAllowed));
    assert!(cancel(&mut ctx, 400).is_ok());
}
