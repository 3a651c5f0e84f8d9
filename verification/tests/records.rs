use bl_svm::errors::HTLCError;
use bl_svm::hashlock::digest_opens;
use bl_svm::ledger::address_of;
use bl_svm::pubkey::{bytes_equal, is_all_zero, Pubkey};
use bl_svm::state::{Phase, HTLC};

const ZEROS_DIGEST: [u8; 32] = [
    0x66, 0x68, 0x7a, 0xad, 0xf8, 0x62, 0xbd, 0x77, 0x6c, 0x8f, 0xc1, 0x8b, 0x8e, 0x9f, 0x8e, 0x20,
    0x08, 0x97, 0x14, 0x85, 0x6e, 0xe2, 0x33, 0xb3, 0x90, 0x2a, 0x59, 0x1d, 0x0d, 0x5f, 0x29, 0x25,
];

const SEVENS_DIGEST: [u8; 32] = [
    0x4b, 0xb0, 0x6f, 0x8e, 0x4e, 0x3a, 0x77, 0x15, 0xd2, 0x01, 0xd5, 0x73, 0xd0, 0xaa, 0x42, 0x37,
    0x62, 0xe5, 0x5d, 0xab, 0xd6, 0x1a, 0x2c, 0x02, 0x27, 0x8f, 0xa5, 0x6c, 0xc6, 0xd2, 0x94, 0xe0,
];

fn record(finality: i64, resolver: i64, public: i64, cancellation: i64) -> HTLC {
    HTLC {
        resolver: Pubkey::new_from_array([1u8; 32]),
        src_address: Pubkey::new_from_array([1u8; 32]),
        dst_address: [2u8; 20],
        src_token: Pubkey::new_from_array([3u8; 32]),
        dst_token: [4u8; 20],
        amount: 1_000_000,
        safety_deposit: 5_000,
        hashlock: ZEROS_DIGEST,
        htlc_id: [9u8; 32],
        finality_deadline: finality,
        resolver_deadline: resolver,
        public_deadline: public,
        cancellation_deadline: cancellation,
        withdrawn: false,
        cancelled: false,
        created_at: 50,
        bump: 254,
    }
}

#[test]
fn error_messages_are_the_documented_texts() {
    assert_eq!(HTLCError::InvalidTimelockOrder.message(), "Invalid timelock ordering");
    assert_eq!(HTLCError::InvalidAmount.message(), "Amount must be greater than zero");
    assert_eq!(HTLCError::InvalidTokenMint.message(), "Invalid token mint");
    assert_eq!(HTLCError::InvalidDestination.message(), "Invalid destination address");
    assert_eq!(HTLCError::WithdrawalNotAllowed.message(), "Withdrawal not allowed at this time");
    assert_eq!(HTLCError::CancellationNotAllowed.message(), "Cancellation not allowed yet");
    assert_eq!(HTLCError::AlreadyWithdrawn.message(), "HTLC already withdrawn");
    assert_eq!(HTLCError::AlreadyCancelled.message(), "HTLC already cancelled");
    assert_eq!(HTLCError::InvalidPreimage.message(), "Invalid preimage");
    assert_eq!(
        HTLCError::InvalidSafetyDeposit.message(),
        "Safety deposit must be greater than zero"
    );
}

#[test]
fn errors_compare_by_variant() {
    assert_eq!(HTLCError::InvalidAmount, HTLCError::InvalidAmount);
    assert_ne!(HTLCError::AlreadyWithdrawn, HTLCError::AlreadyCancelled);
}

#[test]
fn default_identity_is_all_zero() {
    let key = Pubkey::default();
    assert_eq!(key.to_bytes(), [0u8; 32]);
    assert!(key.is_default());
}

#[test]
fn identity_with_one_set_byte_is_not_default() {
    let mut bytes = [0u8; 32];
    bytes[31] = 1;
    assert!(!Pubkey::new_from_array(bytes).is_default());
    let mut first = [0u8; 32];
    first[0] = 0x80;
    assert!(!Pubkey::new_from_array(first).is_default());
}

#[test]
fn identities_compare_by_bytes() {
    let a = Pubkey::new_from_array([5u8; 32]);
    let b = Pubkey::new_from_array([5u8; 32]);
    let mut other = [5u8; 32];
    other[17] = 6;
    let c = Pubkey::new_from_array(other);
    assert!(a == b);
    assert!(a != c);
    assert_eq!(a.to_bytes(), [5u8; 32]);
}

#[test]
fn byte_arrays_compare_position_by_position() {
    assert!(bytes_equal(&[1u8, 2, 3], &[1u8, 2, 3]));
    assert!(!bytes_equal(&[1u8, 2, 3], &[1u8, 2, 4]));
    assert!(!bytes_equal(&[0u8, 2, 3], &[1u8, 2, 3]));
    let empty: [u8; 0] = [];
    assert!(bytes_equal(&empty, &empty));
}

#[test]
fn all_zero_test_finds_any_set_byte() {
    assert!(is_all_zero(&[0u8; 20]));
    let mut last = [0u8; 20];
    last[19] = 1;
    assert!(!is_all_zero(&last));
    let mut first = [0u8; 20];
    first[0] = 255;
    assert!(!is_all_zero(&first));
    let empty: [u8; 0] = [];
    assert!(is_all_zero(&empty));
}

#[test]
fn stored_record_takes_267_bytes() {
    assert_eq!(HTLC::SIZE, 267);
}

#[test]
fn default_record_is_blank_and_open() {
    let blank = HTLC::default();
    assert!(blank.resolver.is_default());
    assert!(blank.src_address.is_default());
    assert!(blank.src_token.is_default());
    assert_eq!(blank.dst_address, [0u8; 20]);
    assert_eq!(blank.dst_token, [0u8; 20]);
    assert_eq!(blank.amount, 0);
    assert_eq!(blank.safety_deposit, 0);
    assert_eq!(blank.hashlock, [0u8; 32]);
    assert_eq!(blank.htlc_id, [0u8; 32]);
    assert_eq!(blank.finality_deadline, 0);
    assert_eq!(blank.resolver_deadline, 0);
    assert_eq!(blank.public_deadline, 0);
    assert_eq!(blank.cancellation_deadline, 0);
    assert!(!blank.withdrawn);
    assert!(!blank.cancelled);
    assert_eq!(blank.created_at, 0);
    assert_eq!(blank.bump, 0);
}

#[test]
fn phases_follow_the_timelocks() {
    let htlc = record(100, 200, 300, 400);
    assert_eq!(htlc.phase(i64::MIN), Phase::Finality);
    assert_eq!(htlc.phase(0), Phase::Finality);
    assert_eq!(htlc.phase(150), Phase::ResolverExclusive);
    assert_eq!(htlc.phase(250), Phase::Public);
    assert_eq!(htlc.phase(350), Phase::Expired);
    assert_eq!(htlc.phase(450), Phase::Expired);
    assert_eq!(htlc.phase(i64::MAX), Phase::Expired);
}

#[test]
fn each_phase_starts_at_its_deadline() {
    let htlc = record(100, 200, 300, 400);
    assert_eq!(htlc.phase(99), Phase::Finality);
    assert_eq!(htlc.phase(100), Phase::ResolverExclusive);
    assert_eq!(htlc.phase(199), Phase::ResolverExclusive);
    assert_eq!(htlc.phase(200), Phase::Public);
    assert_eq!(htlc.phase(299), Phase::Public);
    assert_eq!(htlc.phase(300), Phase::Expired);
}

#[test]
fn phases_with_negative_timelocks() {
    let htlc = record(-400, -300, -200, -100);
    assert_eq!(htlc.phase(-401), Phase::Finality);
    assert_eq!(htlc.phase(-400), Phase::ResolverExclusive);
    assert_eq!(htlc.phase(-300), Phase::Public);
    assert_eq!(htlc.phase(-200), Phase::Expired);
}

#[test]
fn digest_opens_only_the_equal_hashlock() {
    assert!(digest_opens(&ZEROS_DIGEST, &ZEROS_DIGEST));
    assert!(!digest_opens(&ZEROS_DIGEST, &SEVENS_DIGEST));
    let mut near = ZEROS_DIGEST;
    near[31] ^= 1;
    assert!(!digest_opens(&ZEROS_DIGEST, &near));
}

#[test]
fn record_address_is_the_identifier() {
    let id = [9u8; 32];
    assert_eq!(address_of(&id).to_bytes(), id);
    let mut other = id;
    other[0] = 8;
    assert!(address_of(&id) != address_of(&other));
}
