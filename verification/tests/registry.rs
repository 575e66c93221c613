use rendezvous::registry::{RegisterOutcome, RoomRegistry};
use rendezvous::token::{RoomToken, TokenAccumulator, ROOM_TOKEN_LEN};

fn token_of_byte(fill: u8) -> RoomToken {
    RoomToken::from_bytes(vec![fill; ROOM_TOKEN_LEN]).expect("64 bytes form a token")
}

#[test]
fn two_registrations_pair_exactly_once() {
    let mut registry: RoomRegistry<u32> = RoomRegistry::new();
    let first = registry.register_or_pair(token_of_byte(7), 100);
    let second = registry.register_or_pair(token_of_byte(7), 200);
    assert!(matches!(first, RegisterOutcome::Waiting));
    match second {
        RegisterOutcome::Paired { registering, waiting } => {
            assert_eq!(registering, 200);
            assert_eq!(waiting, 100);
        }
        RegisterOutcome::Waiting => panic!("second arrival must pair"),
    }
    assert_eq!(registry.waiting_count(), 0);
}

#[test]
fn first_arrival_waits_alone() {
    let mut registry: RoomRegistry<u32> = RoomRegistry::new();
    let outcome = registry.register_or_pair(token_of_byte(1), 41);
    assert!(matches!(outcome, RegisterOutcome::Waiting));
    assert_eq!(registry.waiting_count(), 1);
}

#[test]
fn distinct_tokens_wait_independently() {
    let mut registry: RoomRegistry<u32> = RoomRegistry::new();
    assert!(matches!(
        registry.register_or_pair(token_of_byte(1), 1),
        RegisterOutcome::Waiting
    ));
    assert!(matches!(
        registry.register_or_pair(token_of_byte(2), 2),
        RegisterOutcome::Waiting
    ));
    assert_eq!(registry.waiting_count(), 2);
    match registry.register_or_pair(token_of_byte(2), 3) {
        RegisterOutcome::Paired { registering, waiting } => {
            assert_eq!(registering, 3);
            assert_eq!(waiting, 2);
        }
        RegisterOutcome::Waiting => panic!("a peer was waiting for this token"),
    }
    assert_eq!(registry.waiting_count(), 1);
}

#[test]
fn room_pairs_again_after_clearing() {
    let mut registry: RoomRegistry<u32> = RoomRegistry::new();
    registry.register_or_pair(token_of_byte(9), 1);
    registry.register_or_pair(token_of_byte(9), 2);
    let third = registry.register_or_pair(token_of_byte(9), 3);
    assert!(matches!(third, RegisterOutcome::Waiting));
    assert_eq!(registry.waiting_count(), 1);
}

#[test]
fn token_accumulator_collects_across_reads() {
    let mut acc = TokenAccumulator::new();
    assert!(!acc.is_complete());
    let consumed = acc.absorb(&vec![5u8; 40]);
    assert_eq!(consumed, 40);
    assert!(!acc.is_complete());
    let consumed = acc.absorb(&vec![6u8; 30]);
    assert_eq!(consumed, 24);
    assert!(acc.is_complete());
    let consumed = acc.absorb(&vec![7u8; 8]);
    assert_eq!(consumed, 0);
    let token = acc.into_token();
    let mut expected = vec![5u8; 40];
    expected.extend(vec![6u8; 24]);
    assert_eq!(token.as_bytes(), &expected);
}

#[test]
fn token_rejects_wrong_width() {
    assert!(RoomToken::from_bytes(vec![0u8; 63]).is_none());
    assert!(RoomToken::from_bytes(vec![0u8; 65]).is_none());
    assert!(RoomToken::from_bytes(vec![0u8; 64]).is_some());
}

#[test]
fn token_equality_is_byte_exact() {
    let a = token_of_byte(3);
    let b = token_of_byte(3);
    let c = token_of_byte(4);
    assert!(a.eq_token(&b));
    assert!(!a.eq_token(&c));
}
