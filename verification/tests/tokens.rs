use chess_session::error::GameError;
use chess_session::token::{encode_secret, hash_token, same_bytes, Actor, Seat};

fn hex(bytes: &[u8]) -> String {
    let mut out = String::new();
    for b in bytes {
        out.push_str(&format!("{:02x}", b));
    }
    out
}

#[test]
fn hash_token_is_sha256_of_the_text() {
    assert_eq!(
        hex(&hash_token("abc")),
        "ba7816bf8f01cfea414140de5dae2223b00361a396177a9cb410ff61f20015ad"
    );
    assert_eq!(
        hex(&hash_token("")),
        "e3b0c44298fc1c149afbf4c8996fb92427ae41e4649b934ca495991b7852b855"
    );
}

#[test]
fn hash_token_is_deterministic() {
    assert_eq!(hash_token("secret"), hash_token("secret"));
    assert_ne!(hash_token("secret"), hash_token("Secret"));
}

#[test]
fn encode_secret_is_url_safe_base64_without_padding() {
    assert_eq!(encode_secret(b"hello"), "aGVsbG8");
    assert_eq!(encode_secret(&[0xfb, 0xff]), "-_8");
    assert_eq!(encode_secret(&[]), "");
    assert_eq!(encode_secret(&[0u8; 32]).len(), 43);
}

#[test]
fn same_bytes_compares_contents() {
    assert!(same_bytes(&[1, 2, 3], &[1, 2, 3]));
    assert!(!same_bytes(&[1, 2, 3], &[1, 2, 4]));
    assert!(!same_bytes(&[1, 2, 3], &[1, 2]));
    assert!(same_bytes(&[], &[]));
}

#[test]
fn actors_compare_by_identity() {
    let a = Actor::new(vec![1, 2]);
    assert!(a.same(&Actor::new(vec![1, 2])));
    assert!(!a.same(&Actor::new(vec![2, 1])));
    assert!(a.same(&a.duplicate()));
}

#[test]
fn claim_with_the_right_secret_takes_the_seat() {
    let mut seat = Seat::unclaimed(hash_token("open sesame"));
    let alice = Actor::new(vec![7]);
    assert!(seat.occupant().is_none());
    assert!(seat.claim("open sesame", alice.duplicate()).is_ok());
    assert!(seat.is_held_by(&alice));
    assert!(seat.occupant().unwrap().same(&alice));
    assert!(matches!(seat, Seat::Claimed { .. }));
}

#[test]
fn claim_with_a_wrong_secret_is_an_invalid_token() {
    let hash = hash_token("open sesame");
    let mut seat = Seat::unclaimed(hash);
    assert_eq!(
        seat.claim("open barley", Actor::new(vec![7])),
        Err(GameError::InvalidToken)
    );
    assert!(matches!(seat, Seat::Unclaimed { hash: h } if h == hash));
}

#[test]
fn claim_on_a_taken_seat_is_seat_taken() {
    let mut seat = Seat::unclaimed(hash_token("open sesame"));
    let alice = Actor::new(vec![7]);
    let bob = Actor::new(vec![8]);
    assert!(seat.claim("open sesame", alice.duplicate()).is_ok());
    assert_eq!(seat.claim("open sesame", bob.duplicate()), Err(GameError::SeatTaken));
    assert_eq!(seat.claim("anything", bob.duplicate()), Err(GameError::SeatTaken));
    assert!(seat.is_held_by(&alice));
    assert!(!seat.is_held_by(&bob));
}

#[test]
fn error_messages() {
    assert_eq!(GameError::NotFound.message(), "No such game");
    assert_eq!(GameError::GameFinished.message(), "Game finished");
    assert_eq!(GameError::NotSeated.message(), "You are not seated");
    assert_eq!(GameError::IllegalMove.message(), "Illegal move");
    assert_eq!(
        GameError::InvalidToken.message(),
        "Invalid or already-used token"
    );
}

#[test]
fn a_copied_seat_is_the_same_seat() {
    let open = Seat::unclaimed(hash_token("s"));
    assert!(matches!(open.duplicate(), Seat::Unclaimed { hash } if hash == hash_token("s")));
    let taken = Seat::Claimed { actor: Actor::new(vec![3, 4]) };
    assert!(taken.duplicate().is_held_by(&Actor::new(vec![3, 4])));
}
