use std::str::FromStr;

use final_transfer_tracker::address::{find_owner_address, find_transfer_address};
use final_transfer_tracker::pubkey::Pubkey;
use final_transfer_tracker::{check_id, id, ID_BYTES};

fn key(byte: u8) -> Pubkey {
    Pubkey::new_from_array([byte; 32])
}

fn outside(key: &Pubkey) -> anchor_lang::prelude::Pubkey {
    anchor_lang::prelude::Pubkey::new_from_array(key.to_bytes())
}

#[test]
fn program_id_is_the_declared_one() {
    let declared =
        anchor_lang::prelude::Pubkey::from_str("2K3rtnK7jN3BmFvPW4coMiF31noaXuaER6N4edNJZm7N")
            .expect("a base58 key");
    assert_eq!(id().to_bytes(), declared.to_bytes());
    assert_eq!(id().to_bytes(), ID_BYTES);
    assert!(check_id(&id()));
    assert!(!check_id(&key(0)));
}

#[test]
fn keys_compare_by_their_bytes() {
    let mut bytes = [7u8; 32];
    assert_eq!(Pubkey::new_from_array(bytes), key(7));
    bytes[31] = 8;
    assert_ne!(Pubkey::new_from_array(bytes), key(7));
    bytes[31] = 7;
    bytes[0] = 6;
    assert_ne!(Pubkey::new_from_array(bytes), key(7));
    assert_eq!(Pubkey::default(), key(0));
    assert_eq!(key(7).to_bytes(), [7u8; 32]);
}

#[test]
fn owner_address_of_the_program() {
    let expected = [
        195, 207, 71, 141, 40, 255, 250, 237, 23, 140, 81, 165, 123, 46, 157, 100, 67, 28, 142, 42,
        14, 95, 82, 196, 166, 80, 6, 28, 36, 51, 5, 174,
    ];
    assert_eq!(find_owner_address(&id()), Some(Pubkey::new_from_array(expected)));
    let (address, _) =
        anchor_lang::prelude::Pubkey::find_program_address(&[b"owner"], &outside(&id()));
    assert_eq!(address.to_bytes(), expected);
}

#[test]
fn transfer_addresses_of_the_program() {
    let abc = [
        45, 94, 65, 79, 231, 158, 210, 160, 215, 192, 2, 168, 52, 165, 151, 44, 118, 76, 85, 47,
        130, 243, 81, 211, 49, 22, 235, 22, 208, 209, 188, 80,
    ];
    let xyz = [
        188, 6, 1, 154, 255, 43, 112, 128, 118, 123, 1, 7, 17, 205, 150, 234, 66, 145, 231, 165,
        148, 86, 73, 193, 244, 135, 242, 171, 7, 104, 110, 6,
    ];
    let pqr = [
        53, 84, 165, 178, 224, 102, 154, 8, 34, 253, 212, 74, 38, 127, 22, 95, 92, 115, 198, 246,
        28, 214, 65, 1, 253, 117, 113, 78, 196, 55, 192, 115,
    ];
    assert_eq!(find_transfer_address(&id(), "a", "b", "c"), Some(Pubkey::new_from_array(abc)));
    assert_eq!(find_transfer_address(&id(), "x", "y", "z"), Some(Pubkey::new_from_array(xyz)));
    assert_eq!(find_transfer_address(&id(), "p", "q", "r"), Some(Pubkey::new_from_array(pqr)));
}

#[test]
fn transfer_address_agrees_with_the_outside_derivation() {
    for program in [id(), key(0), key(42)] {
        for (s1, s2, s3) in [("a", "b", "c"), ("", "", ""), ("sig-one", "sig-two", "sig-three"), ("é", "ü", "ß")] {
            let (address, _) = anchor_lang::prelude::Pubkey::find_program_address(
                &[b"transfer", s1.as_bytes(), s2.as_bytes(), s3.as_bytes()],
                &outside(&program),
            );
            let found = find_transfer_address(&program, s1, s2, s3);
            assert_eq!(found.map(|key| key.to_bytes()), Some(address.to_bytes()));
            assert_ne!(found, Some(program));
        }
    }
}

#[test]
fn derivation_is_repeatable_and_tells_signatures_apart() {
    let first = find_transfer_address(&id(), "a", "b", "c");
    assert_eq!(first, find_transfer_address(&id(), "a", "b", "c"));
    assert_ne!(first, find_transfer_address(&id(), "a", "b", "d"));
    assert_ne!(first, find_transfer_address(&id(), "c", "b", "a"));
    assert_ne!(first, find_transfer_address(&key(42), "a", "b", "c"));
    assert_ne!(first, find_owner_address(&id()));
    assert_ne!(find_owner_address(&id()), find_owner_address(&key(42)));
}

#[test]
fn seeds_are_hashed_end_to_end() {
    assert_eq!(find_transfer_address(&id(), "ab", "c", ""), find_transfer_address(&id(), "a", "bc", ""));
    assert_eq!(find_transfer_address(&id(), "abc", "", ""), find_transfer_address(&id(), "", "", "abc"));
}

#[test]
fn seed_longer_than_32_bytes_has_no_address() {
    let full = "k".repeat(32);
    let long = "k".repeat(33);
    assert!(find_transfer_address(&id(), &full, &full, &full).is_some());
    assert_eq!(find_transfer_address(&id(), &long, "", ""), None);
    assert_eq!(find_transfer_address(&id(), "", &long, ""), None);
    assert_eq!(find_transfer_address(&id(), "", "", &long), None);
    let wide = "é".repeat(17);
    assert_eq!(find_transfer_address(&id(), &wide, "", ""), None);
    assert!(find_transfer_address(&id(), &"é".repeat(16), "", "").is_some());
}
