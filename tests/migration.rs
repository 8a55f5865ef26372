use hodlwarz_combat::{lamports_to_fund, migrate_player, CombatError};

const TAG: [u8; 8] = [56, 3, 60, 86, 174, 16, 244, 195];

fn old_record(len: usize) -> Vec<u8> {
    let mut data = TAG.to_vec();
    let mut b = 1u8;
    while data.len() < len {
        data.push(b);
        b = b.wrapping_add(1).max(1);
    }
    data
}

#[test]
fn grows_old_record_with_zeros() {
    let before = old_record(82);
    let mut data = before.clone();
    assert_eq!(migrate_player(&mut data), Ok(()));
    assert_eq!(data.len(), 108);
    assert_eq!(&data[..82], &before[..]);
    assert!(data[82..].iter().all(|b| *b == 0));
}

#[test]
fn current_length_is_left_alone() {
    let before = old_record(108);
    let mut data = before.clone();
    assert_eq!(migrate_player(&mut data), Ok(()));
    assert_eq!(data, before);
}

#[test]
fn longer_record_refused() {
    let before = old_record(109);
    let mut data = before.clone();
    assert_eq!(migrate_player(&mut data), Err(CombatError::InvalidMigration));
    assert_eq!(data, before);
}

#[test]
fn wrong_tag_refused() {
    let mut data = old_record(82);
    data[3] = 0;
    let before = data.clone();
    assert_eq!(migrate_player(&mut data), Err(CombatError::InvalidMigration));
    assert_eq!(data, before);
    let mut short = vec![56u8, 3, 60];
    assert_eq!(migrate_player(&mut short), Err(CombatError::InvalidMigration));
    assert_eq!(short.len(), 3);
}

#[test]
fn funding_difference() {
    assert_eq!(lamports_to_fund(1000, 400), 600);
    assert_eq!(lamports_to_fund(400, 1000), 0);
    assert_eq!(lamports_to_fund(5, 5), 0);
}
