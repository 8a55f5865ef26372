use vstd::prelude::*;
use crate::error::CombatError;

verus! {

/// Byte length of a player record in its current layout: an 8-byte type tag, the
/// 32-byte wallet, the stats, 25 talent ranks and the build flag.
pub const PLAYER_RECORD_LEN: usize = 8 + 32 + 2 + 2 + 2 + 8 + 8 + 8 + 1 + 1 + 1 + 8 + 1 + 25 + 1;

/// Offset of the first talent rank in a stored record.
pub const TALENTS_OFFSET: usize = 8 + 32 + 2 + 2 + 2 + 8 + 8 + 8 + 1 + 1 + 1 + 8 + 1;

/// Offset of the build flag in a stored record.
pub const MANUAL_BUILD_OFFSET: usize = TALENTS_OFFSET + 25;

/// Length of the type tag that opens every stored player record.
pub const TAG_LEN: usize = 8;

/// The type tag of a stored player record.
pub open spec fn player_tag() -> Seq<u8> {
    seq![56, 3, 60, 86, 174, 16, 244, 195]
}

/// `data` opens with the player record's type tag.
pub open spec fn has_player_tag(data: Seq<u8>) -> bool {
    data.len() >= TAG_LEN && data.subrange(0, TAG_LEN as int) == player_tag()
}

/// `data` grown to the current record length with zero bytes.
pub open spec fn grown(data: Seq<u8>) -> Seq<u8> {
    data + Seq::new((PLAYER_RECORD_LEN - data.len()) as nat, |i: int| 0u8)
}

/// Grows a stored player record of an older, shorter layout to the current length,
/// appending zero bytes. A record already at the current length is left as it is; a
/// longer one, or one that does not open with the player tag, is refused unchanged.
pub fn migrate_player(data: &mut Vec<u8>) -> (r: Result<(), CombatError>)
    ensures
        old(data).len() == PLAYER_RECORD_LEN ==> r is Ok && final(data)@ == old(data)@,
        old(data).len() > PLAYER_RECORD_LEN ==> r == Err::<(), CombatError>(
            CombatError::InvalidMigration,
        ) && final(data)@ == old(data)@,
        old(data).len() < PLAYER_RECORD_LEN && !has_player_tag(old(data)@) ==> r == Err::<
            (),
            CombatError,
        >(CombatError::InvalidMigration) && final(data)@ == old(data)@,
        old(data).len() < PLAYER_RECORD_LEN && has_player_tag(old(data)@) ==> r is Ok
            && final(data)@ == grown(old(data)@),
{
    let current_len = data.len();
    if current_len == PLAYER_RECORD_LEN {
        return Ok(());
    }
    if current_len > PLAYER_RECORD_LEN {
        return Err(CombatError::InvalidMigration);
    }
    if current_len < TAG_LEN {
        return Err(CombatError::InvalidMigration);
    }
    let expected: [u8; 8] = [56, 3, 60, 86, 174, 16, 244, 195];
    let mut i: usize = 0;
    while i < TAG_LEN
        invariant
            0 <= i <= TAG_LEN,
            TAG_LEN <= data.len() < PLAYER_RECORD_LEN,
            expected@ == player_tag(),
            forall|j: int| 0 <= j < i ==> data@[j] == expected@[j],
        decreases TAG_LEN - i,
    {
        if data[i] != expected[i] {
            return Err(CombatError::InvalidMigration);
        }
        i += 1;
    }
    assert(data@.subrange(0, TAG_LEN as int) =~= player_tag());
    let ghost before = data@;
    while data.len() < PLAYER_RECORD_LEN
        invariant
            before.len() <= data.len() <= PLAYER_RECORD_LEN,
            data@.subrange(0, before.len() as int) == before,
            forall|j: int| before.len() <= j < data.len() ==> data@[j] == 0,
        decreases PLAYER_RECORD_LEN - data.len(),
    {
        data.push(0);
    }
    assert(data@ =~= grown(before));
    Ok(())
}

/// Growing a tagged record keeps every byte it had, and every byte it gains is zero: in
/// particular, a record that ended before the talent ranks comes out with every rank 0
/// and the build flag false.
pub proof fn lemma_migration_preserves_fields(data: Seq<u8>)
    requires
        data.len() < PLAYER_RECORD_LEN,
    ensures
        grown(data).len() == PLAYER_RECORD_LEN,
        grown(data).subrange(0, data.len() as int) == data,
        forall|j: int| data.len() <= j < PLAYER_RECORD_LEN ==> #[trigger] grown(data)[j] == 0,
        data.len() <= TALENTS_OFFSET ==> forall|j: int|
            TALENTS_OFFSET <= j <= MANUAL_BUILD_OFFSET ==> #[trigger] grown(data)[j] == 0,
{
    assert(grown(data).subrange(0, data.len() as int) =~= data);
}

/// Lamports that must be added to an account holding `balance` for it to hold
/// `required`.
pub fn lamports_to_fund(required: u64, balance: u64) -> (r: u64)
    ensures
        r == (if required > balance { required - balance } else { 0 }),
{
    if required > balance {
        required - balance
    } else {
        0
    }
}

} // verus!
