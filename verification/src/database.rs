//! How Discord ids are stored in the database, whose integers are signed.

use vstd::prelude::*;

verus! {

/// The database integer that stands for the Discord id `discord`: the same
/// 64 bits, read as signed.
pub fn discord_to_sql(discord: u64) -> (r: i64)
    ensures
        r == discord as i64,
{
    discord as i64
}

/// The Discord id that the database integer `stored` stands for: the same
/// 64 bits, read as unsigned.
pub fn discord_from_sql(stored: i64) -> (r: u64)
    ensures
        r == stored as u64,
{
    stored as u64
}

/// Every Discord id reads back from the database as it was written.
pub proof fn stored_id_reads_back(discord: u64)
    ensures
        (discord as i64) as u64 == discord,
{
    assert((discord as i64) as u64 == discord) by (bit_vector);
}

/// Every stored integer is written back as it was read.
pub proof fn read_id_stores_back(stored: i64)
    ensures
        (stored as u64) as i64 == stored,
{
    assert((stored as u64) as i64 == stored) by (bit_vector);
}

} // verus!
