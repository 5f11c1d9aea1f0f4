use vstd::prelude::*;

use crate::domain::Instruction;

verus! {

/// The shard that handles `instruction`, among `shard_count` shards: chosen
/// by client id alone, so every instruction of one client goes to the same
/// shard, in order.
pub fn shard_index(instruction: &Instruction, shard_count: usize) -> (shard: usize)
    requires
        shard_count > 0,
    ensures
        shard == instruction.client() as int % shard_count as int,
        shard < shard_count,
{
    let client_id = instruction.client_id();
    (client_id as usize) % shard_count
}

} // verus!
