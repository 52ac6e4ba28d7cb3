//! The hash chain that the service keeps turning.
use solana_entry::poh::Poh;
use vstd::prelude::*;

verus! {

/// The proof-of-history chain of `solana_entry`. Its fields stay hidden.
#[verifier::external_type_specification]
#[verifier::external_body]
pub struct ExPoh(solana_entry::poh::Poh);

/// Where a hash chain stands between two ticks.
pub struct HashCount {
    /// The hashes made since the last entry.
    pub made: nat,
    /// The hashes owed until the next tick is complete. The last of them is the tick itself.
    pub remaining: nat,
}

/// Where `poh` stands (the private fields `num_hashes` and `remaining_hashes` of [`Poh`]).
pub uninterp spec fn hash_count(poh: Poh) -> HashCount;

/// The chain that `Poh::hash` makes of `poh`, with its hash value moved on, when it is asked for at
/// most `max_num_hashes` hashes.
pub uninterp spec fn hashed(poh: Poh, max_num_hashes: u64) -> Poh;

impl HashCount {
    /// How many hashes a batch of at most `max_num_hashes` makes: it stops short of the last hash
    /// that is owed, which is left to the tick.
    pub open spec fn batch_size(self, max_num_hashes: u64) -> nat {
        if max_num_hashes < self.remaining {
            max_num_hashes as nat
        } else {
            (self.remaining - 1) as nat
        }
    }

    /// Where the chain stands after such a batch.
    pub open spec fn after_batch(self, max_num_hashes: u64) -> HashCount {
        HashCount {
            made: self.made + self.batch_size(max_num_hashes),
            remaining: (self.remaining - self.batch_size(max_num_hashes)) as nat,
        }
    }

    /// Where the chain stands after `batches` such batches in a row, with nothing in between.
    pub open spec fn after_batches(self, max_num_hashes: u64, batches: nat) -> HashCount
        decreases batches,
    {
        if batches == 0 {
            self
        } else {
            self.after_batches(max_num_hashes, (batches - 1) as nat).after_batch(max_num_hashes)
        }
    }

    /// The only hash owed is the tick.
    pub open spec fn should_tick(self) -> bool {
        self.remaining == 1
    }
}

/// `Poh::hash` of `solana_entry`: extends the chain by `max_num_hashes` hashes, or by fewer where
/// that would reach the hash that belongs to the tick, and tells whether that hash is now the only
/// one owed. A chain owes at least one hash at any time: `Poh::new` asks for more than one hash
/// per tick, and neither `hash` nor `record` nor `tick` ever leaves none.
pub assume_specification[ solana_entry::poh::Poh::hash ](
    poh: &mut solana_entry::poh::Poh,
    max_num_hashes: u64,
) -> (should_tick: bool)
    ensures
        *final(poh) == hashed(*old(poh), max_num_hashes),
        hash_count(*old(poh)).remaining >= 1,
        hash_count(*final(poh)) == hash_count(*old(poh)).after_batch(max_num_hashes),
        should_tick == hash_count(*final(poh)).should_tick(),
;

/// Hashes are neither lost nor made up: what a row of batches makes, it takes off what is owed, so
/// that an entry that follows the batches completes the same number of hashes per tick. The hash of
/// the tick is never taken.
pub proof fn law_batches_keep_the_sum(start: HashCount, max_num_hashes: u64, batches: nat)
    requires
        start.remaining >= 1,
    ensures
        ({
            let end = start.after_batches(max_num_hashes, batches);
            &&& end.made + end.remaining == start.made + start.remaining
            &&& end.made >= start.made
            &&& end.remaining >= 1
            &&& end.should_tick() ==> end.made + 1 == start.made + start.remaining
        }),
    decreases batches,
{
    if batches > 0 {
        law_batches_keep_the_sum(start, max_num_hashes, (batches - 1) as nat);
    }
}

/// A tick comes due: a row of batches lowers what is owed by the size of each of them until only
/// the tick's own hash is left, which is so as soon as the batches together cover all the others,
/// and stays so.
pub proof fn law_batches_lead_to_tick(start: HashCount, max_num_hashes: u64, batches: nat)
    requires
        start.remaining >= 1,
    ensures
        start.after_batches(max_num_hashes, batches).remaining == (if batches * max_num_hashes + 1
            >= start.remaining {
            1
        } else {
            start.remaining - batches * max_num_hashes
        }),
        start.after_batches(max_num_hashes, batches).should_tick() <==> batches * max_num_hashes
            + 1 >= start.remaining,
    decreases batches,
{
    if batches == 0 {
        assert(batches * max_num_hashes == 0) by (nonlinear_arith)
            requires
                batches == 0,
        ;
    } else {
        law_batches_lead_to_tick(start, max_num_hashes, (batches - 1) as nat);
        assert(batches * max_num_hashes == (batches - 1) * max_num_hashes + max_num_hashes)
            by (nonlinear_arith)
            requires
                batches >= 1,
        ;
    }
}

} // verus!
