//! Genomes and the rule by which two of them are mixed into a third.

use vstd::prelude::*;
use crate::error::ClawDnaError;

verus! {

/// Number of genetic traits per agent.
pub const TRAIT_COUNT: usize = 8;

/// Largest value a trait may take.
pub const MAX_TRAIT_VALUE: u8 = 100;

/// A mutation moves a trait by at most this much, up or down.
pub const MUTATION_RANGE: i16 = 5;

/// The combiner reads the entropy up to offset `TRAIT_COUNT + 9`, so the
/// source must be at least this long.
pub const MIN_ENTROPY_LEN: usize = 18;

/// How far the second entropy byte of a trait is from the first.
pub const MUTATION_OFFSET: usize = 10;

/// A genome has `TRAIT_COUNT` traits, each at most `MAX_TRAIT_VALUE`.
pub open spec fn genome_valid(genome: Seq<u8>) -> bool {
    &&& genome.len() == TRAIT_COUNT
    &&& forall|i: int| 0 <= i < genome.len() ==> genome[i] <= MAX_TRAIT_VALUE
}

/// The parent's value that a trait starts from: the first parent's on an even
/// entropy byte, the second parent's on an odd one.
pub open spec fn base_trait(first: u8, second: u8, e1: u8) -> u8 {
    if e1 % 2 == 0 {
        first
    } else {
        second
    }
}

/// The signed mutation that an entropy byte stands for: its size is the byte
/// modulo `MUTATION_RANGE + 1`, its direction is up on an even byte and down
/// on an odd one.
pub open spec fn mutation(e2: u8) -> int {
    let magnitude = e2 as int % (MUTATION_RANGE + 1);
    if e2 % 2 == 0 {
        magnitude
    } else {
        -magnitude
    }
}

/// `v` brought into the range of a trait.
pub open spec fn clamp_trait(v: int) -> u8 {
    if v < 0 {
        0u8
    } else if v > MAX_TRAIT_VALUE {
        MAX_TRAIT_VALUE
    } else {
        v as u8
    }
}

/// One trait of a child, from the parents' traits and two entropy bytes.
pub open spec fn child_trait(first: u8, second: u8, e1: u8, e2: u8) -> u8 {
    clamp_trait(base_trait(first, second, e1) + mutation(e2))
}

/// The genome of the child of `parent1` and `parent2` under `entropy`. Trait
/// `i` is chosen by entropy byte `i` and mutated by entropy byte `i + 10`,
/// both counted modulo the length of the entropy.
pub open spec fn combined(parent1: Seq<u8>, parent2: Seq<u8>, entropy: Seq<u8>) -> Seq<u8> {
    Seq::new(
        TRAIT_COUNT as nat,
        |i: int|
            child_trait(
                parent1[i],
                parent2[i],
                entropy[i % entropy.len() as int],
                entropy[(i + MUTATION_OFFSET) % entropy.len() as int],
            ),
    )
}

/// Whatever the parents and the entropy, every trait of the child is in
/// range: the clamp holds at both ends.
pub proof fn law_child_in_range(parent1: Seq<u8>, parent2: Seq<u8>, entropy: Seq<u8>)
    ensures
        genome_valid(combined(parent1, parent2, entropy)),
{
}

/// A mutation never moves a trait by more than `MUTATION_RANGE`.
pub proof fn law_mutation_bounded(e2: u8)
    ensures
        -MUTATION_RANGE <= mutation(e2) <= MUTATION_RANGE,
{
}

/// A trait of the child is within `MUTATION_RANGE` of the parent's trait it
/// starts from, whenever that one is in range.
pub proof fn law_child_near_parent(first: u8, second: u8, e1: u8, e2: u8)
    requires
        first <= MAX_TRAIT_VALUE,
        second <= MAX_TRAIT_VALUE,
    ensures
        base_trait(first, second, e1) - MUTATION_RANGE <= child_trait(first, second, e1, e2) <= base_trait(
            first,
            second,
            e1,
        ) + MUTATION_RANGE,
{
}

/// Checks that every trait of `genome` is at most `MAX_TRAIT_VALUE`.
pub fn validate_genome(genome: &[u8; TRAIT_COUNT]) -> (res: Result<(), ClawDnaError>)
    ensures
        res is Ok <==> genome_valid(genome@),
        res is Err ==> res == Err::<(), ClawDnaError>(ClawDnaError::InvalidGenome),
{
    let mut i: usize = 0;
    while i < TRAIT_COUNT
        invariant
            i <= TRAIT_COUNT,
            forall|j: int| 0 <= j < i ==> genome@[j] <= MAX_TRAIT_VALUE,
        decreases TRAIT_COUNT - i,
    {
        if genome[i] > MAX_TRAIT_VALUE {
            return Err(ClawDnaError::InvalidGenome);
        }
        i = i + 1;
    }
    Ok(())
}

/// Mixes one trait: the exec form of `child_trait`.
pub fn combine_trait(first: u8, second: u8, e1: u8, e2: u8) -> (child: u8)
    ensures
        child == child_trait(first, second, e1, e2),
        child <= MAX_TRAIT_VALUE,
{
    let base_value: u8 = if e1 % 2 == 0 {
        first
    } else {
        second
    };
    let mutation_direction: i16 = if e2 % 2 == 0 {
        1i16
    } else {
        -1i16
    };
    let mutation_magnitude: i16 = (e2 % (MUTATION_RANGE as u8 + 1)) as i16;
    let mutation: i16 = mutation_direction * mutation_magnitude;
    let mutated: i16 = base_value as i16 + mutation;
    if mutated < 0 {
        0
    } else if mutated > MAX_TRAIT_VALUE as i16 {
        MAX_TRAIT_VALUE
    } else {
        mutated as u8
    }
}

/// Derives the genome of a child from those of its parents and an entropy
/// source of at least `MIN_ENTROPY_LEN` bytes. The result depends on nothing
/// but the three arguments.
pub fn combine_genomes(
    parent1: &[u8; TRAIT_COUNT],
    parent2: &[u8; TRAIT_COUNT],
    entropy: &[u8],
) -> (res: Result<[u8; TRAIT_COUNT], ClawDnaError>)
    ensures
        entropy@.len() < MIN_ENTROPY_LEN ==> res == Err::<[u8; TRAIT_COUNT], ClawDnaError>(
            ClawDnaError::EntropyTooShort,
        ),
        entropy@.len() >= MIN_ENTROPY_LEN ==> res is Ok && res->Ok_0@ == combined(
            parent1@,
            parent2@,
            entropy@,
        ),
        res is Ok ==> genome_valid(res->Ok_0@),
{
    let n: usize = entropy.len();
    if n < MIN_ENTROPY_LEN {
        return Err(ClawDnaError::EntropyTooShort);
    }
    let mut child = [0u8; TRAIT_COUNT];
    let mut i: usize = 0;
    while i < TRAIT_COUNT
        invariant
            i <= TRAIT_COUNT,
            n == entropy@.len(),
            n >= MIN_ENTROPY_LEN,
            forall|j: int|
                0 <= j < i ==> child@[j] == combined(parent1@, parent2@, entropy@)[j],
        decreases TRAIT_COUNT - i,
    {
        let entropy_byte: u8 = entropy[i % n];
        let mutation_entropy: u8 = entropy[(i + MUTATION_OFFSET) % n];
        child[i] = combine_trait(parent1[i], parent2[i], entropy_byte, mutation_entropy);
        i = i + 1;
    }
    proof {
        assert(child@ =~= combined(parent1@, parent2@, entropy@));
        law_child_in_range(parent1@, parent2@, entropy@);
    }
    Ok(child)
}

} // verus!
