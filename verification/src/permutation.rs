use vstd::prelude::*;

verus! {

/// Number of distinct table values, and the period of the lattice.
pub const PERIOD: usize = 256;

/// Length of the table: the permutation, then the permutation once more.
pub const TABLE_LEN: usize = 512;

/// Multiplier of the generator that drives the shuffle.
pub const MULTIPLIER: u64 = 6364136223846793005;

/// Increment of the generator that drives the shuffle.
pub const INCREMENT: u64 = 1442695040888963407;

/// `p` holds every value from 0 to 255 exactly once.
pub open spec fn is_permutation(p: Seq<u8>) -> bool {
    &&& p.len() == 256
    &&& p.no_duplicates()
    &&& forall|v: u8| #[trigger] p.contains(v)
}

/// `t` is a permutation of 0..=255 followed by a copy of itself.
pub open spec fn is_doubled_permutation(t: Seq<u8>) -> bool {
    &&& t.len() == 512
    &&& is_permutation(t.subrange(0, 256))
    &&& forall|k: int| 0 <= k < 256 ==> #[trigger] t[k] == t[k + 256]
}

/// The identity permutation, from which every shuffle starts.
pub open spec fn identity() -> Seq<u8> {
    Seq::new(256, |k: int| k as u8)
}

/// `s` with the entries at `i` and `j` exchanged.
pub open spec fn swapped(s: Seq<u8>, i: int, j: int) -> Seq<u8> {
    s.update(i, s[j]).update(j, s[i])
}

/// The state that a seed puts the generator in.
pub open spec fn initial_state(seed: u32) -> u64 {
    seed as u64
}

/// One step of the linear congruential generator, modulo 2^64.
pub open spec fn next_state(state: u64) -> u64 {
    state.wrapping_mul(MULTIPLIER).wrapping_add(INCREMENT)
}

/// The index below `bound` that a generator state selects. The low bits of
/// the state have short periods, so the index is taken from the high ones.
pub open spec fn draw(state: u64, bound: int) -> int {
    ((state >> 33) as int) % bound
}

/// Fisher-Yates: the positions `i, i - 1, .., 1` of `s` are settled in turn,
/// each by an exchange with a position at or below it that the next
/// generator state selects.
pub open spec fn shuffled(s: Seq<u8>, state: u64, i: nat) -> Seq<u8>
    decreases i,
{
    if i == 0 {
        s
    } else {
        let state = next_state(state);
        shuffled(swapped(s, i as int, draw(state, i as int + 1)), state, (i - 1) as nat)
    }
}

/// The permutation that belongs to `seed`.
pub open spec fn permutation_of(seed: u32) -> Seq<u8> {
    shuffled(identity(), initial_state(seed), 255)
}

/// The table that belongs to `seed`.
pub open spec fn table_of(seed: u32) -> Seq<u8> {
    permutation_of(seed) + permutation_of(seed)
}

/// `inverse` sends each value of `p` back to the position that holds it.
spec fn inverts(inverse: Seq<int>, p: Seq<u8>) -> bool {
    &&& p.len() == 256
    &&& inverse.len() == 256
    &&& forall|k: int| 0 <= k < 256 ==> #[trigger] inverse[p[k] as int] == k
    &&& forall|v: int| 0 <= v < 256 ==> 0 <= #[trigger] inverse[v] < 256 && p[inverse[v]] == v
}

/// A sequence that has an inverse is a permutation.
proof fn lemma_inverse_gives_permutation(inverse: Seq<int>, p: Seq<u8>)
    requires
        inverts(inverse, p),
    ensures
        is_permutation(p),
{
    assert forall|a: int, b: int| 0 <= a < 256 && 0 <= b < 256 && a != b implies p[a] != p[b] by {
        assert(inverse[p[a] as int] == a);
        assert(inverse[p[b] as int] == b);
    }
    assert forall|v: u8| #[trigger] p.contains(v) by {
        assert(p[inverse[v as int]] == v);
    }
}

/// An exchange keeps a permutation a permutation.
proof fn lemma_swap_keeps_inverse(inverse: Seq<int>, p: Seq<u8>, i: int, j: int)
    requires
        inverts(inverse, p),
        0 <= i < 256,
        0 <= j < 256,
    ensures
        inverts(inverse.update(p[j] as int, i).update(p[i] as int, j), swapped(p, i, j)),
{
    let q = swapped(p, i, j);
    let inv = inverse.update(p[j] as int, i).update(p[i] as int, j);
    assert(inverse[p[i] as int] == i);
    assert(inverse[p[j] as int] == j);
    assert forall|k: int| 0 <= k < 256 implies #[trigger] inv[q[k] as int] == k by {
        assert(inverse[p[k] as int] == k);
    }
    assert forall|v: int| 0 <= v < 256 implies 0 <= #[trigger] inv[v] < 256 && q[inv[v]] == v by {
        assert(p[inverse[v]] == v);
    }
}

/// The seeded lookup table of the lattice noises.
#[derive(Debug)]
pub struct PermutationTable {
    seed: u32,
    entries: Vec<u8>,
}

impl View for PermutationTable {
    type V = Seq<u8>;

    /// The 512 entries of the table.
    closed spec fn view(&self) -> Seq<u8> {
        table_of(self.seed)
    }
}

impl Clone for PermutationTable {
    fn clone(&self) -> (copy: PermutationTable)
        ensures
            copy@ == self@,
            copy.spec_seed() == self.spec_seed(),
    {
        proof {
            use_type_invariant(self);
        }
        let entries = self.entries.clone();
        assert(entries@ =~= self.entries@);
        PermutationTable { seed: self.seed, entries }
    }
}

impl PermutationTable {
    #[verifier::type_invariant]
    spec fn well_formed(self) -> bool {
        self.entries@ == table_of(self.seed)
    }

    /// The seed that the table was built from.
    pub closed spec fn spec_seed(&self) -> u32 {
        self.seed
    }

    /// A table is determined by its seed, and is a permutation of 0..=255
    /// followed by a copy of itself.
    pub proof fn lemma_view(&self)
        ensures
            self@ == table_of(self.spec_seed()),
            is_doubled_permutation(self@),
    {
        lemma_table_is_doubled_permutation(self.seed);
    }

    /// Builds the table of `seed`: the identity permutation, shuffled by a
    /// generator that starts from the seed, and then repeated once.
    pub fn build(seed: u32) -> (table: PermutationTable)
        ensures
            table.spec_seed() == seed,
            table@ == table_of(seed),
            is_doubled_permutation(table@),
    {
        let mut entries: Vec<u8> = Vec::new();
        let mut k: usize = 0;
        while k < PERIOD
            invariant
                k <= 256,
                entries@.len() == k,
                forall|n: int| 0 <= n < k ==> entries@[n] == n as u8,
            decreases 256 - k,
        {
            entries.push(k as u8);
            k += 1;
        }
        assert(entries@ =~= identity());
        let mut state: u64 = seed as u64;
        let mut i: usize = PERIOD - 1;
        while i > 0
            invariant
                i <= 255,
                entries@.len() == 256,
                shuffled(entries@, state, i as nat) == permutation_of(seed),
            decreases i,
        {
            state = state.wrapping_mul(MULTIPLIER).wrapping_add(INCREMENT);
            let j = select(state, i + 1);
            let upper = entries[i];
            let lower = entries[j];
            entries.set(i, lower);
            entries.set(j, upper);
            i -= 1;
        }
        let ghost permutation = entries@;
        let mut k: usize = 0;
        while k < PERIOD
            invariant
                k <= 256,
                entries@.len() == 256 + k,
                entries@.subrange(0, 256) == permutation,
                forall|n: int| 0 <= n < k ==> #[trigger] entries@[n] == entries@[n + 256],
            decreases 256 - k,
        {
            let entry = entries[k];
            entries.push(entry);
            k += 1;
        }
        assert(entries@ =~= permutation + permutation);
        proof {
            lemma_table_is_doubled_permutation(seed);
        }
        PermutationTable { seed, entries }
    }

    /// The seed that the table was built from.
    pub fn seed(&self) -> (seed: u32)
        ensures
            seed == self.spec_seed(),
    {
        self.seed
    }

    /// The entry at `index`.
    pub fn get(&self, index: usize) -> (entry: u8)
        requires
            index < TABLE_LEN,
        ensures
            entry == self@[index as int],
    {
        proof {
            use_type_invariant(self);
            lemma_table_is_doubled_permutation(self.seed);
        }
        self.entries[index]
    }
}

/// The index below `bound` that `state` selects.
fn select(state: u64, bound: usize) -> (index: usize)
    requires
        0 < bound <= 256,
    ensures
        index == draw(state, bound as int),
        index < bound,
{
    ((state >> 33) % (bound as u64)) as usize
}

/// The table of every seed is a permutation of 0..=255 followed by a copy of
/// itself.
pub proof fn lemma_table_is_doubled_permutation(seed: u32)
    ensures
        is_doubled_permutation(table_of(seed)),
{
    let start = Seq::new(256, |v: int| v);
    let inverse = lemma_shuffle_keeps_inverse(start, identity(), initial_state(seed), 255);
    lemma_inverse_gives_permutation(inverse, permutation_of(seed));
    assert(table_of(seed).subrange(0, 256) =~= permutation_of(seed));
}

/// A shuffle keeps a permutation a permutation.
proof fn lemma_shuffle_keeps_inverse(inverse: Seq<int>, p: Seq<u8>, state: u64, i: nat) -> (after:
    Seq<int>)
    requires
        inverts(inverse, p),
        i <= 255,
    ensures
        inverts(after, shuffled(p, state, i)),
    decreases i,
{
    if i > 0 {
        let state = next_state(state);
        let j = draw(state, i as int + 1);
        lemma_swap_keeps_inverse(inverse, p, i as int, j);
        lemma_shuffle_keeps_inverse(
            inverse.update(p[j] as int, i as int).update(p[i as int] as int, j),
            swapped(p, i as int, j),
            state,
            (i - 1) as nat,
        )
    } else {
        inverse
    }
}

} // verus!
