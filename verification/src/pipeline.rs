//! Pipeline specialization: caching one compiled GPU pipeline per
//! view-specialization of a composed shader.
//!
//! A [`SmudPipelineKey`] extends a [`ShaderKey`] with the view facts a
//! compiled pipeline depends on: multisample count and primitive topology
//! (packed into a [`PipelineKey`] bit word) and whether the target is HDR.
//! The specializer allocates a stable pipeline identity per key, the first
//! time it is asked for a key whose shader has been composed; a key whose
//! shader is still pending yields the sentinel [`INVALID_PIPELINE_ID`] and
//! is simply retried later. A key whose generated program failed to compile
//! on the GPU backend can be marked permanently failed: from then on it
//! yields the sentinel forever and is never recompiled.

use vstd::prelude::*;

use crate::composer::cache_has_key;
use crate::composer::key_matches;
use crate::composer::ShaderComposer;
use crate::composer::ShaderKey;

verus! {

/// The identity returned for a specialization that has no usable pipeline
/// (shader still pending, or permanently failed).
pub const INVALID_PIPELINE_ID: u64 = u64::MAX;

/// Primitive assembly topology of a draw.
#[derive(Debug, Clone, Copy, PartialEq, Eq, Hash, Structural)]
pub enum PrimitiveTopology {
    /// Each vertex is one point.
    PointList,
    /// Each pair of vertices is one line.
    LineList,
    /// Each vertex after the first extends a line.
    LineStrip,
    /// Each triple of vertices is one triangle.
    TriangleList,
    /// Each vertex after the second closes a triangle.
    TriangleStrip,
}

/// The numeric code a topology is packed as.
pub open spec fn topology_bits(t: PrimitiveTopology) -> u32 {
    match t {
        PrimitiveTopology::PointList => 0,
        PrimitiveTopology::LineList => 1,
        PrimitiveTopology::LineStrip => 2,
        PrimitiveTopology::TriangleList => 3,
        PrimitiveTopology::TriangleStrip => 4,
    }
}

/// View facts of a pipeline packed into one word: the multisample count's
/// exponent in the top three bits, the topology code in the three bits
/// below.
#[derive(Debug, Clone, Copy, PartialEq, Eq, Hash, Structural)]
pub struct PipelineKey(u32);

impl View for PipelineKey {
    type V = u32;

    closed spec fn view(&self) -> u32 {
        self.0
    }
}

impl PipelineKey {
    /// An empty key: 1 sample, point-list topology.
    pub fn none() -> (r: Self)
        ensures
            r@ == 0u32,
    {
        PipelineKey(0)
    }

    /// The union of the two keys' bits.
    pub fn union(self, other: Self) -> (r: Self)
        ensures
            r@ == self@ | other@,
    {
        PipelineKey(self.0 | other.0)
    }

    /// Packs a multisample count (a power of two up to 128) into a key.
    pub fn from_msaa_samples(msaa_samples: u32) -> (r: Self)
        ensures
            r@ == (vstd::std_specs::bits::u32_trailing_zeros(msaa_samples) & 7u32) << 29u32,
    {
        let msaa_bits = (msaa_samples.trailing_zeros() & 7) << 29;
        PipelineKey(msaa_bits)
    }

    /// The multisample count packed into this key.
    pub fn msaa_samples(&self) -> (r: u32)
        ensures
            r == 1u32 << ((self@ >> 29u32) & 7u32),
    {
        let bits = self.0;
        let shift = (bits >> 29) & 7;
        proof {
            assert((bits >> 29u32) & 7u32 < 32u32) by (bit_vector);
        }
        1u32 << shift
    }

    /// Packs a primitive topology into a key.
    pub fn from_primitive_topology(primitive_topology: PrimitiveTopology) -> (r: Self)
        ensures
            r@ == (topology_bits(primitive_topology) & 7u32) << 26u32,
    {
        let bits: u32 = match primitive_topology {
            PrimitiveTopology::PointList => 0,
            PrimitiveTopology::LineList => 1,
            PrimitiveTopology::LineStrip => 2,
            PrimitiveTopology::TriangleList => 3,
            PrimitiveTopology::TriangleStrip => 4,
        };
        PipelineKey((bits & 7) << 26)
    }

    /// The primitive topology packed into this key; an unused code reads as
    /// the triangle-list default.
    pub fn primitive_topology(&self) -> (r: PrimitiveTopology)
        ensures
            r == (match ((self@ >> 26u32) & 7u32) {
                0u32 => PrimitiveTopology::PointList,
                1u32 => PrimitiveTopology::LineList,
                2u32 => PrimitiveTopology::LineStrip,
                3u32 => PrimitiveTopology::TriangleList,
                4u32 => PrimitiveTopology::TriangleStrip,
                _ => PrimitiveTopology::TriangleList,
            }),
    {
        let bits = (self.0 >> 26) & 7;
        match bits {
            0 => PrimitiveTopology::PointList,
            1 => PrimitiveTopology::LineList,
            2 => PrimitiveTopology::LineStrip,
            3 => PrimitiveTopology::TriangleList,
            4 => PrimitiveTopology::TriangleStrip,
            _ => PrimitiveTopology::TriangleList,
        }
    }
}

/// The trailing-zero count of a power of two is its exponent.
proof fn lemma_trailing_zeros_pow2(k: u32)
    requires
        k < 32,
    ensures
        vstd::std_specs::bits::u32_trailing_zeros(1u32 << k) == k,
{
    broadcast use vstd::std_specs::bits::axiom_u32_trailing_zeros;

    let x = 1u32 << k;
    let t = vstd::std_specs::bits::u32_trailing_zeros(x);
    assert(k < 32 ==> (1u32 << k) != 0) by (bit_vector);
    assert(t < 32);
    if t < k {
        assert(k < 32 && t < k ==> ((1u32 << k) >> t) & 1u32 == 0u32) by (bit_vector);
    } else if t > k {
        assert(k < 32 ==> ((1u32 << k) >> k) & 1u32 == 1u32) by (bit_vector);
        assert((x >> k) & 1u32 == 0u32);
    }
}

/// Packing and unpacking a multisample count round-trips for every power of
/// two the key can carry.
pub proof fn lemma_msaa_round_trip(k: u32)
    requires
        k <= 7,
    ensures
        1u32 << (((vstd::std_specs::bits::u32_trailing_zeros(1u32 << k) & 7u32) << 29u32 >> 29u32)
            & 7u32) == 1u32 << k,
{
    lemma_trailing_zeros_pow2(k);
    assert(k <= 7 ==> (((k & 7u32) << 29u32) >> 29u32) & 7u32 == k) by (bit_vector);
}

/// Packing and unpacking a topology round-trips for every variant.
pub proof fn lemma_topology_round_trip(t: PrimitiveTopology)
    ensures
        (match (((topology_bits(t) & 7u32) << 26u32 >> 26u32) & 7u32) {
            0u32 => PrimitiveTopology::PointList,
            1u32 => PrimitiveTopology::LineList,
            2u32 => PrimitiveTopology::LineStrip,
            3u32 => PrimitiveTopology::TriangleList,
            4u32 => PrimitiveTopology::TriangleStrip,
            _ => PrimitiveTopology::TriangleList,
        }) == t,
{
    let b = topology_bits(t);
    assert(b <= 4 ==> (((b & 7u32) << 26u32) >> 26u32) & 7u32 == b) by (bit_vector);
}

/// Identifies one compiled pipeline variant: the view bits, the shader
/// combination, and whether the render target is HDR.
#[derive(Debug)]
pub struct SmudPipelineKey {
    /// Multisample and topology bits.
    pub mesh: PipelineKey,
    /// The shader combination this pipeline runs.
    pub shader: ShaderKey,
    /// Whether the target texture format is HDR.
    pub hdr: bool,
}

/// Structural equality of specialization keys.
pub open spec fn pipeline_key_matches(a: SmudPipelineKey, b: SmudPipelineKey) -> bool {
    a.mesh == b.mesh && key_matches(a.shader, b.shader) && a.hdr == b.hdr
}

/// Specialization-key equality does not depend on the order of comparison.
pub proof fn lemma_pipeline_key_symmetric(a: SmudPipelineKey, b: SmudPipelineKey)
    ensures
        pipeline_key_matches(a, b) == pipeline_key_matches(b, a),
{
    crate::composer::lemma_key_matches_symmetric(a.shader, b.shader);
}

/// Two equal specialization keys compare alike against any third key.
pub proof fn lemma_pipeline_key_equiv(a: SmudPipelineKey, b: SmudPipelineKey, c: SmudPipelineKey)
    requires
        pipeline_key_matches(a, b),
    ensures
        pipeline_key_matches(a, c) == pipeline_key_matches(b, c),
        pipeline_key_matches(c, a) == pipeline_key_matches(c, b),
{
    crate::composer::lemma_key_matches_equiv(a.shader, b.shader, c.shader);
}

/// In a well-formed specializer cache at most one entry matches any key.
pub proof fn lemma_specializer_key_unique(
    entries: Seq<PipelineEntry>,
    i: int,
    j: int,
    k: SmudPipelineKey,
)
    requires
        specializer_wf(entries),
        0 <= i < entries.len(),
        0 <= j < entries.len(),
        pipeline_key_matches(entries[i].key, k),
        pipeline_key_matches(entries[j].key, k),
    ensures
        i == j,
{
    if i != j {
        lemma_pipeline_key_equiv(entries[i].key, k, entries[j].key);
        lemma_pipeline_key_symmetric(entries[j].key, k);
        lemma_pipeline_key_symmetric(entries[i].key, entries[j].key);
    }
}

impl SmudPipelineKey {
    /// A copy of this key, equal to it.
    pub fn duplicate(&self) -> (r: Self)
        ensures
            pipeline_key_matches(r, *self),
    {
        SmudPipelineKey { mesh: self.mesh, shader: self.shader.duplicate(), hdr: self.hdr }
    }

    /// Compares two specialization keys.
    pub fn matches(&self, other: &Self) -> (r: bool)
        ensures
            r == pipeline_key_matches(*self, *other),
    {
        self.mesh == other.mesh && self.shader.eq(&other.shader) && self.hdr == other.hdr
    }
}

/// The lifecycle of one specialization.
#[derive(Debug)]
pub enum PipelineState {
    /// A pipeline object exists under the given identity.
    Compiled {
        /// The compiled pipeline's identity.
        id: u64,
    },
    /// The generated program failed to compile on the GPU backend; the key
    /// is excluded permanently and never recompiled.
    Failed,
}

/// One cached specialization.
#[derive(Debug)]
pub struct PipelineEntry {
    /// The specialization this entry is for.
    pub key: SmudPipelineKey,
    /// Whether it compiled, and to what identity.
    pub state: PipelineState,
}

/// True when some entry's key equals `k`.
pub open spec fn specializer_has_key(entries: Seq<PipelineEntry>, k: SmudPipelineKey) -> bool {
    exists|i: int| 0 <= i < entries.len() && pipeline_key_matches((#[trigger] entries[i]).key, k)
}

/// A well-formed specializer cache: no key appears twice, and a compiled
/// entry's identity is its position (so identities are unique and never the
/// sentinel).
pub open spec fn specializer_wf(entries: Seq<PipelineEntry>) -> bool {
    &&& forall|i: int, j: int|
        0 <= i < j < entries.len() ==> !pipeline_key_matches(
            (#[trigger] entries[i]).key,
            (#[trigger] entries[j]).key,
        )
    &&& forall|i: int|
        0 <= i < entries.len() ==> ((#[trigger] entries[i]).state matches PipelineState::Compiled {
            id,
        } ==> id == i)
    &&& entries.len() <= INVALID_PIPELINE_ID
}

/// Caches one compiled pipeline per specialization key, across frames.
#[derive(Debug)]
pub struct PipelineSpecializer {
    entries: Vec<PipelineEntry>,
}

impl View for PipelineSpecializer {
    type V = Seq<PipelineEntry>;

    closed spec fn view(&self) -> Seq<PipelineEntry> {
        self.entries@
    }
}

impl PipelineSpecializer {
    /// An empty cache.
    pub fn new() -> (r: Self)
        ensures
            r@ == Seq::<PipelineEntry>::empty(),
            specializer_wf(r@),
    {
        PipelineSpecializer { entries: Vec::new() }
    }

    /// How many specializations have been cached (compiled or failed).
    pub fn len(&self) -> (r: usize)
        ensures
            r == self@.len(),
    {
        self.entries.len()
    }

    /// The position of the entry whose key equals `key`, if any.
    fn find_index(&self, key: &SmudPipelineKey) -> (r: Option<usize>)
        ensures
            match r {
                Option::Some(i) => i < self@.len() && pipeline_key_matches(self@[i as int].key, *key),
                Option::None => !specializer_has_key(self@, *key),
            },
    {
        let n = self.entries.len();
        let mut i: usize = 0;
        while i < n
            invariant
                n == self@.len(),
                i <= n,
                forall|j: int| 0 <= j < i ==> !pipeline_key_matches((#[trigger] self@[j]).key, *key),
            decreases n - i,
        {
            if self.entries[i].key.matches(key) {
                return Some(i);
            }
            i = i + 1;
        }
        None
    }

    /// The cached pipeline identity for `key`: the compiled identity if one
    /// exists, the sentinel if the key is unknown or failed. Never mutates.
    pub fn pipeline_id(&self, key: &SmudPipelineKey) -> (r: u64)
        requires
            specializer_wf(self@),
        ensures
            r == spec_pipeline_id(self@, *key),
    {
        match self.find_index(key) {
            Some(i) => {
                proof {
                    let w = choose|w: int|
                        0 <= w < self@.len() && pipeline_key_matches(
                            (#[trigger] self@[w]).key,
                            *key,
                        );
                    lemma_specializer_key_unique(self@, w, i as int, *key);
                }
                match self.entries[i].state {
                    PipelineState::Compiled { id } => id,
                    PipelineState::Failed => INVALID_PIPELINE_ID,
                }
            },
            None => INVALID_PIPELINE_ID,
        }
    }

    /// Ensures a pipeline for `key` if its shader has been composed:
    /// returns the cached identity if one exists (allocating it the first
    /// time), the sentinel if the key failed permanently or its shader is
    /// still pending. Cached entries are never recompiled or dropped.
    pub fn specialize(&mut self, composer: &ShaderComposer, key: &SmudPipelineKey) -> (r: u64)
        requires
            specializer_wf(old(self)@),
        ensures
            specializer_wf(final(self)@),
            final(self)@.len() >= old(self)@.len(),
            forall|i: int| 0 <= i < old(self)@.len() ==> final(self)@[i] == old(self)@[i],
            specializer_has_key(old(self)@, *key) ==> final(self)@ == old(self)@ && r
                == spec_pipeline_id(old(self)@, *key),
            ({
                let before = old(self)@;
                let after = final(self)@;
                !specializer_has_key(before, *key) && cache_has_key(composer@, key.shader)
                    && before.len() < INVALID_PIPELINE_ID ==> ({
                    &&& after.len() == before.len() + 1
                    &&& r == before.len()
                    &&& pipeline_key_matches(after[before.len() as int].key, *key)
                    &&& after[before.len() as int].state matches PipelineState::Compiled { id } && id
                        == r
                })
            }),
            !specializer_has_key(old(self)@, *key) && !cache_has_key(composer@, key.shader)
                ==> final(self)@ == old(self)@ && r == INVALID_PIPELINE_ID,
            old(self)@.len() >= INVALID_PIPELINE_ID ==> final(self)@ == old(self)@,
            r == spec_pipeline_id(final(self)@, *key),
    {
        match self.find_index(key) {
            Some(i) => {
                proof {
                    let w = choose|w: int|
                        0 <= w < self@.len() && pipeline_key_matches(
                            (#[trigger] self@[w]).key,
                            *key,
                        );
                    lemma_specializer_key_unique(self@, w, i as int, *key);
                }
                match self.entries[i].state {
                    PipelineState::Compiled { id } => id,
                    PipelineState::Failed => INVALID_PIPELINE_ID,
                }
            },
            None => {
                if self.entries.len() as u64 >= INVALID_PIPELINE_ID {
                    return INVALID_PIPELINE_ID;
                }
                if composer.is_composed(&key.shader) {
                    let id = self.entries.len() as u64;
                    let ghost before = self.entries@;
                    self.entries.push(
                        PipelineEntry {
                            key: key.duplicate(),
                            state: PipelineState::Compiled { id },
                        },
                    );
                    proof {
                        let n = before.len() as int;
                        assert(pipeline_key_matches(self.entries@[n].key, *key));
                        assert forall|i: int, j: int| 0 <= i < j < self.entries@.len() implies
                            !pipeline_key_matches(
                            (#[trigger] self.entries@[i]).key,
                            (#[trigger] self.entries@[j]).key,
                        ) by {
                            if j == n {
                                assert(!pipeline_key_matches(self.entries@[i].key, *key));
                                lemma_pipeline_key_equiv(
                                    self.entries@[n].key,
                                    *key,
                                    self.entries@[i].key,
                                );
                                lemma_pipeline_key_symmetric(
                                    self.entries@[i].key,
                                    self.entries@[n].key,
                                );
                            }
                        }
                        let w = choose|w: int|
                            0 <= w < self@.len() && pipeline_key_matches(
                                (#[trigger] self@[w]).key,
                                *key,
                            );
                        lemma_specializer_key_unique(self@, w, n, *key);
                    }
                    id
                } else {
                    INVALID_PIPELINE_ID
                }
            },
        }
    }

    /// Marks `key` permanently failed after its generated program was
    /// rejected by the GPU backend. From now on it always yields the
    /// sentinel and is never recompiled.
    pub fn mark_failed(&mut self, key: &SmudPipelineKey)
        requires
            specializer_wf(old(self)@),
            old(self)@.len() < INVALID_PIPELINE_ID,
        ensures
            specializer_wf(final(self)@),
            final(self)@.len() == old(self)@.len() || final(self)@.len() == old(self)@.len() + 1,
            forall|i: int|
                0 <= i < old(self)@.len() && !pipeline_key_matches(old(self)@[i].key, *key)
                    ==> final(self)@[i] == old(self)@[i],
            specializer_has_key(final(self)@, *key),
            spec_pipeline_id(final(self)@, *key) == INVALID_PIPELINE_ID,
    {
        match self.find_index(key) {
            Some(i) => {
                let ghost before = self.entries@;
                let dup = self.entries[i].key.duplicate();
                self.entries[i] = PipelineEntry { key: dup, state: PipelineState::Failed };
                proof {
                    let ii = i as int;
                    assert forall|a: int, b: int| 0 <= a < b < self.entries@.len() implies
                        !pipeline_key_matches(
                        (#[trigger] self.entries@[a]).key,
                        (#[trigger] self.entries@[b]).key,
                    ) by {
                        assert(!pipeline_key_matches(before[a].key, before[b].key));
                        if a == ii {
                            lemma_pipeline_key_equiv(
                                self.entries@[ii].key,
                                before[ii].key,
                                before[b].key,
                            );
                        } else if b == ii {
                            lemma_pipeline_key_equiv(
                                self.entries@[ii].key,
                                before[ii].key,
                                before[a].key,
                            );
                            lemma_pipeline_key_symmetric(before[a].key, self.entries@[ii].key);
                            lemma_pipeline_key_symmetric(before[a].key, before[ii].key);
                        }
                    }
                    lemma_pipeline_key_equiv(self.entries@[ii].key, before[ii].key, *key);
                    assert(pipeline_key_matches(self.entries@[ii].key, *key));
                    let w = choose|w: int|
                        0 <= w < self@.len() && pipeline_key_matches(
                            (#[trigger] self@[w]).key,
                            *key,
                        );
                    lemma_specializer_key_unique(self@, w, ii, *key);
                }
            },
            None => {
                let ghost before = self.entries@;
                self.entries.push(
                    PipelineEntry { key: key.duplicate(), state: PipelineState::Failed },
                );
                proof {
                    let n = before.len() as int;
                    assert(pipeline_key_matches(self.entries@[n].key, *key));
                    assert forall|a: int, b: int| 0 <= a < b < self.entries@.len() implies
                        !pipeline_key_matches(
                        (#[trigger] self.entries@[a]).key,
                        (#[trigger] self.entries@[b]).key,
                    ) by {
                        if b == n {
                            assert(!pipeline_key_matches(self.entries@[a].key, *key));
                            lemma_pipeline_key_equiv(
                                self.entries@[n].key,
                                *key,
                                self.entries@[a].key,
                            );
                            lemma_pipeline_key_symmetric(
                                self.entries@[a].key,
                                self.entries@[n].key,
                            );
                        }
                    }
                    let w = choose|w: int|
                        0 <= w < self@.len() && pipeline_key_matches(
                            (#[trigger] self@[w]).key,
                            *key,
                        );
                    assert(w == n);
                }
            },
        }
    }
}

/// Matching keys are cached alike.
pub proof fn lemma_specializer_has_key_congruent(
    entries: Seq<PipelineEntry>,
    k1: SmudPipelineKey,
    k2: SmudPipelineKey,
)
    requires
        pipeline_key_matches(k1, k2),
    ensures
        specializer_has_key(entries, k1) == specializer_has_key(entries, k2),
{
    if specializer_has_key(entries, k1) {
        let w = choose|w: int|
            0 <= w < entries.len() && pipeline_key_matches((#[trigger] entries[w]).key, k1);
        lemma_pipeline_key_equiv(k1, k2, entries[w].key);
        lemma_pipeline_key_symmetric(entries[w].key, k2);
        lemma_pipeline_key_symmetric(entries[w].key, k1);
    }
    if specializer_has_key(entries, k2) {
        let w = choose|w: int|
            0 <= w < entries.len() && pipeline_key_matches((#[trigger] entries[w]).key, k2);
        lemma_pipeline_key_equiv(k1, k2, entries[w].key);
        lemma_pipeline_key_symmetric(entries[w].key, k2);
        lemma_pipeline_key_symmetric(entries[w].key, k1);
    }
}

/// Matching keys resolve to the same cached pipeline identity.
pub proof fn lemma_pipeline_id_congruent(
    entries: Seq<PipelineEntry>,
    k1: SmudPipelineKey,
    k2: SmudPipelineKey,
)
    requires
        specializer_wf(entries),
        pipeline_key_matches(k1, k2),
    ensures
        spec_pipeline_id(entries, k1) == spec_pipeline_id(entries, k2),
{
    lemma_specializer_has_key_congruent(entries, k1, k2);
    if specializer_has_key(entries, k1) {
        let w1 = choose|w: int|
            0 <= w < entries.len() && pipeline_key_matches((#[trigger] entries[w]).key, k1);
        let w2 = choose|w: int|
            0 <= w < entries.len() && pipeline_key_matches((#[trigger] entries[w]).key, k2);
        lemma_pipeline_key_equiv(k1, k2, entries[w2].key);
        lemma_pipeline_key_symmetric(entries[w2].key, k2);
        lemma_pipeline_key_symmetric(entries[w2].key, k1);
        lemma_specializer_key_unique(entries, w1, w2, k1);
    }
}

/// A key already cached keeps its identity when entries are only appended.
pub proof fn lemma_pipeline_id_stable(
    before: Seq<PipelineEntry>,
    after: Seq<PipelineEntry>,
    k: SmudPipelineKey,
)
    requires
        specializer_wf(before),
        specializer_wf(after),
        before.len() <= after.len(),
        forall|i: int| 0 <= i < before.len() ==> after[i] == before[i],
        specializer_has_key(before, k),
    ensures
        specializer_has_key(after, k),
        spec_pipeline_id(after, k) == spec_pipeline_id(before, k),
{
    let wb = choose|w: int|
        0 <= w < before.len() && pipeline_key_matches((#[trigger] before[w]).key, k);
    assert(pipeline_key_matches(after[wb].key, k));
    let wa = choose|w: int|
        0 <= w < after.len() && pipeline_key_matches((#[trigger] after[w]).key, k);
    lemma_specializer_key_unique(after, wa, wb, k);
}

/// The identity the cache holds for `k`: a compiled entry's identity, or
/// the sentinel when `k` is unknown or failed.
pub open spec fn spec_pipeline_id(entries: Seq<PipelineEntry>, k: SmudPipelineKey) -> u64 {
    if specializer_has_key(entries, k) {
        let i = choose|i: int|
            0 <= i < entries.len() && pipeline_key_matches((#[trigger] entries[i]).key, k);
        match entries[i].state {
            PipelineState::Compiled { id } => id,
            PipelineState::Failed => INVALID_PIPELINE_ID,
        }
    } else {
        INVALID_PIPELINE_ID
    }
}

} // verus!
