//! Composition and caching of complete fragment programs.
//!
//! A [`ShaderKey`] names one combination of SDF fragment, fill fragment and
//! their two parameter schemas. For every key the composer can synthesize a
//! complete fragment program: a deterministic, purely textual function of
//! the key (and the global parameter capacity), which imports the two
//! registered fragment modules under the aliases `sdf` and `fill`, declares
//! the interpolated input struct, computes the distance and returns the
//! filled color. Equal keys therefore always yield byte-identical text.
//!
//! Programs are cached per key, append-only: a key already present is never
//! regenerated. A key whose fragments are not all available yet simply stays
//! pending and is retried on a later frame; that is not an error.

use vstd::prelude::*;

use crate::registry::fragment_available;
use crate::registry::FragmentHandle;
use crate::registry::ShaderFragmentRegistry;
use crate::schema::call_string;
use crate::schema::ParameterSchema;
use crate::schema::ParameterSlot;
use crate::text::push_dec_u64;
use crate::vertex_layout::params_locations_string;
use crate::vertex_layout::push_params_locations;

verus! {

/// Identifies one unique (SDF fragment, fill fragment, SDF schema, fill
/// schema) combination: the cache key for generated programs and compiled
/// pipelines. Two keys are equal exactly when all four parts are equal.
#[derive(Debug)]
pub struct ShaderKey {
    /// Handle of the SDF fragment.
    pub sdf_shader: FragmentHandle,
    /// Handle of the fill fragment.
    pub fill_shader: FragmentHandle,
    /// The slots handed to the SDF function, in order.
    pub sdf_schema: ParameterSchema,
    /// The slots handed to the fill function, in order.
    pub fill_schema: ParameterSchema,
}

/// Structural equality of keys: same handles, same schema contents.
/// Opaque: proofs treat it as an atom and use the lemmas below, or reveal
/// it where the field equalities themselves matter.
#[verifier::opaque]
pub open spec fn key_matches(a: ShaderKey, b: ShaderKey) -> bool {
    a.sdf_shader == b.sdf_shader && a.fill_shader == b.fill_shader && a.sdf_schema@ == b.sdf_schema@
        && a.fill_schema@ == b.fill_schema@
}

/// Every key equals itself.
pub proof fn lemma_key_matches_reflexive(a: ShaderKey)
    ensures
        key_matches(a, a),
{
    reveal(key_matches);
}

/// Key equality does not depend on the order of comparison.
pub proof fn lemma_key_matches_symmetric(a: ShaderKey, b: ShaderKey)
    ensures
        key_matches(a, b) == key_matches(b, a),
{
    reveal(key_matches);
}

/// Two equal keys compare alike against any third key.
pub proof fn lemma_key_matches_equiv(a: ShaderKey, b: ShaderKey, c: ShaderKey)
    requires
        key_matches(a, b),
    ensures
        key_matches(a, c) == key_matches(b, c),
        key_matches(c, a) == key_matches(c, b),
{
    reveal(key_matches);
}

impl ShaderKey {
    /// A copy of this key, equal to it.
    pub fn duplicate(&self) -> (r: Self)
        ensures
            key_matches(r, *self),
    {
        proof {
            reveal(key_matches);
        }
        ShaderKey {
            sdf_shader: self.sdf_shader,
            fill_shader: self.fill_shader,
            sdf_schema: self.sdf_schema.duplicate(),
            fill_schema: self.fill_schema.duplicate(),
        }
    }
}

impl PartialEq for ShaderKey {
    /// Two keys are equal exactly when all four fields are equal.
    fn eq(&self, other: &Self) -> (r: bool) {
        proof {
            reveal(key_matches);
        }
        self.sdf_shader.id == other.sdf_shader.id && self.fill_shader.id == other.fill_shader.id
            && self.sdf_schema == other.sdf_schema && self.fill_schema == other.fill_schema
    }
}

impl Eq for ShaderKey {

}

impl vstd::std_specs::cmp::PartialEqSpecImpl for ShaderKey {
    open spec fn obeys_eq_spec() -> bool {
        true
    }

    open spec fn eq_spec(&self, other: &Self) -> bool {
        key_matches(*self, *other)
    }
}

/// The complete fragment program for one combination, as a pure function of
/// the key's four parts and the global parameter capacity `(f, u)`: a
/// per-frame uniform import, the two fragment module imports aliased `sdf`
/// and `fill`, the interpolated input struct (color, position, and one field
/// per declared capacity slot), and an entry point computing
/// `d = sdf::sdf(pos, <sdf params>)` then `fill::fill(d, color, pos,
/// <fill params>)`.
pub open spec fn fragment_shader_source(
    sdf_id: nat,
    fill_id: nat,
    sdf_schema: Seq<ParameterSlot>,
    fill_schema: Seq<ParameterSlot>,
    f: nat,
    u: nat,
) -> Seq<char> {
    "\n#import bevy_render::globals::Globals\n@group(0) @binding(1)\nvar<uniform> globals: Globals;\n#import smud::sdf"@
        + crate::text::dec_of(sdf_id) + " as sdf\n#import smud::fill"@ + crate::text::dec_of(
        fill_id,
    )
        + " as fill\n\nstruct FragmentInput {\n@location(0) color: vec4<f32>,\n@location(1) pos: vec2<f32>,\n"@
        + params_locations_string(f, u)
        + "};\n\n@fragment\nfn fragment(in: FragmentInput) -> @location(0) vec4<f32> {\nlet d = sdf::sdf(in.pos"@
        + call_string(sdf_schema) + ");\nreturn fill::fill(d, in.color, in.pos"@ + call_string(
        fill_schema,
    ) + ");\n}\n"@
}

/// The generated program text for a key under capacity `(f, u)`.
pub open spec fn key_source(k: ShaderKey, f: nat, u: nat) -> Seq<char> {
    fragment_shader_source(
        k.sdf_shader.id as nat,
        k.fill_shader.id as nat,
        k.sdf_schema@,
        k.fill_schema@,
        f,
        u,
    )
}

/// Equal keys always compose to byte-identical program text.
pub proof fn lemma_equal_keys_equal_source(k1: ShaderKey, k2: ShaderKey, f: nat, u: nat)
    requires
        key_matches(k1, k2),
    ensures
        key_source(k1, f, u) == key_source(k2, f, u),
{
    reveal(key_matches);
}

/// Keys naming different fragments are different keys: since every
/// registration allocates a fresh identity, registering the same text twice
/// yields two distinct keys and two distinct cache entries.
pub proof fn lemma_distinct_handles_distinct_keys(k1: ShaderKey, k2: ShaderKey)
    requires
        k1.sdf_shader != k2.sdf_shader || k1.fill_shader != k2.fill_shader,
    ensures
        !key_matches(k1, k2),
{
    reveal(key_matches);
}

/// One cached generated program: its key, its text, and the identity of the
/// compiled shader object backing it.
#[derive(Debug)]
pub struct GeneratedProgram {
    /// The combination this program was generated for.
    pub key: ShaderKey,
    /// The complete generated fragment program text.
    pub source: String,
    /// Identity of the compiled program, equal to the entry's position.
    pub program_id: u64,
}

/// True when some cache entry's key equals `k`.
pub open spec fn cache_has_key(cache: Seq<GeneratedProgram>, k: ShaderKey) -> bool {
    exists|i: int| 0 <= i < cache.len() && key_matches((#[trigger] cache[i]).key, k)
}

/// A well-formed program cache under capacity `(f, u)`: every entry's text
/// is exactly the generated text for its key, entry identities are their
/// positions, and no key appears twice.
pub open spec fn cache_wf(cache: Seq<GeneratedProgram>, f: nat, u: nat) -> bool {
    &&& forall|i: int|
        0 <= i < cache.len() ==> (#[trigger] cache[i]).source@ == key_source(cache[i].key, f, u)
    &&& forall|i: int| 0 <= i < cache.len() ==> (#[trigger] cache[i]).program_id == i
    &&& forall|i: int, j: int|
        0 <= i < j < cache.len() ==> !key_matches(
            (#[trigger] cache[i]).key,
            (#[trigger] cache[j]).key,
        )
}

/// In a well-formed cache at most one entry matches any key: however many
/// times composition runs, a combination owns a single cache entry.
pub proof fn lemma_cache_entry_unique(
    cache: Seq<GeneratedProgram>,
    f: nat,
    u: nat,
    i: int,
    j: int,
    k: ShaderKey,
)
    requires
        cache_wf(cache, f, u),
        0 <= i < cache.len(),
        0 <= j < cache.len(),
        key_matches(cache[i].key, k),
        key_matches(cache[j].key, k),
    ensures
        i == j,
{
    if i != j {
        lemma_key_matches_equiv(cache[i].key, k, cache[j].key);
        lemma_key_matches_symmetric(cache[j].key, k);
        lemma_key_matches_symmetric(cache[i].key, cache[j].key);
    }
}

/// A key present in a cache stays present when entries are only appended.
pub proof fn lemma_cache_has_key_monotone(
    before: Seq<GeneratedProgram>,
    after: Seq<GeneratedProgram>,
    k: ShaderKey,
)
    requires
        before.len() <= after.len(),
        forall|i: int| 0 <= i < before.len() ==> after[i] == before[i],
        cache_has_key(before, k),
    ensures
        cache_has_key(after, k),
{
    let i = choose|i: int| 0 <= i < before.len() && key_matches(before[i].key, k);
    assert(key_matches(after[i].key, k));
}

/// Matching keys are cached alike.
pub proof fn lemma_cache_has_key_congruent(
    cache: Seq<GeneratedProgram>,
    k1: ShaderKey,
    k2: ShaderKey,
)
    requires
        key_matches(k1, k2),
    ensures
        cache_has_key(cache, k1) == cache_has_key(cache, k2),
{
    if cache_has_key(cache, k1) {
        let w = choose|w: int|
            0 <= w < cache.len() && key_matches((#[trigger] cache[w]).key, k1);
        lemma_key_matches_equiv(k1, k2, cache[w].key);
        lemma_key_matches_symmetric(cache[w].key, k2);
        lemma_key_matches_symmetric(cache[w].key, k1);
    }
    if cache_has_key(cache, k2) {
        let w = choose|w: int|
            0 <= w < cache.len() && key_matches((#[trigger] cache[w]).key, k2);
        lemma_key_matches_equiv(k1, k2, cache[w].key);
        lemma_key_matches_symmetric(cache[w].key, k2);
        lemma_key_matches_symmetric(cache[w].key, k1);
    }
}

/// Matching keys name the same fragments.
pub proof fn lemma_key_matches_same_handles(a: ShaderKey, b: ShaderKey)
    requires
        key_matches(a, b),
    ensures
        a.sdf_shader == b.sdf_shader,
        a.fill_shader == b.fill_shader,
{
    reveal(key_matches);
}

/// Whether a key's program exists yet.
#[derive(Debug, Clone, Copy, PartialEq, Eq, Structural)]
pub enum ComposeState {
    /// At least one referenced fragment source is not yet available; the
    /// key is retried on a later frame. A key that was never polled is in
    /// the same position as one waiting for its imports.
    PendingImport,
    /// The program text exists in the cache and will never be regenerated.
    Composed,
}

/// Composes and caches generated fragment programs, one entry per distinct
/// [`ShaderKey`], under a fixed parameter capacity.
#[derive(Debug)]
pub struct ShaderComposer {
    config_f: u32,
    config_u: u32,
    cache: Vec<GeneratedProgram>,
}

impl View for ShaderComposer {
    type V = Seq<GeneratedProgram>;

    closed spec fn view(&self) -> Seq<GeneratedProgram> {
        self.cache@
    }
}

impl ShaderComposer {
    /// The configured float-parameter capacity.
    pub closed spec fn spec_f(&self) -> nat {
        self.config_f as nat
    }

    /// The configured uint-parameter capacity.
    pub closed spec fn spec_u(&self) -> nat {
        self.config_u as nat
    }

    /// The composer's cache is well formed.
    pub open spec fn wf(&self) -> bool {
        cache_wf(self@, self.spec_f(), self.spec_u()) && self.spec_f() <= 32 && self.spec_u() <= 32
    }

    /// An empty composer for the capacity of `f` float and `u` uint slots.
    pub fn new(f: u32, u: u32) -> (r: Self)
        requires
            f <= 32,
            u <= 32,
        ensures
            r@ == Seq::<GeneratedProgram>::empty(),
            r.spec_f() == f,
            r.spec_u() == u,
            r.wf(),
    {
        ShaderComposer { config_f: f, config_u: u, cache: Vec::new() }
    }

    /// The configured float capacity.
    pub fn config_f(&self) -> (r: u32)
        ensures
            r == self.spec_f(),
    {
        self.config_f
    }

    /// The configured uint capacity.
    pub fn config_u(&self) -> (r: u32)
        ensures
            r == self.spec_u(),
    {
        self.config_u
    }

    /// How many programs have been generated.
    pub fn len(&self) -> (r: usize)
        ensures
            r == self@.len(),
    {
        self.cache.len()
    }

    /// The cache entry whose key equals `key`, if any.
    pub fn find(&self, key: &ShaderKey) -> (r: Option<&GeneratedProgram>)
        ensures
            match r {
                Option::Some(p) => cache_has_key(self@, *key) && exists|i: int|
                    0 <= i < self@.len() && self@[i] == *p && key_matches(self@[i].key, *key),
                Option::None => !cache_has_key(self@, *key),
            },
    {
        let n = self.cache.len();
        let mut i: usize = 0;
        while i < n
            invariant
                n == self@.len(),
                i <= n,
                forall|j: int| 0 <= j < i ==> !key_matches((#[trigger] self@[j]).key, *key),
            decreases n - i,
        {
            if self.cache[i].key.eq(key) {
                return Some(&self.cache[i]);
            }
            i = i + 1;
        }
        None
    }

    /// Whether `key`'s program has been generated.
    pub fn is_composed(&self, key: &ShaderKey) -> (r: bool)
        ensures
            r == cache_has_key(self@, *key),
    {
        self.find(key).is_some()
    }

    /// Generates the program text for `key` under this capacity.
    fn generate_source(&self, key: &ShaderKey) -> (r: String)
        requires
            self.spec_f() <= 32,
            self.spec_u() <= 32,
        ensures
            r@ == key_source(*key, self.spec_f(), self.spec_u()),
    {
        proof {
            reveal_strlit(
                "\n#import bevy_render::globals::Globals\n@group(0) @binding(1)\nvar<uniform> globals: Globals;\n#import smud::sdf",
            );
            reveal_strlit(" as sdf\n#import smud::fill");
            reveal_strlit(
                " as fill\n\nstruct FragmentInput {\n@location(0) color: vec4<f32>,\n@location(1) pos: vec2<f32>,\n",
            );
            reveal_strlit(
                "};\n\n@fragment\nfn fragment(in: FragmentInput) -> @location(0) vec4<f32> {\nlet d = sdf::sdf(in.pos",
            );
            reveal_strlit(");\nreturn fill::fill(d, in.color, in.pos");
            reveal_strlit(");\n}\n");
        }
        let mut out = String::new();
        out.append(
            "\n#import bevy_render::globals::Globals\n@group(0) @binding(1)\nvar<uniform> globals: Globals;\n#import smud::sdf",
        );
        push_dec_u64(&mut out, key.sdf_shader.id);
        out.append(" as sdf\n#import smud::fill");
        push_dec_u64(&mut out, key.fill_shader.id);
        out.append(
            " as fill\n\nstruct FragmentInput {\n@location(0) color: vec4<f32>,\n@location(1) pos: vec2<f32>,\n",
        );
        push_params_locations(&mut out, self.config_f, self.config_u);
        out.append(
            "};\n\n@fragment\nfn fragment(in: FragmentInput) -> @location(0) vec4<f32> {\nlet d = sdf::sdf(in.pos",
        );
        let sdf_args = key.sdf_schema.call_arguments();
        out.append(sdf_args.as_str());
        out.append(");\nreturn fill::fill(d, in.color, in.pos");
        let fill_args = key.fill_schema.call_arguments();
        out.append(fill_args.as_str());
        out.append(");\n}\n");
        proof {
            assert(out@ =~= key_source(*key, self.spec_f(), self.spec_u()));
        }
        out
    }

    /// Polls one key: if its program is already cached nothing happens; if
    /// both referenced fragments are available the program is generated and
    /// cached exactly once; otherwise the key stays pending, to be retried
    /// on a later frame.
    pub fn ensure_composed(&mut self, registry: &ShaderFragmentRegistry, key: &ShaderKey) -> (r:
        ComposeState)
        requires
            old(self).wf(),
        ensures
            final(self).wf(),
            final(self).spec_f() == old(self).spec_f(),
            final(self).spec_u() == old(self).spec_u(),
            final(self)@.len() >= old(self)@.len(),
            forall|i: int| 0 <= i < old(self)@.len() ==> final(self)@[i] == old(self)@[i],
            cache_has_key(old(self)@, *key) ==> final(self)@ == old(self)@ && r
                == ComposeState::Composed,
            !cache_has_key(old(self)@, *key) && fragment_available(registry@, key.sdf_shader)
                && fragment_available(registry@, key.fill_shader) ==> final(self)@.len() == old(
                self,
            )@.len() + 1 && r == ComposeState::Composed,
            !cache_has_key(old(self)@, *key) && !(fragment_available(registry@, key.sdf_shader)
                && fragment_available(registry@, key.fill_shader)) ==> final(self)@ == old(self)@
                && r == ComposeState::PendingImport,
            r == ComposeState::Composed <==> cache_has_key(final(self)@, *key),
    {
        if self.is_composed(key) {
            proof {
                lemma_cache_has_key_monotone(self@, self@, *key);
            }
            return ComposeState::Composed;
        }
        if !registry.available(key.sdf_shader) || !registry.available(key.fill_shader) {
            return ComposeState::PendingImport;
        }
        let source = self.generate_source(key);
        let program_id = self.cache.len() as u64;
        let entry = GeneratedProgram { key: key.duplicate(), source, program_id };
        let ghost before = self.cache@;
        self.cache.push(entry);
        proof {
            let n = before.len() as int;
            assert(key_matches(self.cache@[n].key, *key));
            lemma_equal_keys_equal_source(self.cache@[n].key, *key, self.spec_f(), self.spec_u());
            assert forall|i: int, j: int| 0 <= i < j < self.cache@.len() implies !key_matches(
                (#[trigger] self.cache@[i]).key,
                (#[trigger] self.cache@[j]).key,
            ) by {
                if j == n {
                    assert(!key_matches(self.cache@[i].key, *key));
                    lemma_key_matches_equiv(self.cache@[n].key, *key, self.cache@[i].key);
                    lemma_key_matches_symmetric(self.cache@[i].key, self.cache@[n].key);
                }
            }
        }
        ComposeState::Composed
    }

    /// Polls every key in `keys` once, in order: each key already cached is
    /// untouched, each key whose fragments are all available gains exactly
    /// one cache entry, and the rest stay pending. The cache only grows and
    /// no existing entry changes.
    pub fn compose_pass(&mut self, registry: &ShaderFragmentRegistry, keys: &Vec<ShaderKey>)
        requires
            old(self).wf(),
        ensures
            final(self).wf(),
            final(self).spec_f() == old(self).spec_f(),
            final(self).spec_u() == old(self).spec_u(),
            final(self)@.len() >= old(self)@.len(),
            forall|i: int| 0 <= i < old(self)@.len() ==> final(self)@[i] == old(self)@[i],
            forall|j: int|
                0 <= j < keys@.len() && (cache_has_key(old(self)@, #[trigger] keys@[j])
                    || (fragment_available(registry@, keys@[j].sdf_shader) && fragment_available(
                    registry@,
                    keys@[j].fill_shader,
                ))) ==> cache_has_key(final(self)@, keys@[j]),
    {
        let n = keys.len();
        let mut idx: usize = 0;
        while idx < n
            invariant
                n == keys@.len(),
                idx <= n,
                self.wf(),
                self.spec_f() == old(self).spec_f(),
                self.spec_u() == old(self).spec_u(),
                self@.len() >= old(self)@.len(),
                forall|i: int| 0 <= i < old(self)@.len() ==> self@[i] == old(self)@[i],
                forall|j: int|
                    0 <= j < idx && (cache_has_key(old(self)@, #[trigger] keys@[j])
                        || (fragment_available(registry@, keys@[j].sdf_shader)
                        && fragment_available(registry@, keys@[j].fill_shader))) ==> cache_has_key(
                        self@,
                        keys@[j],
                    ),
            decreases n - idx,
        {
            let ghost mid = self@;
            self.ensure_composed(registry, &keys[idx]);
            proof {
                assert forall|j: int|
                    0 <= j < idx + 1 && (cache_has_key(old(self)@, #[trigger] keys@[j])
                        || (fragment_available(registry@, keys@[j].sdf_shader)
                        && fragment_available(registry@, keys@[j].fill_shader))) implies
                    cache_has_key(self@, keys@[j]) by {
                    if j < idx {
                        lemma_cache_has_key_monotone(mid, self@, keys@[j]);
                    } else {
                        if cache_has_key(old(self)@, keys@[j]) {
                            lemma_cache_has_key_monotone(old(self)@, mid, keys@[j]);
                        }
                    }
                }
            }
            idx = idx + 1;
        }
    }
}

} // verus!
