//! Registry of shader source fragments.
//!
//! Application code registers the raw WGSL text of an SDF or fill function
//! together with its [`ParameterSchema`]; the registry wraps the text into an
//! importable module, assigns it a fresh identity, and hands back an opaque
//! handle. Identities are allocated from a monotonic counter (the entry's
//! position), so two registrations can never collide, and entries are never
//! mutated once their source is present.
//!
//! A fragment may also be registered before its text is available (it is
//! still being loaded); such an entry owns an identity and a schema but no
//! source, and providing the text later is the only change an entry ever
//! sees. The composer treats a shape whose fragments are not all available
//! as pending and simply retries on a later frame.

use vstd::prelude::*;

use crate::schema::def_string;
use crate::schema::ParameterSchema;
use crate::text::dec_of;
use crate::text::push_dec_u64;

verus! {

/// The role a fragment plays in a composed shader.
#[derive(Debug, Clone, Copy, PartialEq, Eq, Structural)]
pub enum FragmentRole {
    /// A signed-distance function `sdf(p, ...) -> f32`.
    Sdf,
    /// A fill function `fill(d, color, p, ...) -> vec4<f32>`.
    Fill,
}

/// An opaque reference to one registered fragment.
#[derive(Debug, Clone, Copy, PartialEq, Eq, Hash, Structural)]
pub struct FragmentHandle {
    /// The fragment's unique identity.
    pub id: u64,
}

/// One registered shader fragment: a unique identity, the role and schema
/// given at registration, and the wrapped module source once available.
#[derive(Debug)]
pub struct ShaderFragment {
    /// Unique importable identity, equal to the entry's position.
    pub identity: u64,
    /// Whether this is an SDF or a fill function.
    pub role: FragmentRole,
    /// The parameter slots the fragment's function consumes.
    pub schema: ParameterSchema,
    /// The importable module text; absent while the fragment is still being
    /// loaded.
    pub source: Option<String>,
}

/// The import path of a fragment module: `smud::sdf<id>` or `smud::fill<id>`.
pub open spec fn import_path(role: FragmentRole, id: nat) -> Seq<char> {
    (match role {
        FragmentRole::Sdf => "smud::sdf"@,
        FragmentRole::Fill => "smud::fill"@,
    }) + dec_of(id)
}

/// The importable module text wrapping an SDF body: the body is inserted
/// verbatim into `fn sdf(p: vec2<f32>, <schema args>) -> f32`.
pub open spec fn sdf_module_source(
    id: nat,
    body: Seq<char>,
    schema: Seq<crate::schema::ParameterSlot>,
) -> Seq<char> {
    "\n#define_import_path smud::sdf"@ + dec_of(id) + "\n\n#import smud\n\nfn sdf(p: vec2<f32>"@
        + def_string(schema) + ") -> f32 {\n    "@ + body + "\n}\n"@
}

/// The importable module text wrapping a fill body: the body is inserted
/// verbatim into `fn fill(d: f32, color: vec4<f32>, p: vec2<f32>, <schema
/// args>) -> vec4<f32>`.
pub open spec fn fill_module_source(
    id: nat,
    body: Seq<char>,
    schema: Seq<crate::schema::ParameterSlot>,
) -> Seq<char> {
    "\n#define_import_path smud::fill"@ + dec_of(id)
        + "\n\n#import smud\n\nfn fill(d: f32, color: vec4<f32>, p: vec2<f32>"@ + def_string(schema)
        + ") -> vec4<f32> {\n    "@ + body + "\n}\n"@
}

/// The expression form of a body: `return <expr>;`.
pub open spec fn expr_body(expr: Seq<char>) -> Seq<char> {
    "return "@ + expr + ";"@
}

/// The wrapped module text for a fragment of the given role.
pub open spec fn module_source(
    role: FragmentRole,
    id: nat,
    body: Seq<char>,
    schema: Seq<crate::schema::ParameterSlot>,
) -> Seq<char> {
    match role {
        FragmentRole::Sdf => sdf_module_source(id, body, schema),
        FragmentRole::Fill => fill_module_source(id, body, schema),
    }
}

/// True when `h` names an entry of `frags` whose module text is present.
pub open spec fn fragment_available(frags: Seq<ShaderFragment>, h: FragmentHandle) -> bool {
    h.id < frags.len() && frags[h.id as int].source is Some
}

/// No two entries share an identity: identity is per registration, never
/// per content.
pub open spec fn identities_distinct(frags: Seq<ShaderFragment>) -> bool {
    forall|i: int, j: int|
        0 <= i < j < frags.len() ==> (#[trigger] frags[i]).identity != (#[trigger] frags[j]).identity
}

/// A well-formed registry: each entry's identity is its position. Holds for
/// every registry this module hands out, and every method keeps it.
pub open spec fn registry_wf(frags: Seq<ShaderFragment>) -> bool {
    forall|i: int| 0 <= i < frags.len() ==> (#[trigger] frags[i]).identity == i
}

/// In a well-formed registry, identities never collide: identity is per
/// registration, never per content, so registering the same text twice still
/// yields two distinct identities.
pub proof fn lemma_identities_distinct(frags: Seq<ShaderFragment>)
    requires
        registry_wf(frags),
    ensures
        identities_distinct(frags),
{
}

/// Owns every registered fragment; never drops or overwrites one.
#[derive(Debug)]
pub struct ShaderFragmentRegistry {
    fragments: Vec<ShaderFragment>,
}

impl View for ShaderFragmentRegistry {
    type V = Seq<ShaderFragment>;

    closed spec fn view(&self) -> Seq<ShaderFragment> {
        self.fragments@
    }
}

impl ShaderFragmentRegistry {
    /// An empty registry.
    pub fn new() -> (r: Self)
        ensures
            r@ == Seq::<ShaderFragment>::empty(),
            registry_wf(r@),
    {
        ShaderFragmentRegistry { fragments: Vec::new() }
    }

    /// How many fragments have been registered.
    pub fn len(&self) -> (r: usize)
        ensures
            r == self@.len(),
    {
        self.fragments.len()
    }

    /// Appends a fragment whose module text is already present.
    fn add_fragment(&mut self, role: FragmentRole, schema: ParameterSchema, source: String) -> (h:
        FragmentHandle)
        requires
            registry_wf(old(self)@),
        ensures
            registry_wf(final(self)@),
            h.id == old(self)@.len(),
            final(self)@.len() == old(self)@.len() + 1,
            forall|i: int| 0 <= i < old(self)@.len() ==> final(self)@[i] == old(self)@[i],
            final(self)@[h.id as int].identity == h.id,
            final(self)@[h.id as int].role == role,
            final(self)@[h.id as int].schema@ == schema@,
            final(self)@[h.id as int].source matches Some(s) && s@ == source@,
    {
        let id = self.fragments.len() as u64;
        self.fragments.push(
            ShaderFragment { identity: id, role, schema, source: Some(source) },
        );
        FragmentHandle { id }
    }

    /// Appends a fragment whose module text is not yet available.
    fn add_fragment_pending(&mut self, role: FragmentRole, schema: ParameterSchema) -> (h:
        FragmentHandle)
        requires
            registry_wf(old(self)@),
        ensures
            registry_wf(final(self)@),
            h.id == old(self)@.len(),
            final(self)@.len() == old(self)@.len() + 1,
            forall|i: int| 0 <= i < old(self)@.len() ==> final(self)@[i] == old(self)@[i],
            final(self)@[h.id as int].identity == h.id,
            final(self)@[h.id as int].role == role,
            final(self)@[h.id as int].schema@ == schema@,
            final(self)@[h.id as int].source is None,
    {
        let id = self.fragments.len() as u64;
        self.fragments.push(ShaderFragment { identity: id, role, schema, source: None });
        FragmentHandle { id }
    }

    /// Builds the wrapped module text for a body registered now.
    fn wrap_module(role: FragmentRole, id: u64, body: &str, schema: &ParameterSchema) -> (r: String)
        ensures
            r@ == module_source(role, id as nat, body@, schema@),
    {
        proof {
            reveal_strlit("\n#define_import_path smud::sdf");
            reveal_strlit("\n#define_import_path smud::fill");
            reveal_strlit("\n\n#import smud\n\nfn sdf(p: vec2<f32>");
            reveal_strlit("\n\n#import smud\n\nfn fill(d: f32, color: vec4<f32>, p: vec2<f32>");
            reveal_strlit(") -> f32 {\n    ");
            reveal_strlit(") -> vec4<f32> {\n    ");
            reveal_strlit("\n}\n");
        }
        let mut out = String::new();
        match role {
            FragmentRole::Sdf => out.append("\n#define_import_path smud::sdf"),
            FragmentRole::Fill => out.append("\n#define_import_path smud::fill"),
        }
        push_dec_u64(&mut out, id);
        match role {
            FragmentRole::Sdf => out.append("\n\n#import smud\n\nfn sdf(p: vec2<f32>"),
            FragmentRole::Fill => out.append(
                "\n\n#import smud\n\nfn fill(d: f32, color: vec4<f32>, p: vec2<f32>",
            ),
        }
        let args = schema.func_def_arguments();
        out.append(args.as_str());
        match role {
            FragmentRole::Sdf => out.append(") -> f32 {\n    "),
            FragmentRole::Fill => out.append(") -> vec4<f32> {\n    "),
        }
        out.append(body);
        out.append("\n}\n");
        proof {
            assert(out@ =~= module_source(role, id as nat, body@, schema@));
        }
        out
    }

    /// Creates an sdf fragment from the given WGSL body text.
    pub fn add_sdf_body(&mut self, sdf: &str, schema: &ParameterSchema) -> (h: FragmentHandle)
        requires
            registry_wf(old(self)@),
        ensures
            registry_wf(final(self)@),
            h.id == old(self)@.len(),
            final(self)@.len() == old(self)@.len() + 1,
            forall|i: int| 0 <= i < old(self)@.len() ==> final(self)@[i] == old(self)@[i],
            final(self)@[h.id as int].identity == h.id,
            final(self)@[h.id as int].role == FragmentRole::Sdf,
            final(self)@[h.id as int].schema@ == schema@,
            final(self)@[h.id as int].source matches Some(s) && s@ == sdf_module_source(
                h.id as nat,
                sdf@,
                schema@,
            ),
    {
        let id = self.len() as u64;
        let source = Self::wrap_module(FragmentRole::Sdf, id, sdf, schema);
        self.add_fragment(FragmentRole::Sdf, schema.duplicate(), source)
    }

    /// Creates a fill fragment from the given WGSL body text.
    pub fn add_fill_body(&mut self, fill: &str, schema: &ParameterSchema) -> (h: FragmentHandle)
        requires
            registry_wf(old(self)@),
        ensures
            registry_wf(final(self)@),
            h.id == old(self)@.len(),
            final(self)@.len() == old(self)@.len() + 1,
            forall|i: int| 0 <= i < old(self)@.len() ==> final(self)@[i] == old(self)@[i],
            final(self)@[h.id as int].identity == h.id,
            final(self)@[h.id as int].role == FragmentRole::Fill,
            final(self)@[h.id as int].schema@ == schema@,
            final(self)@[h.id as int].source matches Some(s) && s@ == fill_module_source(
                h.id as nat,
                fill@,
                schema@,
            ),
    {
        let id = self.len() as u64;
        let source = Self::wrap_module(FragmentRole::Fill, id, fill, schema);
        self.add_fragment(FragmentRole::Fill, schema.duplicate(), source)
    }

    /// Creates an sdf fragment from a WGSL expression, wrapped into a
    /// `return <expr>;` body.
    pub fn add_sdf_expr(&mut self, sdf: &str, schema: &ParameterSchema) -> (h: FragmentHandle)
        requires
            registry_wf(old(self)@),
        ensures
            registry_wf(final(self)@),
            h.id == old(self)@.len(),
            final(self)@.len() == old(self)@.len() + 1,
            forall|i: int| 0 <= i < old(self)@.len() ==> final(self)@[i] == old(self)@[i],
            final(self)@[h.id as int].identity == h.id,
            final(self)@[h.id as int].role == FragmentRole::Sdf,
            final(self)@[h.id as int].schema@ == schema@,
            final(self)@[h.id as int].source matches Some(s) && s@ == sdf_module_source(
                h.id as nat,
                expr_body(sdf@),
                schema@,
            ),
    {
        proof {
            reveal_strlit("return ");
            reveal_strlit(";");
        }
        let mut body = String::new();
        body.append("return ");
        body.append(sdf);
        body.append(";");
        proof {
            assert(body@ =~= expr_body(sdf@));
        }
        self.add_sdf_body(body.as_str(), schema)
    }

    /// Creates a fill fragment from a WGSL expression, wrapped into a
    /// `return <expr>;` body.
    pub fn add_fill_expr(&mut self, fill: &str, schema: &ParameterSchema) -> (h: FragmentHandle)
        requires
            registry_wf(old(self)@),
        ensures
            registry_wf(final(self)@),
            h.id == old(self)@.len(),
            final(self)@.len() == old(self)@.len() + 1,
            forall|i: int| 0 <= i < old(self)@.len() ==> final(self)@[i] == old(self)@[i],
            final(self)@[h.id as int].identity == h.id,
            final(self)@[h.id as int].role == FragmentRole::Fill,
            final(self)@[h.id as int].schema@ == schema@,
            final(self)@[h.id as int].source matches Some(s) && s@ == fill_module_source(
                h.id as nat,
                expr_body(fill@),
                schema@,
            ),
    {
        proof {
            reveal_strlit("return ");
            reveal_strlit(";");
        }
        let mut body = String::new();
        body.append("return ");
        body.append(fill);
        body.append(";");
        proof {
            assert(body@ =~= expr_body(fill@));
        }
        self.add_fill_body(body.as_str(), schema)
    }

    /// Reserves an identity for an sdf fragment whose text is still being
    /// loaded.
    pub fn add_sdf_pending(&mut self, schema: &ParameterSchema) -> (h: FragmentHandle)
        requires
            registry_wf(old(self)@),
        ensures
            registry_wf(final(self)@),
            h.id == old(self)@.len(),
            final(self)@.len() == old(self)@.len() + 1,
            forall|i: int| 0 <= i < old(self)@.len() ==> final(self)@[i] == old(self)@[i],
            final(self)@[h.id as int].identity == h.id,
            final(self)@[h.id as int].role == FragmentRole::Sdf,
            final(self)@[h.id as int].schema@ == schema@,
            final(self)@[h.id as int].source is None,
    {
        self.add_fragment_pending(FragmentRole::Sdf, schema.duplicate())
    }

    /// Reserves an identity for a fill fragment whose text is still being
    /// loaded.
    pub fn add_fill_pending(&mut self, schema: &ParameterSchema) -> (h: FragmentHandle)
        requires
            registry_wf(old(self)@),
        ensures
            registry_wf(final(self)@),
            h.id == old(self)@.len(),
            final(self)@.len() == old(self)@.len() + 1,
            forall|i: int| 0 <= i < old(self)@.len() ==> final(self)@[i] == old(self)@[i],
            final(self)@[h.id as int].identity == h.id,
            final(self)@[h.id as int].role == FragmentRole::Fill,
            final(self)@[h.id as int].schema@ == schema@,
            final(self)@[h.id as int].source is None,
    {
        self.add_fragment_pending(FragmentRole::Fill, schema.duplicate())
    }

    /// Provides the body text of a pending fragment. The entry keeps its
    /// identity, role and schema; this is the only mutation an entry ever
    /// undergoes.
    pub fn provide_body(&mut self, h: FragmentHandle, body: &str)
        requires
            registry_wf(old(self)@),
            h.id < old(self)@.len(),
            old(self)@[h.id as int].source is None,
        ensures
            registry_wf(final(self)@),
            final(self)@.len() == old(self)@.len(),
            forall|i: int|
                0 <= i < final(self)@.len() && i != h.id as int ==> final(self)@[i] == old(self)@[i],
            final(self)@[h.id as int].identity == old(self)@[h.id as int].identity,
            final(self)@[h.id as int].role == old(self)@[h.id as int].role,
            final(self)@[h.id as int].schema@ == old(self)@[h.id as int].schema@,
            final(self)@[h.id as int].source matches Some(s) && s@ == module_source(
                old(self)@[h.id as int].role,
                h.id as nat,
                body@,
                old(self)@[h.id as int].schema@,
            ),
    {
        let n = self.fragments.len();
        let idx: usize = h.id as usize;
        let role = match self.fragments[idx].role {
            FragmentRole::Sdf => FragmentRole::Sdf,
            FragmentRole::Fill => FragmentRole::Fill,
        };
        let source = Self::wrap_module(role, h.id, body, &self.fragments[idx].schema);
        self.fragments[idx].source = Some(source);
    }

    /// Whether the fragment behind `h` exists and its module text is
    /// present.
    pub fn available(&self, h: FragmentHandle) -> (r: bool)
        ensures
            r == fragment_available(self@, h),
    {
        if h.id >= self.fragments.len() as u64 {
            return false;
        }
        let idx: usize = h.id as usize;
        self.fragments[idx].source.is_some()
    }

    /// The fragment behind `h`.
    pub fn fragment(&self, h: FragmentHandle) -> (r: &ShaderFragment)
        requires
            h.id < self@.len(),
        ensures
            r == self@[h.id as int],
    {
        let n = self.fragments.len();
        let idx: usize = h.id as usize;
        &self.fragments[idx]
    }
}

} // verus!
