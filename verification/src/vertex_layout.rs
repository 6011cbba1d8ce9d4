//! Per-instance vertex layout and vertex-shader source, generated from the
//! active parameter capacity.
//!
//! The layout is a pure function of the configured float-parameter count `f`
//! and uint-parameter count `u` (a global capability ceiling, not a per-shape
//! value). The packed wire format per instance is, in bytes:
//! `[color:16][frame:4][float params:4*f][uint params:4*u][position:12]
//! [rotation:8][scale:4]`, one 4-byte word per scalar, for a stride of
//! `4 * (11 + f + u)`.
//!
//! Attribute byte offsets follow that fixed field order, which is also the
//! alphabetical order of the field names (`color`, `frame`, `param_f_*`,
//! `param_u_*`, `position`, `rotation`, `scale`); shader input locations
//! instead follow the order the generated vertex-stage struct declares
//! (`position` at 0, `color` at 1, parameters from 2, then `rotation`,
//! `scale`, `frame`), so location and offset order differ and both are
//! computed here, per `f` and `u`.

use vstd::prelude::*;

use crate::text::dec_of;
use crate::text::push_dec_u32;

verus! {

/// The data format of one vertex attribute.
#[derive(Debug, Clone, Copy, PartialEq, Eq, Structural)]
pub enum VertexFormat {
    /// One 32-bit float.
    Float32,
    /// Two 32-bit floats.
    Float32x2,
    /// Three 32-bit floats.
    Float32x3,
    /// Four 32-bit floats.
    Float32x4,
    /// One 32-bit unsigned integer.
    Uint32,
}

/// One entry of the per-instance vertex buffer layout.
#[derive(Debug, Clone, Copy, PartialEq, Eq, Structural)]
pub struct VertexAttribute {
    /// The attribute's data format.
    pub format: VertexFormat,
    /// Byte offset from the start of one packed instance.
    pub offset: u64,
    /// The shader input location consuming this attribute.
    pub shader_location: u32,
}

/// The color attribute: four floats at byte offset 0, location 1.
pub open spec fn color_attribute() -> VertexAttribute {
    VertexAttribute { format: VertexFormat::Float32x4, offset: 0, shader_location: 1 }
}

/// The frame attribute: one float after the color, at the last location.
pub open spec fn frame_attribute(f: nat, u: nat) -> VertexAttribute {
    VertexAttribute { format: VertexFormat::Float32, offset: 16, shader_location: (f + u + 4) as u32 }
}

/// The float parameter attribute at slot `i`.
pub open spec fn float_param_attribute(i: nat) -> VertexAttribute {
    VertexAttribute {
        format: VertexFormat::Float32,
        offset: (20 + 4 * i) as u64,
        shader_location: (2 + i) as u32,
    }
}

/// The uint parameter attribute at slot `j`, following all float slots.
pub open spec fn uint_param_attribute(f: nat, j: nat) -> VertexAttribute {
    VertexAttribute {
        format: VertexFormat::Uint32,
        offset: (20 + 4 * f + 4 * j) as u64,
        shader_location: (2 + f + j) as u32,
    }
}

/// The position attribute: three floats after the parameters, location 0.
pub open spec fn position_attribute(f: nat, u: nat) -> VertexAttribute {
    VertexAttribute {
        format: VertexFormat::Float32x3,
        offset: (20 + 4 * (f + u)) as u64,
        shader_location: 0,
    }
}

/// The rotation attribute: two floats after the position.
pub open spec fn rotation_attribute(f: nat, u: nat) -> VertexAttribute {
    VertexAttribute {
        format: VertexFormat::Float32x2,
        offset: (32 + 4 * (f + u)) as u64,
        shader_location: (f + u + 2) as u32,
    }
}

/// The scale attribute: one float after the rotation.
pub open spec fn scale_attribute(f: nat, u: nat) -> VertexAttribute {
    VertexAttribute {
        format: VertexFormat::Float32,
        offset: (40 + 4 * (f + u)) as u64,
        shader_location: (f + u + 3) as u32,
    }
}

/// The full attribute list for a configuration of `f` float and `u` uint
/// parameter slots, in byte-offset order.
pub open spec fn layout_attributes(f: nat, u: nat) -> Seq<VertexAttribute> {
    seq![color_attribute(), frame_attribute(f, u)] + Seq::new(f, |i: int| float_param_attribute(i as nat))
        + Seq::new(u, |j: int| uint_param_attribute(f, j as nat)) + seq![
        position_attribute(f, u),
        rotation_attribute(f, u),
        scale_attribute(f, u),
    ]
}

/// The packed byte stride of one instance: `4 * (11 + f + u)`.
pub open spec fn layout_stride(f: nat, u: nat) -> nat {
    4 * (11 + f + u)
}

/// The per-instance vertex attribute list for `f` float and `u` uint
/// parameter slots, with explicit byte offsets and shader locations.
pub fn vertex_attributes(f: u32, u: u32) -> (r: Vec<VertexAttribute>)
    requires
        f <= 32,
        u <= 32,
    ensures
        r@ == layout_attributes(f as nat, u as nat),
{
    let mut attrs: Vec<VertexAttribute> = Vec::new();
    attrs.push(
        VertexAttribute { format: VertexFormat::Float32x4, offset: 0, shader_location: 1 },
    );
    attrs.push(
        VertexAttribute { format: VertexFormat::Float32, offset: 16, shader_location: f + u + 4 },
    );
    let mut i: u32 = 0;
    while i < f
        invariant
            i <= f <= 32,
            u <= 32,
            attrs@ == seq![color_attribute(), frame_attribute(f as nat, u as nat)] + Seq::new(
                i as nat,
                |k: int| float_param_attribute(k as nat),
            ),
        decreases f - i,
    {
        attrs.push(
            VertexAttribute {
                format: VertexFormat::Float32,
                offset: (20 + 4 * i) as u64,
                shader_location: 2 + i,
            },
        );
        proof {
            assert(attrs@ =~= seq![color_attribute(), frame_attribute(f as nat, u as nat)]
                + Seq::new((i + 1) as nat, |k: int| float_param_attribute(k as nat)));
        }
        i = i + 1;
    }
    let mut j: u32 = 0;
    while j < u
        invariant
            i == f,
            j <= u <= 32,
            f <= 32,
            attrs@ == seq![color_attribute(), frame_attribute(f as nat, u as nat)] + Seq::new(
                f as nat,
                |k: int| float_param_attribute(k as nat),
            ) + Seq::new(j as nat, |k: int| uint_param_attribute(f as nat, k as nat)),
        decreases u - j,
    {
        attrs.push(
            VertexAttribute {
                format: VertexFormat::Uint32,
                offset: (20 + 4 * f + 4 * j) as u64,
                shader_location: 2 + f + j,
            },
        );
        proof {
            assert(attrs@ =~= seq![color_attribute(), frame_attribute(f as nat, u as nat)]
                + Seq::new(f as nat, |k: int| float_param_attribute(k as nat)) + Seq::new(
                (j + 1) as nat,
                |k: int| uint_param_attribute(f as nat, k as nat),
            ));
        }
        j = j + 1;
    }
    attrs.push(
        VertexAttribute {
            format: VertexFormat::Float32x3,
            offset: (20 + 4 * (f + u)) as u64,
            shader_location: 0,
        },
    );
    attrs.push(
        VertexAttribute {
            format: VertexFormat::Float32x2,
            offset: (32 + 4 * (f + u)) as u64,
            shader_location: f + u + 2,
        },
    );
    attrs.push(
        VertexAttribute {
            format: VertexFormat::Float32,
            offset: (40 + 4 * (f + u)) as u64,
            shader_location: f + u + 3,
        },
    );
    proof {
        assert(attrs@ =~= layout_attributes(f as nat, u as nat));
    }
    attrs
}

/// The byte stride of one packed instance for the given configuration.
pub fn vertex_array_stride(f: u32, u: u32) -> (r: u64)
    requires
        f <= 32,
        u <= 32,
    ensures
        r == layout_stride(f as nat, u as nat),
{
    4 * (11 + f as u64 + u as u64)
}

/// The stable asset identity of the generated vertex shader for a
/// configuration; distinct configurations in range map to distinct values.
pub fn get_vertex_handle(f: u32, u: u32) -> (r: u128)
    requires
        f <= 32,
        u <= 32,
    ensures
        r == 16846632126033267571u128 + (f as u128) * 2875688479u128 + (u as u128)
            * 8693298443u128,
{
    let id: u128 = 16846632126033267571u128;
    id + (f as u128) * 2875688479u128 + (u as u128) * 8693298443u128
}

/// The `@location(..) param_..` struct-field lines for float slots `i..f`.
pub open spec fn float_loc_lines(f: nat, i: nat) -> Seq<char>
    decreases f - i,
{
    if i >= f {
        Seq::<char>::empty()
    } else {
        "@location("@ + dec_of(i + 2) + ") param_f_"@ + dec_of(i) + ": f32,\n"@ + float_loc_lines(
            f,
            i + 1,
        )
    }
}

/// The `@location(..) param_..` struct-field lines for uint slots `j..u`,
/// whose locations follow all `f` float slots.
pub open spec fn uint_loc_lines(f: nat, u: nat, j: nat) -> Seq<char>
    decreases u - j,
{
    if j >= u {
        Seq::<char>::empty()
    } else {
        "@location("@ + dec_of(f + j + 2) + ") param_u_"@ + dec_of(j) + ": u32,\n"@
            + uint_loc_lines(f, u, j + 1)
    }
}

/// The parameter field lines of the generated vertex and fragment structs:
/// one `@location` line per declared slot, floats first.
pub open spec fn params_locations_string(f: nat, u: nat) -> Seq<char> {
    float_loc_lines(f, 0) + uint_loc_lines(f, u, 0)
}

/// Writes one `@location(<loc>) param_<kind>_<i>: <ty>,` line.
fn push_loc_line(out: &mut String, loc: u32, float_kind: bool, i: u32)
    ensures
        final(out)@ == old(out)@ + (if float_kind {
            "@location("@ + dec_of(loc as nat) + ") param_f_"@ + dec_of(i as nat) + ": f32,\n"@
        } else {
            "@location("@ + dec_of(loc as nat) + ") param_u_"@ + dec_of(i as nat) + ": u32,\n"@
        }),
{
    proof {
        reveal_strlit("@location(");
        reveal_strlit(") param_f_");
        reveal_strlit(") param_u_");
        reveal_strlit(": f32,\n");
        reveal_strlit(": u32,\n");
    }
    out.append("@location(");
    push_dec_u32(out, loc);
    if float_kind {
        out.append(") param_f_");
    } else {
        out.append(") param_u_");
    }
    push_dec_u32(out, i);
    if float_kind {
        out.append(": f32,\n");
    } else {
        out.append(": u32,\n");
    }
    proof {
        if float_kind {
            assert(out@ =~= old(out)@ + ("@location("@ + dec_of(loc as nat) + ") param_f_"@
                + dec_of(i as nat) + ": f32,\n"@));
        } else {
            assert(out@ =~= old(out)@ + ("@location("@ + dec_of(loc as nat) + ") param_u_"@
                + dec_of(i as nat) + ": u32,\n"@));
        }
    }
}

/// Appends the parameter `@location` field lines for the configuration.
pub fn push_params_locations(out: &mut String, f: u32, u: u32)
    requires
        f <= 32,
        u <= 32,
    ensures
        final(out)@ == old(out)@ + params_locations_string(f as nat, u as nat),
{
    let mut i: u32 = 0;
    while i < f
        invariant
            i <= f <= 32,
            u <= 32,
            out@ + float_loc_lines(f as nat, i as nat) == old(out)@ + float_loc_lines(f as nat, 0),
        decreases f - i,
    {
        let ghost before = out@;
        push_loc_line(out, i + 2, true, i);
        proof {
            assert(float_loc_lines(f as nat, i as nat) == "@location("@ + dec_of((i + 2) as nat)
                + ") param_f_"@ + dec_of(i as nat) + ": f32,\n"@ + float_loc_lines(
                f as nat,
                i as nat + 1,
            ));
            assert(out@ + float_loc_lines(f as nat, (i + 1) as nat) =~= before + float_loc_lines(
                f as nat,
                i as nat,
            ));
        }
        i = i + 1;
    }
    let mut j: u32 = 0;
    while j < u
        invariant
            i == f,
            j <= u <= 32,
            f <= 32,
            out@ + uint_loc_lines(f as nat, u as nat, j as nat) == old(out)@ + float_loc_lines(
                f as nat,
                0,
            ) + uint_loc_lines(f as nat, u as nat, 0),
        decreases u - j,
    {
        let ghost before = out@;
        push_loc_line(out, f + j + 2, false, j);
        proof {
            assert(uint_loc_lines(f as nat, u as nat, j as nat) == "@location("@ + dec_of(
                (f + j + 2) as nat,
            ) + ") param_u_"@ + dec_of(j as nat) + ": u32,\n"@ + uint_loc_lines(
                f as nat,
                u as nat,
                j as nat + 1,
            ));
            assert(out@ + uint_loc_lines(f as nat, u as nat, (j + 1) as nat) =~= before
                + uint_loc_lines(f as nat, u as nat, j as nat));
        }
        j = j + 1;
    }
    proof {
        assert(out@ =~= old(out)@ + params_locations_string(f as nat, u as nat));
    }
}

/// The vertex-stage parameter field lines for the configuration, as used in
/// both the generated vertex shader and the composed fragment shader.
pub fn format_params_locations(f: u32, u: u32) -> (r: String)
    requires
        f <= 32,
        u <= 32,
    ensures
        r@ == params_locations_string(f as nat, u as nat),
{
    let mut out = String::new();
    push_params_locations(&mut out, f, u);
    proof {
        assert(out@ =~= params_locations_string(f as nat, u as nat));
    }
    out
}

/// The `out.param_.. = vertex.param_..;` lines for float slots `i..f`.
pub open spec fn float_assign_lines(f: nat, i: nat) -> Seq<char>
    decreases f - i,
{
    if i >= f {
        Seq::<char>::empty()
    } else {
        "    out.param_f_"@ + dec_of(i) + " = vertex.param_f_"@ + dec_of(i) + ";\n"@
            + float_assign_lines(f, i + 1)
    }
}

/// The `out.param_.. = vertex.param_..;` lines for uint slots `j..u`.
pub open spec fn uint_assign_lines(u: nat, j: nat) -> Seq<char>
    decreases u - j,
{
    if j >= u {
        Seq::<char>::empty()
    } else {
        "    out.param_u_"@ + dec_of(j) + " = vertex.param_u_"@ + dec_of(j) + ";\n"@
            + uint_assign_lines(u, j + 1)
    }
}

/// All parameter pass-through assignments of the generated vertex stage.
pub open spec fn params_assignments_string(f: nat, u: nat) -> Seq<char> {
    float_assign_lines(f, 0) + uint_assign_lines(u, 0)
}

/// Writes one parameter pass-through assignment line.
fn push_assign_line(out: &mut String, float_kind: bool, i: u32)
    ensures
        final(out)@ == old(out)@ + (if float_kind {
            "    out.param_f_"@ + dec_of(i as nat) + " = vertex.param_f_"@ + dec_of(i as nat)
                + ";\n"@
        } else {
            "    out.param_u_"@ + dec_of(i as nat) + " = vertex.param_u_"@ + dec_of(i as nat)
                + ";\n"@
        }),
{
    proof {
        reveal_strlit("    out.param_f_");
        reveal_strlit("    out.param_u_");
        reveal_strlit(" = vertex.param_f_");
        reveal_strlit(" = vertex.param_u_");
        reveal_strlit(";\n");
    }
    if float_kind {
        out.append("    out.param_f_");
    } else {
        out.append("    out.param_u_");
    }
    push_dec_u32(out, i);
    if float_kind {
        out.append(" = vertex.param_f_");
    } else {
        out.append(" = vertex.param_u_");
    }
    push_dec_u32(out, i);
    out.append(";\n");
    proof {
        if float_kind {
            assert(out@ =~= old(out)@ + ("    out.param_f_"@ + dec_of(i as nat)
                + " = vertex.param_f_"@ + dec_of(i as nat) + ";\n"@));
        } else {
            assert(out@ =~= old(out)@ + ("    out.param_u_"@ + dec_of(i as nat)
                + " = vertex.param_u_"@ + dec_of(i as nat) + ";\n"@));
        }
    }
}

/// Appends all parameter pass-through assignments for the configuration.
pub fn push_params_assignments(out: &mut String, f: u32, u: u32)
    requires
        f <= 32,
        u <= 32,
    ensures
        final(out)@ == old(out)@ + params_assignments_string(f as nat, u as nat),
{
    let mut i: u32 = 0;
    while i < f
        invariant
            i <= f <= 32,
            u <= 32,
            out@ + float_assign_lines(f as nat, i as nat) == old(out)@ + float_assign_lines(
                f as nat,
                0,
            ),
        decreases f - i,
    {
        let ghost before = out@;
        push_assign_line(out, true, i);
        proof {
            assert(out@ + float_assign_lines(f as nat, (i + 1) as nat) =~= before
                + float_assign_lines(f as nat, i as nat));
        }
        i = i + 1;
    }
    let mut j: u32 = 0;
    while j < u
        invariant
            i == f,
            j <= u <= 32,
            f <= 32,
            out@ + uint_assign_lines(u as nat, j as nat) == old(out)@ + float_assign_lines(
                f as nat,
                0,
            ) + uint_assign_lines(u as nat, 0),
        decreases u - j,
    {
        let ghost before = out@;
        push_assign_line(out, false, j);
        proof {
            assert(out@ + uint_assign_lines(u as nat, (j + 1) as nat) =~= before + uint_assign_lines(
                u as nat,
                j as nat,
            ));
        }
        j = j + 1;
    }
    proof {
        assert(out@ =~= old(out)@ + params_assignments_string(f as nat, u as nat));
    }
}

/// The complete generated vertex-stage program for the configuration: it
/// consumes exactly the layout of [`layout_attributes`], expands each
/// instance into a 4-vertex triangle-strip quad, rotates and scales the
/// corner by the instance transform, and passes the unrotated, frame-scaled
/// corner to the fragment stage as the SDF-space position.
pub open spec fn vertex_shader_source(f: nat, u: nat) -> Seq<char> {
    "\n#define_import_path smud::vertex_params_"@ + dec_of(f) + "_"@ + dec_of(u)
        + "\n\nstruct View {\n    view_proj: mat4x4<f32>,\n    world_position: vec3<f32>,\n};\n@group(0) @binding(0)\nvar<uniform> view: View;\n\nstruct Vertex {\n@location(0) position: vec3<f32>,\n@location(1) color: vec4<f32>,\n"@
        + params_locations_string(f, u) + "@location("@ + dec_of(f + u + 2)
        + ") rotation: vec2<f32>,\n@location("@ + dec_of(f + u + 3)
        + ") scale: f32,\n@location("@ + dec_of(f + u + 4)
        + ") frame: f32,\n};\n\nstruct VertexOutput {\n@builtin(position) clip_position: vec4<f32>,\n@location(0) color: vec4<f32>,\n@location(1) pos: vec2<f32>,\n"@
        + params_locations_string(f, u)
        + "};\n\n@vertex\nfn vertex(\n    vertex: Vertex,\n    @builtin(vertex_index) i: u32\n) -> VertexOutput {\nvar out: VertexOutput;\nlet x = select(-1., 1., i % 2u == 0u);\nlet y = select(-1., 1., (i / 2u) % 2u == 0u);\nlet c = vertex.rotation.x;\nlet s = vertex.rotation.y;\nlet rotated = vec2<f32>(x * c - y * s, x * s + y * c);\nlet pos = vertex.position + vec3<f32>(rotated * vertex.scale * vertex.frame, vertex.position.z);\nout.clip_position = view.view_proj * vec4<f32>(pos, 1.);\nout.color = vertex.color;\n"@
        + params_assignments_string(f, u)
        + "out.pos = vec2<f32>(x, y) * vertex.frame;\nreturn out;\n}\n"@
}

/// Creates the vertex shader with the correct number of parameter slots.
pub fn create_vertex_shader(f: u32, u: u32) -> (r: String)
    requires
        f <= 32,
        u <= 32,
    ensures
        r@ == vertex_shader_source(f as nat, u as nat),
{
    proof {
        reveal_strlit("\n#define_import_path smud::vertex_params_");
        reveal_strlit("_");
        reveal_strlit("@location(");
        reveal_strlit(") rotation: vec2<f32>,\n@location(");
        reveal_strlit(") scale: f32,\n@location(");
    }
    let mut out = String::new();
    out.append("\n#define_import_path smud::vertex_params_");
    push_dec_u32(&mut out, f);
    out.append("_");
    push_dec_u32(&mut out, u);
    out.append(
        "\n\nstruct View {\n    view_proj: mat4x4<f32>,\n    world_position: vec3<f32>,\n};\n@group(0) @binding(0)\nvar<uniform> view: View;\n\nstruct Vertex {\n@location(0) position: vec3<f32>,\n@location(1) color: vec4<f32>,\n",
    );
    push_params_locations(&mut out, f, u);
    out.append("@location(");
    push_dec_u32(&mut out, f + u + 2);
    out.append(") rotation: vec2<f32>,\n@location(");
    push_dec_u32(&mut out, f + u + 3);
    out.append(") scale: f32,\n@location(");
    push_dec_u32(&mut out, f + u + 4);
    out.append(
        ") frame: f32,\n};\n\nstruct VertexOutput {\n@builtin(position) clip_position: vec4<f32>,\n@location(0) color: vec4<f32>,\n@location(1) pos: vec2<f32>,\n",
    );
    push_params_locations(&mut out, f, u);
    out.append(
        "};\n\n@vertex\nfn vertex(\n    vertex: Vertex,\n    @builtin(vertex_index) i: u32\n) -> VertexOutput {\nvar out: VertexOutput;\nlet x = select(-1., 1., i % 2u == 0u);\nlet y = select(-1., 1., (i / 2u) % 2u == 0u);\nlet c = vertex.rotation.x;\nlet s = vertex.rotation.y;\nlet rotated = vec2<f32>(x * c - y * s, x * s + y * c);\nlet pos = vertex.position + vec3<f32>(rotated * vertex.scale * vertex.frame, vertex.position.z);\nout.clip_position = view.view_proj * vec4<f32>(pos, 1.);\nout.color = vertex.color;\n",
    );
    push_params_assignments(&mut out, f, u);
    out.append("out.pos = vec2<f32>(x, y) * vertex.frame;\nreturn out;\n}\n");
    proof {
        assert(out@ =~= vertex_shader_source(f as nat, u as nat));
    }
    out
}

} // verus!
