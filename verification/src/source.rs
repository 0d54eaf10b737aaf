//! The shader texts the renderer is built from.
//!
//! A caller supplies only the body of `mainImage`; the full fragment
//! program is the fixed prefix, then the body, then the fixed suffix.
//! The vertex stage is the same fixed source for every program.

use vstd::prelude::*;
use vstd::string::StringExecFns;

verus! {

/// The fixed vertex stage: forwards the `position` attribute to clip space.
pub open spec fn spec_vertex_shader_source() -> Seq<char> {
    "#version 300 es\n    in vec4 position;\n\n    void main() {\n        gl_Position = position;\n    }\n"@
}

pub fn vertex_shader_source() -> (r: &'static str)
    ensures
        r@ == spec_vertex_shader_source(),
{
    "#version 300 es\n    in vec4 position;\n\n    void main() {\n        gl_Position = position;\n    }\n"
}

/// Declares precision, the output colour variable and the three standard
/// uniforms; the caller's body must define
/// `mainImage(out vec4 fragColor, in vec2 fragCoord)` after it.
pub open spec fn spec_fragment_prefix() -> Seq<char> {
    "#version 300 es\n    precision highp float;\n    out vec4 outColor;\n    uniform vec2 iResolution;\n    uniform vec2 iMouse;\n    uniform float iTime;\n"@
}

pub fn fragment_prefix() -> (r: &'static str)
    ensures
        r@ == spec_fragment_prefix(),
{
    "#version 300 es\n    precision highp float;\n    out vec4 outColor;\n    uniform vec2 iResolution;\n    uniform vec2 iMouse;\n    uniform float iTime;\n"
}

/// Defines `main()` as one call of `mainImage` on the built-in fragment
/// coordinate.
pub open spec fn spec_fragment_suffix() -> Seq<char> {
    "\n    void main() {\n        mainImage(outColor, gl_FragCoord.xy);\n    }\n"@
}

pub fn fragment_suffix() -> (r: &'static str)
    ensures
        r@ == spec_fragment_suffix(),
{
    "\n    void main() {\n        mainImage(outColor, gl_FragCoord.xy);\n    }\n"
}

/// The body installed right after construction: a uniform gray fill,
/// so the renderer is drawable before any caller-supplied shader.
pub open spec fn spec_default_fragment_body() -> Seq<char> {
    "\n    void mainImage( out vec4 fragColor, in vec2 fragCoord )\n    {\n        fragColor = vec4(0.5);\n    }\n"@
}

pub fn default_fragment_body() -> (r: &'static str)
    ensures
        r@ == spec_default_fragment_body(),
{
    "\n    void mainImage( out vec4 fragColor, in vec2 fragCoord )\n    {\n        fragColor = vec4(0.5);\n    }\n"
}

/// What a full fragment program is: the fixed prefix, the caller's body,
/// the fixed suffix, in that order and nothing else.
pub open spec fn spec_assembled_fragment_source(body: Seq<char>) -> Seq<char> {
    spec_fragment_prefix() + body + spec_fragment_suffix()
}

pub fn assemble_fragment_source(body: &str) -> (r: String)
    ensures
        r@ == spec_assembled_fragment_source(body@),
{
    let mut s = String::from_str(fragment_prefix());
    s.append(body);
    s.append(fragment_suffix());
    s
}

/// The two stage sources a host must hand to the driver for one
/// `set_shader` request.
pub struct ShaderSources {
    pub vertex: String,
    pub fragment: String,
}

pub fn shader_sources(body: &str) -> (r: ShaderSources)
    ensures
        r.vertex@ == spec_vertex_shader_source(),
        r.fragment@ == spec_assembled_fragment_source(body@),
{
    ShaderSources {
        vertex: String::from_str(vertex_shader_source()),
        fragment: assemble_fragment_source(body),
    }
}

} // verus!
