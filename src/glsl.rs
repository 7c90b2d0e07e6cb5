//! The shading-language versions a context can compile.
//!
//! A fixed table of language versions is walked in order; each entry is kept
//! when the context's version or a compatibility extension unlocks it. The table
//! holds both the embedded and the desktop language families, and a desktop
//! context may report entries of both.
use vstd::prelude::*;
use crate::extensions::ExtensionsList;
use crate::query::{Query, SHADER_COMPILER, StateQuery, same_answers};
use crate::version::{Api, Version, at_least_spec, at_most_spec};

verus! {

/// Number of entries of the language table.
pub const GLSL_TABLE_LEN: usize = 16;

/// The language table, in output order.
pub open spec fn glsl_entry_spec(i: int) -> Version {
    if i == 0 { Version(Api::GlEs, 1, 0) }
    else if i == 1 { Version(Api::GlEs, 3, 0) }
    else if i == 2 { Version(Api::GlEs, 3, 1) }
    else if i == 3 { Version(Api::GlEs, 3, 2) }
    else if i == 4 { Version(Api::Gl, 1, 1) }
    else if i == 5 { Version(Api::Gl, 1, 2) }
    else if i == 6 { Version(Api::Gl, 1, 3) }
    else if i == 7 { Version(Api::Gl, 1, 4) }
    else if i == 8 { Version(Api::Gl, 1, 5) }
    else if i == 9 { Version(Api::Gl, 3, 3) }
    else if i == 10 { Version(Api::Gl, 4, 0) }
    else if i == 11 { Version(Api::Gl, 4, 1) }
    else if i == 12 { Version(Api::Gl, 4, 2) }
    else if i == 13 { Version(Api::Gl, 4, 3) }
    else if i == 14 { Version(Api::Gl, 4, 4) }
    else { Version(Api::Gl, 4, 5) }
}

/// Entry `i` of the language table is unlocked for a context of version `v` with
/// the extensions `e`.
pub open spec fn glsl_unlocked_spec(i: int, v: Version, e: ExtensionsList) -> bool {
    if i == 0 {
        at_least_spec(v, Api::GlEs, 2, 0) || at_least_spec(v, Api::Gl, 4, 1) || e.gl_arb_es2_compatibility
    } else if i == 1 {
        at_least_spec(v, Api::GlEs, 3, 0) || at_least_spec(v, Api::Gl, 4, 3) || e.gl_arb_es3_compatibility
    } else if i == 2 {
        at_least_spec(v, Api::GlEs, 3, 1) || at_least_spec(v, Api::Gl, 4, 5) || e.gl_arb_es3_1_compatibility
    } else if i == 3 {
        at_least_spec(v, Api::GlEs, 3, 2) || e.gl_arb_es3_2_compatibility
    } else if i == 4 {
        (at_least_spec(v, Api::Gl, 2, 0) && at_most_spec(v, Api::Gl, 3, 0)) || e.gl_arb_compatibility
    } else if i == 5 {
        (at_least_spec(v, Api::Gl, 2, 1) && at_most_spec(v, Api::Gl, 3, 0)) || e.gl_arb_compatibility
    } else if i == 6 {
        v == Version(Api::Gl, 3, 0) || e.gl_arb_compatibility
    } else if i == 7 {
        at_least_spec(v, Api::Gl, 3, 1)
    } else if i == 8 {
        at_least_spec(v, Api::Gl, 3, 2)
    } else {
        at_least_spec(v, Api::Gl, glsl_entry_spec(i).1, glsl_entry_spec(i).2)
    }
}

/// The unlocked entries among the first `n` of the table, in table order.
pub open spec fn glsl_prefix(v: Version, e: ExtensionsList, n: nat) -> Seq<Version>
    decreases n,
{
    if n == 0 {
        Seq::empty()
    } else {
        let rest = glsl_prefix(v, e, (n - 1) as nat);
        if glsl_unlocked_spec(n - 1, v, e) {
            rest.push(glsl_entry_spec(n - 1))
        } else {
            rest
        }
    }
}

/// Every unlocked entry of the table, in table order.
pub open spec fn glsl_versions_spec(v: Version, e: ExtensionsList) -> Seq<Version> {
    glsl_prefix(v, e, GLSL_TABLE_LEN as nat)
}

/// What a context reports: nothing for an embedded context without a compiler,
/// the unlocked entries of the table otherwise.
pub open spec fn supported_glsl_spec(v: Version, e: ExtensionsList, has_compiler: bool) -> Seq<Version> {
    if v.0 == Api::GlEs && !has_compiler {
        Seq::empty()
    } else {
        glsl_versions_spec(v, e)
    }
}

/// An embedded context without a compiler reports no shading-language version,
/// whatever its version numbers and extensions.
pub proof fn lemma_no_compiler_no_glsl(v: Version, e: ExtensionsList)
    requires
        v.0 == Api::GlEs,
    ensures
        supported_glsl_spec(v, e, false) == Seq::<Version>::empty(),
{
}

/// The queries sent while the shading-language versions are listed: the
/// compiler probe on an embedded context, nothing on a desktop one.
pub open spec fn glsl_queries(v: Version) -> Seq<Query> {
    if v.0 == Api::GlEs {
        seq![Query::Boolean(SHADER_COMPILER)]
    } else {
        Seq::empty()
    }
}

fn glsl_entry(i: usize) -> (r: Version)
    requires
        i < GLSL_TABLE_LEN,
    ensures
        r == glsl_entry_spec(i as int),
{
    match i {
        0 => Version(Api::GlEs, 1, 0),
        1 => Version(Api::GlEs, 3, 0),
        2 => Version(Api::GlEs, 3, 1),
        3 => Version(Api::GlEs, 3, 2),
        4 => Version(Api::Gl, 1, 1),
        5 => Version(Api::Gl, 1, 2),
        6 => Version(Api::Gl, 1, 3),
        7 => Version(Api::Gl, 1, 4),
        8 => Version(Api::Gl, 1, 5),
        9 => Version(Api::Gl, 3, 3),
        10 => Version(Api::Gl, 4, 0),
        11 => Version(Api::Gl, 4, 1),
        12 => Version(Api::Gl, 4, 2),
        13 => Version(Api::Gl, 4, 3),
        14 => Version(Api::Gl, 4, 4),
        _ => Version(Api::Gl, 4, 5),
    }
}

fn glsl_unlocked(i: usize, v: &Version, e: &ExtensionsList) -> (r: bool)
    requires
        i < GLSL_TABLE_LEN,
    ensures
        r == glsl_unlocked_spec(i as int, *v, *e),
{
    if i == 0 {
        v.at_least(Api::GlEs, 2, 0) || v.at_least(Api::Gl, 4, 1) || e.gl_arb_es2_compatibility
    } else if i == 1 {
        v.at_least(Api::GlEs, 3, 0) || v.at_least(Api::Gl, 4, 3) || e.gl_arb_es3_compatibility
    } else if i == 2 {
        v.at_least(Api::GlEs, 3, 1) || v.at_least(Api::Gl, 4, 5) || e.gl_arb_es3_1_compatibility
    } else if i == 3 {
        v.at_least(Api::GlEs, 3, 2) || e.gl_arb_es3_2_compatibility
    } else if i == 4 {
        (v.at_least(Api::Gl, 2, 0) && v.at_most(Api::Gl, 3, 0)) || e.gl_arb_compatibility
    } else if i == 5 {
        (v.at_least(Api::Gl, 2, 1) && v.at_most(Api::Gl, 3, 0)) || e.gl_arb_compatibility
    } else if i == 6 {
        *v == Version(Api::Gl, 3, 0) || e.gl_arb_compatibility
    } else if i == 7 {
        v.at_least(Api::Gl, 3, 1)
    } else if i == 8 {
        v.at_least(Api::Gl, 3, 2)
    } else {
        let entry = glsl_entry(i);
        v.at_least(Api::Gl, entry.1, entry.2)
    }
}

/// The shading-language versions of a context of version `version` with the
/// extensions `extensions`, given whether it has a shader compiler. Only an
/// embedded context can lack one; the flag is ignored for a desktop context.
pub fn supported_glsl(version: &Version, extensions: &ExtensionsList, has_compiler: bool) -> (r: Vec<Version>)
    ensures
        r@ == supported_glsl_spec(*version, *extensions, has_compiler),
{
    let mut result: Vec<Version> = Vec::new();
    if version.0 == Api::GlEs && !has_compiler {
        return result;
    }
    let mut i: usize = 0;
    while i < GLSL_TABLE_LEN
        invariant
            i <= GLSL_TABLE_LEN,
            result@ == glsl_prefix(*version, *extensions, i as nat),
        decreases GLSL_TABLE_LEN - i,
    {
        if glsl_unlocked(i, version, extensions) {
            result.push(glsl_entry(i));
        }
        i = i + 1;
    }
    result
}

/// Gets the list of shading-language versions that the context behind `gl`
/// compiles. The compiler is probed only on an embedded context, where it is
/// optional; without one the list is empty.
pub fn get_supported_glsl<Q: StateQuery>(gl: &mut Q, version: &Version, extensions: &ExtensionsList) -> (r: Vec<Version>)
    ensures
        r@ == supported_glsl_spec(*version, *extensions, old(gl).boolean_of(SHADER_COMPILER) != 0),
        final(gl).issued()@ == old(gl).issued()@ + glsl_queries(*version),
        same_answers(old(gl), final(gl)),
{
    proof {
        reveal(same_answers);
    }
    let has_compiler = if version.0 == Api::GlEs {
        gl.get_boolean(SHADER_COMPILER) != 0
    } else {
        true
    };
    assert(gl.issued()@ =~= old(gl).issued()@ + glsl_queries(*version));
    supported_glsl(version, extensions, has_compiler)
}

} // verus!
