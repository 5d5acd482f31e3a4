//! Shader programs and the Param binding that connects uniform names to
//! resources. Connection is the fallible step: it succeeds exactly when
//! every uniform the shaders declare has a matching entry, by name and type.

use vstd::prelude::*;
use crate::renderer::{TextureHandle, SamplerHandle};

verus! {

/// The shading-language version a source string targets.
#[derive(Clone, Copy, PartialEq, Eq, Structural, Debug)]
pub enum ShaderVersion {
    Glsl150,
}

/// The type of a declared shader uniform.
#[derive(Clone, Copy, PartialEq, Eq, Structural, Debug)]
pub enum UniformType {
    Sampler2D,
    Scalar,
}

/// One uniform a shader declares: its name and its type.
pub struct UniformDecl {
    pub name: String,
    pub ty: UniformType,
}

/// A shader source: UTF-8 text tagged with its target version, together
/// with the uniforms the text declares.
pub struct ShaderSource {
    pub version: ShaderVersion,
    pub code: String,
    pub uniforms: Vec<UniformDecl>,
}

/// A compiled vertex/fragment source pair.
pub struct Program {
    pub vertex: ShaderSource,
    pub fragment: ShaderSource,
}

impl Program {
    /// All uniforms the program's two stages declare.
    pub open spec fn uniforms(self) -> Seq<UniformDecl> {
        self.vertex.uniforms@ + self.fragment.uniforms@
    }
}

/// A resource bound to a uniform slot.
pub enum ParamValue {
    /// A texture together with an optional sampler configuration.
    TextureSampler(TextureHandle, Option<SamplerHandle>),
    /// A plain scalar value.
    Scalar(i32),
}

impl ParamValue {
    /// The uniform type this value can fill.
    pub open spec fn spec_kind(self) -> UniformType {
        match self {
            ParamValue::TextureSampler(_, _) => UniformType::Sampler2D,
            ParamValue::Scalar(_) => UniformType::Scalar,
        }
    }

    /// The uniform type this value can fill.
    pub fn kind(&self) -> (r: UniformType)
        ensures
            r == self.spec_kind(),
    {
        match self {
            ParamValue::TextureSampler(_, _) => UniformType::Sampler2D,
            ParamValue::Scalar(_) => UniformType::Scalar,
        }
    }
}

/// One named binding supplied at connection time.
pub struct ParamEntry {
    pub name: String,
    pub value: ParamValue,
}

/// The full set of bindings supplied at connection time.
pub struct ParamSet {
    pub entries: Vec<ParamEntry>,
}

/// The failure of a connection: a declared uniform with no matching entry.
#[derive(Debug)]
pub struct BindError {
    /// The name of the first declared uniform that no entry matches.
    pub uniform: String,
}

/// Entry `e` fills declaration `d`: same name and a value of the right type.
pub open spec fn entry_matches(e: ParamEntry, d: UniformDecl) -> bool {
    e.name@ == d.name@ && e.value.spec_kind() == d.ty
}

/// Some entry in the set fills declaration `d`.
pub open spec fn decl_satisfied(entries: Seq<ParamEntry>, d: UniformDecl) -> bool {
    exists|j: int| 0 <= j < entries.len() && entry_matches(entries[j], d)
}

/// Every declared uniform is filled by some entry.
pub open spec fn params_satisfy(entries: Seq<ParamEntry>, decls: Seq<UniformDecl>) -> bool {
    forall|i: int| 0 <= i < decls.len() ==> decl_satisfied(entries, #[trigger] decls[i])
}

/// Scan the entries for one that fills the declaration.
pub(crate) fn find_matching(entries: &Vec<ParamEntry>, d: &UniformDecl) -> (r: bool)
    ensures
        r == decl_satisfied(entries@, *d),
{
    let mut j: usize = 0;
    while j < entries.len()
        invariant
            j <= entries@.len(),
            forall|k: int| 0 <= k < j ==> !entry_matches(entries@[k], *d),
        decreases entries@.len() - j,
    {
        let e = &entries[j];
        if e.name == d.name && e.value.kind() == d.ty {
            assert(entry_matches(entries@[j as int], *d));
            return true;
        }
        j = j + 1;
    }
    false
}

/// Check a full binding set against a program's declared uniforms. Returns
/// the index of the first unfilled declaration, if any.
pub(crate) fn first_unsatisfied(entries: &Vec<ParamEntry>, decls: &Vec<UniformDecl>) -> (r: Option<usize>)
    ensures
        r is None <==> params_satisfy(entries@, decls@),
        match r {
            Some(i) => i < decls@.len() && !decl_satisfied(entries@, decls@[i as int]),
            None => true,
        },
{
    let mut i: usize = 0;
    while i < decls.len()
        invariant
            i <= decls@.len(),
            forall|k: int| 0 <= k < i ==> decl_satisfied(entries@, #[trigger] decls@[k]),
        decreases decls@.len() - i,
    {
        if !find_matching(entries, &decls[i]) {
            return Some(i);
        }
        i = i + 1;
    }
    None
}

} // verus!
