use vstd::prelude::*;

verus! {

/// How the vertices of a model are assembled into primitives.
#[derive(Clone, Copy, Debug, PartialEq, Eq, Structural)]
pub enum PrimitiveTopology {
    Undefined,
    PointList,
    LineList,
    LineStrip,
    TriangleList,
    TriangleStrip,
    LineListAdj,
    LineStripAdj,
    TriangleListAdj,
    TriangleStripAdj,
}

/// The Direct3D 11 value (`D3D_PRIMITIVE_TOPOLOGY`) of each topology.
pub open spec fn d3d_topology(t: PrimitiveTopology) -> i32 {
    match t {
        PrimitiveTopology::Undefined => 0,
        PrimitiveTopology::PointList => 1,
        PrimitiveTopology::LineList => 2,
        PrimitiveTopology::LineStrip => 3,
        PrimitiveTopology::TriangleList => 4,
        PrimitiveTopology::TriangleStrip => 5,
        PrimitiveTopology::LineListAdj => 10,
        PrimitiveTopology::LineStripAdj => 11,
        PrimitiveTopology::TriangleListAdj => 12,
        PrimitiveTopology::TriangleStripAdj => 13,
    }
}

impl PrimitiveTopology {
    /// Triangle lists are what models are made of unless they say otherwise.
    pub fn default() -> (r: Self)
        ensures
            r == PrimitiveTopology::TriangleList,
    {
        PrimitiveTopology::TriangleList
    }

    /// The Direct3D 11 value of this topology.
    pub fn dx11(&self) -> (r: i32)
        ensures
            r == d3d_topology(*self),
    {
        match self {
            PrimitiveTopology::Undefined => 0,
            PrimitiveTopology::PointList => 1,
            PrimitiveTopology::LineList => 2,
            PrimitiveTopology::LineStrip => 3,
            PrimitiveTopology::TriangleList => 4,
            PrimitiveTopology::TriangleStrip => 5,
            PrimitiveTopology::LineListAdj => 10,
            PrimitiveTopology::LineStripAdj => 11,
            PrimitiveTopology::TriangleListAdj => 12,
            PrimitiveTopology::TriangleStripAdj => 13,
        }
    }
}

/// Distinct topologies have distinct Direct3D values.
pub proof fn lemma_d3d_topology_injective(a: PrimitiveTopology, b: PrimitiveTopology)
    ensures
        d3d_topology(a) == d3d_topology(b) ==> a == b,
{
}

/// The file formats a model can be loaded from.
#[derive(Clone, Copy, Debug, PartialEq, Eq, Structural)]
pub enum ModelKind {
    Obj,
}

impl ModelKind {
    pub fn default() -> (r: Self)
        ensures
            r == ModelKind::Obj,
    {
        ModelKind::Obj
    }
}

/// Where a model is found: a file and the index of the model in it.
#[derive(Debug)]
pub struct ModelLocationDescription {
    pub file: String,
    pub index: usize,
}

/// The stage a shader runs at.
#[derive(Clone, Copy, Debug, PartialEq, Eq, Structural)]
pub enum ShaderKind {
    Vertex,
    Pixel,
}

/// The name of each shader stage.
pub open spec fn shader_kind_name(k: ShaderKind) -> Seq<char> {
    match k {
        ShaderKind::Vertex => seq!['V', 'e', 'r', 't', 'e', 'x'],
        ShaderKind::Pixel => seq!['P', 'i', 'x', 'e', 'l'],
    }
}

/// The compiler target of each shader stage: shader model 5.0.
pub open spec fn shader_target(k: ShaderKind) -> Seq<char> {
    match k {
        ShaderKind::Vertex => seq!['v', 's', '_', '5', '_', '0'],
        ShaderKind::Pixel => seq!['p', 's', '_', '5', '_', '0'],
    }
}

impl ShaderKind {
    /// The stage's name.
    pub fn to_string(&self) -> (r: String)
        ensures
            r@ == shader_kind_name(*self),
    {
        match self {
            ShaderKind::Vertex => {
                let s = String::from_str("Vertex");
                proof {
                    reveal_strlit("Vertex");
                }
                s
            },
            ShaderKind::Pixel => {
                let s = String::from_str("Pixel");
                proof {
                    reveal_strlit("Pixel");
                }
                s
            },
        }
    }

    /// The compiler target for this stage.
    pub fn target(&self) -> (r: String)
        ensures
            r@ == shader_target(*self),
    {
        match self {
            ShaderKind::Vertex => {
                let s = String::from_str("vs_5_0");
                proof {
                    reveal_strlit("vs_5_0");
                }
                s
            },
            ShaderKind::Pixel => {
                let s = String::from_str("ps_5_0");
                proof {
                    reveal_strlit("ps_5_0");
                }
                s
            },
        }
    }
}

/// A shader as a shader description file lists it.
#[derive(Debug)]
pub struct ShaderDescription {
    pub identifier: String,
    pub kind: ShaderKind,
    pub path: String,
    pub entrypoint: String,
}

/// Why a shader description cannot be compiled.
#[derive(Clone, Copy, Debug, PartialEq, Eq, Structural)]
pub enum ShaderError {
    /// The entry point's name holds a NUL character, so it cannot be passed
    /// to the compiler as a C string.
    NulInEntrypoint,
}

/// Whether `s` holds a NUL character.
pub open spec fn has_nul(s: Seq<char>) -> bool {
    exists|i: int| 0 <= i < s.len() && s[i] == '\0'
}

/// What `std::path::Path::join` makes of `folder` and `path`, as text.
pub uninterp spec fn path_joined(folder: Seq<char>, path: Seq<char>) -> Seq<char>;

/// `Path::join` of std, on paths given as text: `path` below `folder` with
/// the platform's separator between them, or `path` alone where it is
/// absolute. Claimed: the result is `path_joined` of the two; the text is
/// taken back whole, as both parts are valid UTF-8.
#[verifier::external_body]
fn join_path(folder: &str, path: &str) -> (r: String)
    ensures
        r@ == path_joined(folder@, path@),
{
    std::path::Path::new(folder).join(path).to_string_lossy().into_owned()
}

impl ShaderDescription {
    /// What the compiler is given for this shader: its file, the shader's
    /// path below `shader_folder`; the target of its stage; and its entry
    /// point. An entry point that holds a NUL character cannot be passed on.
    pub fn get(&self, shader_folder: &str) -> (r: Result<(String, String, String), ShaderError>)
        ensures
            has_nul(self.entrypoint@) ==> r == Err::<(String, String, String), ShaderError>(
                ShaderError::NulInEntrypoint,
            ),
            !has_nul(self.entrypoint@) ==> (r matches Ok((file, target, entry)) && file@ == path_joined(
                shader_folder@,
                self.path@,
            ) && target@ == shader_target(self.kind) && entry@ == self.entrypoint@),
    {
        let s = self.entrypoint.as_str();
        let n = s.unicode_len();
        let mut i: usize = 0;
        while i < n
            invariant
                n == self.entrypoint@.len(),
                s@ == self.entrypoint@,
                i <= n,
                forall|j: int| 0 <= j < i ==> self.entrypoint@[j] != '\0',
            decreases n - i,
        {
            if s.get_char(i) == '\0' {
                return Err(ShaderError::NulInEntrypoint);
            }
            i = i + 1;
        }
        let file = join_path(shader_folder, self.path.as_str());
        Ok((file, self.kind.target(), self.entrypoint.clone()))
    }
}

} // verus!
