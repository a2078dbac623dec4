//! How a shape is to be rendered: its texture, whether it is drawn through
//! indices, its topology, its cull mode and its shader.

use vstd::prelude::*;

verus! {

/// Whether a shape is drawn through its index buffer. It is unless told
/// otherwise.
#[derive(Clone, Copy, Debug, PartialEq, Eq, Structural)]
pub struct Indexed(pub bool);

impl Default for Indexed {
    fn default() -> (r: Self)
        ensures
            r == Indexed(true),
    {
        Indexed(true)
    }
}

/// The bytes of an image file to texture a shape with. No bytes: no texture.
#[derive(Clone, Debug, PartialEq, Eq)]
pub struct TextureBuffer(pub Vec<u8>);

impl View for TextureBuffer {
    type V = Seq<u8>;

    open spec fn view(&self) -> Seq<u8> {
        self.0@
    }
}

impl Default for TextureBuffer {
    fn default() -> (r: Self)
        ensures
            r@ == Seq::<u8>::empty(),
    {
        TextureBuffer(Vec::new())
    }
}

impl TextureBuffer {
    /// Whether there are no bytes.
    pub fn is_empty(&self) -> (r: bool)
        ensures
            r == (self@.len() == 0),
    {
        self.0.len() == 0
    }
}

/// How consecutive vertices form triangles.
#[derive(Clone, Copy, Debug, PartialEq, Eq, Structural)]
pub enum ModelTopology {
    /// Every three vertices form a triangle of their own.
    TriangleList,
    /// Every vertex forms a triangle with the two before it.
    TriangleStrip,
}

impl Default for ModelTopology {
    fn default() -> (r: Self)
        ensures
            r == ModelTopology::TriangleList,
    {
        ModelTopology::TriangleList
    }
}

/// Which faces are left out of the drawing.
#[derive(Clone, Copy, Debug, PartialEq, Eq, Structural)]
pub enum ModelCullMode {
    /// Every face is drawn.
    Off,
    /// Faces that show their front are left out.
    Front,
    /// Faces that show their back are left out.
    Back,
}

impl Default for ModelCullMode {
    fn default() -> (r: Self)
        ensures
            r == ModelCullMode::Off,
    {
        ModelCullMode::Off
    }
}

/// Which of the caller's shader programs draws the shape, by its number.
#[derive(Clone, Copy, Debug, PartialEq, Eq, Structural)]
pub struct Shader(pub u32);

impl Default for Shader {
    fn default() -> (r: Self)
        ensures
            r == Shader(0),
    {
        Shader(0)
    }
}

/// How a shape is to be rendered. It is fixed when the shape is made.
#[derive(Clone, Debug, PartialEq, Eq)]
pub struct RenderConfig {
    pub texture: TextureBuffer,
    pub indexed: Indexed,
    pub topology: ModelTopology,
    pub cull_mode: ModelCullMode,
    pub shader: Shader,
}

/// Mathematical content of a [`RenderConfig`].
pub struct RenderConfigView {
    pub texture: Seq<u8>,
    pub indexed: bool,
    pub topology: ModelTopology,
    pub cull_mode: ModelCullMode,
    pub shader: Shader,
}

impl View for RenderConfig {
    type V = RenderConfigView;

    open spec fn view(&self) -> RenderConfigView {
        RenderConfigView {
            texture: self.texture@,
            indexed: self.indexed.0,
            topology: self.topology,
            cull_mode: self.cull_mode,
            shader: self.shader,
        }
    }
}

impl RenderConfigView {
    /// The shape has a texture.
    pub open spec fn textured(self) -> bool {
        self.texture.len() > 0
    }
}

/// The configuration of a shape that was told nothing: no texture, drawn
/// through indices as a triangle list, nothing culled, the first shader.
pub open spec fn default_render_config() -> RenderConfigView {
    RenderConfigView {
        texture: Seq::<u8>::empty(),
        indexed: true,
        topology: ModelTopology::TriangleList,
        cull_mode: ModelCullMode::Off,
        shader: Shader(0),
    }
}

impl Default for RenderConfig {
    fn default() -> (r: Self)
        ensures
            r@ == default_render_config(),
    {
        RenderConfig {
            texture: TextureBuffer(Vec::new()),
            indexed: Indexed(true),
            topology: ModelTopology::TriangleList,
            cull_mode: ModelCullMode::Off,
            shader: Shader(0),
        }
    }
}

} // verus!
