//! A mesh: vertices, indices and textures, and the calls that set it up
//! and draw it.
//!
//! Nothing here touches the graphics API. Setting up and drawing are lists of
//! calls for the caller to make, in order; none of them depends on what an
//! earlier one answered.
use crate::convert::{reinterpret, to_signed};
use crate::shaders::ShaderProgram;
use vstd::prelude::*;
use vstd::string::*;

verus! {

/// What a texture of a mesh is used for.
#[derive(Debug, Clone, Copy, PartialEq, Eq, Structural)]
pub enum TextureType {
    DIFFUSE,
    SPECULAR,
}

/// A vertex: position and normal in space, and a point on the texture. Each
/// coordinate is held as the bits of a single-precision number.
#[derive(Debug, Clone, Copy, PartialEq, Eq)]
pub struct Vertex {
    pub position: [u32; 3],
    pub normal: [u32; 3],
    pub tex_coord: [u32; 2],
}

/// A texture of a mesh: the driver's name for it, and its use.
#[derive(Debug, Clone, Copy, PartialEq, Eq, Structural)]
pub struct Texture {
    pub id: u32,
    pub tex_type: TextureType,
}

/// The number of bytes that a vertex takes in a vertex buffer.
pub const VERTEX_SIZE: usize = 32;

/// The number of bytes that an index takes in an element buffer.
pub const INDEX_SIZE: usize = 4;

/// The targets a buffer can be bound to.
#[derive(Debug, Clone, Copy, PartialEq, Eq, Structural)]
pub enum BufferTarget {
    Array,
    ElementArray,
}

/// A call to make for a mesh.
#[derive(Debug, Clone, Copy, PartialEq, Eq, Structural)]
pub enum MeshCall {
    /// Bind a vertex array; zero binds none.
    BindVertexArray { array: u32 },
    /// Bind a buffer to a target.
    BindBuffer { target: BufferTarget, buffer: u32 },
    /// Fill the buffer bound to `target` with `size` bytes, for static
    /// drawing: the mesh's vertices for the array target, its indices for
    /// the element array target.
    BufferData { target: BufferTarget, size: isize },
    /// Enable a vertex attribute.
    EnableAttribute { index: u32 },
    /// Say where a vertex attribute lies in the bound array buffer: so many
    /// single-precision components, not normalized, `stride` bytes from one
    /// vertex to the next, `offset` bytes into each.
    AttributePointer { index: u32, components: i32, stride: i32, offset: usize },
    /// Make a texture unit the active one, counted from the first.
    ActiveTexture { unit: u32 },
    /// Set the integer uniform that is named after the use of a texture and
    /// its number among the textures of that use.
    SetTextureUniform { program: u32, tex_type: TextureType, number: u64, value: i32 },
    /// Bind a texture to the two-dimensional target.
    BindTexture { texture: u32 },
    /// Draw so many indices of the bound element buffer as triangles.
    DrawElements { count: i32 },
}

/// The decimal digit `digit`, which is below ten, as a character.
pub open spec fn digit_char(digit: nat) -> char {
    if digit == 0 {
        '0'
    } else if digit == 1 {
        '1'
    } else if digit == 2 {
        '2'
    } else if digit == 3 {
        '3'
    } else if digit == 4 {
        '4'
    } else if digit == 5 {
        '5'
    } else if digit == 6 {
        '6'
    } else if digit == 7 {
        '7'
    } else if digit == 8 {
        '8'
    } else {
        '9'
    }
}

/// The decimal numeral of `number`, without leading zeros.
pub open spec fn numeral(number: nat) -> Seq<char>
    decreases number,
{
    if number < 10 {
        seq![digit_char(number)]
    } else {
        numeral(number / 10).push(digit_char(number % 10))
    }
}

/// The name of the uniform for the `number`-th texture of a use.
pub open spec fn spec_uniform_name(tex_type: TextureType, number: nat) -> Seq<char> {
    match tex_type {
        TextureType::DIFFUSE => "material.texture_diffuse"@ + numeral(number),
        TextureType::SPECULAR => "material.texture_specular"@ + numeral(number),
    }
}

/// How many of `textures` have the use `tex_type`.
pub open spec fn count_of(textures: Seq<Texture>, tex_type: TextureType) -> nat
    decreases textures.len(),
{
    if textures.len() == 0 {
        0
    } else {
        count_of(textures.drop_last(), tex_type) + if textures.last().tex_type == tex_type {
            1nat
        } else {
            0nat
        }
    }
}

/// The three calls that bind the texture at `index`: its unit is made
/// active, its uniform is set to the unit's number, and it is bound.
pub open spec fn bind_calls(program: u32, textures: Seq<Texture>, index: int) -> Seq<MeshCall> {
    let texture = textures[index];
    seq![
        MeshCall::ActiveTexture { unit: index as u32 },
        MeshCall::SetTextureUniform {
            program,
            tex_type: texture.tex_type,
            number: (count_of(textures.take(index), texture.tex_type) + 1) as u64,
            value: reinterpret(index as u32) as i32,
        },
        MeshCall::BindTexture { texture: texture.id },
    ]
}

/// The calls that bind the first `upto` textures, in order.
pub open spec fn bind_all(program: u32, textures: Seq<Texture>, upto: int) -> Seq<MeshCall>
    decreases upto,
{
    if upto <= 0 {
        Seq::empty()
    } else {
        bind_all(program, textures, upto - 1) + bind_calls(program, textures, upto - 1)
    }
}

/// The calls that end a draw: the first unit is made active again, and the
/// indices are drawn with no vertex array bound.
pub open spec fn draw_tail(indices: nat) -> Seq<MeshCall> {
    seq![
        MeshCall::ActiveTexture { unit: 0 },
        MeshCall::BindVertexArray { array: 0 },
        MeshCall::DrawElements { count: indices as i32 },
        MeshCall::BindVertexArray { array: 0 },
    ]
}

/// The calls that set a mesh up, given the names that the driver generated.
pub open spec fn setup_calls(vao: u32, vbo: u32, ebo: u32, vertices: nat, indices: nat) -> Seq<
    MeshCall,
> {
    seq![
        MeshCall::BindVertexArray { array: vao },
        MeshCall::BindBuffer { target: BufferTarget::Array, buffer: vbo },
        MeshCall::BufferData { target: BufferTarget::Array, size: (vertices * 32) as isize },
        MeshCall::BindBuffer { target: BufferTarget::ElementArray, buffer: ebo },
        MeshCall::BufferData { target: BufferTarget::ElementArray, size: (indices * 4) as isize },
        MeshCall::EnableAttribute { index: 0 },
        MeshCall::AttributePointer { index: 0, components: 3, stride: 32, offset: 0 },
        MeshCall::EnableAttribute { index: 1 },
        MeshCall::AttributePointer { index: 1, components: 3, stride: 32, offset: 12 },
        MeshCall::EnableAttribute { index: 2 },
        MeshCall::AttributePointer { index: 2, components: 2, stride: 32, offset: 24 },
        MeshCall::BindVertexArray { array: 0 },
    ]
}

/// The character of a decimal digit.
fn digit_text(digit: u64) -> (text: &'static str)
    requires
        digit < 10,
    ensures
        text@ == seq![digit_char(digit as nat)],
{
    proof {
        reveal_strlit("0");
        reveal_strlit("1");
        reveal_strlit("2");
        reveal_strlit("3");
        reveal_strlit("4");
        reveal_strlit("5");
        reveal_strlit("6");
        reveal_strlit("7");
        reveal_strlit("8");
        reveal_strlit("9");
    }
    let text = if digit == 0 {
        "0"
    } else if digit == 1 {
        "1"
    } else if digit == 2 {
        "2"
    } else if digit == 3 {
        "3"
    } else if digit == 4 {
        "4"
    } else if digit == 5 {
        "5"
    } else if digit == 6 {
        "6"
    } else if digit == 7 {
        "7"
    } else if digit == 8 {
        "8"
    } else {
        "9"
    };
    assert(text@ =~= seq![digit_char(digit as nat)]);
    text
}

/// Appends the decimal numeral of `number` to `text`.
fn append_numeral(text: &mut String, number: u64)
    ensures
        final(text)@ == old(text)@ + numeral(number as nat),
    decreases number,
{
    if number < 10 {
        text.append(digit_text(number));
    } else {
        append_numeral(text, number / 10);
        text.append(digit_text(number % 10));
        assert(numeral(number as nat) =~= numeral((number / 10) as nat) + seq![
            digit_char((number % 10) as nat),
        ]);
        assert(old(text)@ + numeral((number / 10) as nat) + seq![
            digit_char((number % 10) as nat),
        ] =~= old(text)@ + numeral(number as nat));
    }
}

/// The name of the uniform for the `number`-th texture of a use:
/// `material.texture_diffuse` or `material.texture_specular`, followed by
/// the number in decimal.
pub fn uniform_name(tex_type: TextureType, number: u64) -> (name: String)
    ensures
        name@ == spec_uniform_name(tex_type, number as nat),
{
    let mut name = match tex_type {
        TextureType::DIFFUSE => String::from_str("material.texture_diffuse"),
        TextureType::SPECULAR => String::from_str("material.texture_specular"),
    };
    append_numeral(&mut name, number);
    name
}

/// A mesh and the driver's names for its vertex array and its two buffers.
pub struct Mesh {
    pub vertices: Vec<Vertex>,
    pub indices: Vec<u32>,
    pub textures: Vec<Texture>,
    vao: u32,
    vbo: u32,
    ebo: u32,
}

impl Mesh {
    /// The mesh's vertices.
    pub closed spec fn spec_vertices(&self) -> Seq<Vertex> {
        self.vertices@
    }

    /// The mesh's indices.
    pub closed spec fn spec_indices(&self) -> Seq<u32> {
        self.indices@
    }

    /// The mesh's textures, in the order of their units.
    pub closed spec fn spec_textures(&self) -> Seq<Texture> {
        self.textures@
    }

    /// The name of the mesh's vertex array.
    pub closed spec fn vertex_array(&self) -> u32 {
        self.vao
    }

    /// The name of the mesh's vertex buffer.
    pub closed spec fn vertex_buffer(&self) -> u32 {
        self.vbo
    }

    /// The name of the mesh's element buffer.
    pub closed spec fn element_buffer(&self) -> u32 {
        self.ebo
    }

    /// A mesh of the given parts, with the names that the driver generated
    /// for its vertex array, its vertex buffer and its element buffer.
    pub fn new(
        vertices: Vec<Vertex>,
        indices: Vec<u32>,
        textures: Vec<Texture>,
        vao: u32,
        vbo: u32,
        ebo: u32,
    ) -> (mesh: Self)
        ensures
            mesh.spec_vertices() == vertices@,
            mesh.spec_indices() == indices@,
            mesh.spec_textures() == textures@,
            mesh.vertex_array() == vao,
            mesh.vertex_buffer() == vbo,
            mesh.element_buffer() == ebo,
    {
        Mesh { vertices, indices, textures, vao, vbo, ebo }
    }

    /// The calls that set the mesh up: both buffers are filled, and the
    /// three attributes of a vertex are laid out, all within the mesh's
    /// vertex array.
    pub fn setup_mesh(&self) -> (calls: Vec<MeshCall>)
        requires
            self.spec_vertices().len() * 32 <= isize::MAX,
            self.spec_indices().len() * 4 <= isize::MAX,
        ensures
            calls@ == setup_calls(
                self.vertex_array(),
                self.vertex_buffer(),
                self.element_buffer(),
                self.spec_vertices().len(),
                self.spec_indices().len(),
            ),
    {
        let vertex_bytes: usize = self.vertices.len() * VERTEX_SIZE;
        let index_bytes: usize = self.indices.len() * INDEX_SIZE;
        let mut calls: Vec<MeshCall> = Vec::new();
        calls.push(MeshCall::BindVertexArray { array: self.vao });
        calls.push(MeshCall::BindBuffer { target: BufferTarget::Array, buffer: self.vbo });
        calls.push(MeshCall::BufferData { target: BufferTarget::Array, size: vertex_bytes as isize });
        calls.push(MeshCall::BindBuffer { target: BufferTarget::ElementArray, buffer: self.ebo });
        calls.push(
            MeshCall::BufferData { target: BufferTarget::ElementArray, size: index_bytes as isize },
        );
        calls.push(MeshCall::EnableAttribute { index: 0 });
        calls.push(MeshCall::AttributePointer { index: 0, components: 3, stride: 32, offset: 0 });
        calls.push(MeshCall::EnableAttribute { index: 1 });
        calls.push(MeshCall::AttributePointer { index: 1, components: 3, stride: 32, offset: 12 });
        calls.push(MeshCall::EnableAttribute { index: 2 });
        calls.push(MeshCall::AttributePointer { index: 2, components: 2, stride: 32, offset: 24 });
        calls.push(MeshCall::BindVertexArray { array: 0 });
        assert(calls@ =~= setup_calls(
            self.vao,
            self.vbo,
            self.ebo,
            self.vertices@.len(),
            self.indices@.len(),
        ));
        calls
    }

    /// The calls that draw the mesh with `shader`.
    ///
    /// Each texture gets the unit of its index, and the uniform named after
    /// its use and its number among the textures of that use, counted from
    /// one, is set to the unit. Then the indices are drawn.
    pub fn draw(&self, shader: &ShaderProgram) -> (calls: Vec<MeshCall>)
        ensures
            calls@ == bind_all(
                shader.shader_program_id,
                self.spec_textures(),
                self.spec_textures().len() as int,
            ) + draw_tail(self.spec_indices().len()),
    {
        let program = shader.shader_program_id;
        let mut calls: Vec<MeshCall> = Vec::new();
        let mut diffuse_seen: u64 = 0;
        let mut specular_seen: u64 = 0;
        let mut i: usize = 0;
        while i < self.textures.len()
            invariant
                i <= self.textures.len(),
                diffuse_seen == count_of(self.textures@.take(i as int), TextureType::DIFFUSE),
                specular_seen == count_of(self.textures@.take(i as int), TextureType::SPECULAR),
                diffuse_seen <= i,
                specular_seen <= i,
                calls@ == bind_all(program, self.textures@, i as int),
            decreases self.textures.len() - i,
        {
            let texture = self.textures[i];
            let unit: u32 = #[verifier::truncate]
            (i as u32);
            let number: u64 = match texture.tex_type {
                TextureType::DIFFUSE => diffuse_seen + 1,
                TextureType::SPECULAR => specular_seen + 1,
            };
            proof {
                assert(self.textures@.take(i + 1).drop_last() =~= self.textures@.take(i as int));
                assert(self.textures@.take(i + 1).last() == self.textures@[i as int]);
            }
            calls.push(MeshCall::ActiveTexture { unit });
            calls.push(
                MeshCall::SetTextureUniform {
                    program,
                    tex_type: texture.tex_type,
                    number,
                    value: to_signed(unit),
                },
            );
            calls.push(MeshCall::BindTexture { texture: texture.id });
            match texture.tex_type {
                TextureType::DIFFUSE => {
                    diffuse_seen = diffuse_seen + 1;
                },
                TextureType::SPECULAR => {
                    specular_seen = specular_seen + 1;
                },
            }
            assert(calls@ =~= bind_all(program, self.textures@, i as int) + bind_calls(
                program,
                self.textures@,
                i as int,
            ));
            i += 1;
        }
        let count: i32 = #[verifier::truncate]
        (self.indices.len() as i32);
        calls.push(MeshCall::ActiveTexture { unit: 0 });
        calls.push(MeshCall::BindVertexArray { array: 0 });
        calls.push(MeshCall::DrawElements { count });
        calls.push(MeshCall::BindVertexArray { array: 0 });
        assert(calls@ =~= bind_all(program, self.textures@, self.textures@.len() as int)
            + draw_tail(self.indices@.len()));
        calls
    }
}

} // verus!
