//! Static mesh upload planning.
//!
//! Uploading a mesh is a fixed sequence of driver commands: bind the vertex
//! array, bind the buffer, copy the vertex bytes, declare and enable one
//! attribute per layout entry, then unbind both objects so later code cannot
//! mutate them through a stale binding. This module computes that sequence and
//! the resulting vertex count as data, with exact contracts; the shell
//! executes each command against the driver.

use vstd::prelude::*;

verus! {

/// Bytes in one vertex component (the size of a single float).
pub const FLOAT_SIZE: u32 = 4;

/// Driver's reserved "no object" name; binding it unbinds the target.
pub const NO_OBJECT: u32 = 0;

/// How one shader input attribute reads the vertex bytes: which attribute
/// slot, how many float components per vertex, how many bytes from one vertex
/// to the next, and at which byte inside a vertex the components start.
#[derive(Clone, Copy, Debug, PartialEq, Eq, Structural)]
pub struct AttributeLayout {
    pub index: u32,
    pub component_count: u32,
    pub stride_bytes: u32,
    pub offset_bytes: u32,
}

impl AttributeLayout {
    /// A usable layout entry: one to four components that fit inside the
    /// stride at the given offset.
    pub open spec fn well_formed(self) -> bool {
        &&& 1 <= self.component_count <= 4
        &&& self.stride_bytes > 0
        &&& self.offset_bytes + self.component_count * FLOAT_SIZE <= self.stride_bytes
    }
}

/// One driver command of the mesh setup sequence, as data.
#[derive(Clone, Copy, Debug, PartialEq, Eq, Structural)]
pub enum SetupCommand {
    BindVertexArray(u32),
    BindArrayBuffer(u32),
    /// Copy this many vertex bytes into the bound buffer as static data.
    BufferStaticData(usize),
    DeclareAttribute(AttributeLayout),
    EnableAttribute(u32),
}

/// Handle of a vertex array whose buffer binding and attribute layout are
/// set up. Zero is the driver's reserved "no object" name.
#[derive(Clone, Copy, Debug, PartialEq, Eq, Structural)]
pub struct VertexArrayHandle {
    pub raw: u32,
}

impl VertexArrayHandle {
    pub open spec fn well_formed(self) -> bool {
        self.raw != 0
    }
}

/// A mesh ready to draw: its vertex array and how many vertices it holds.
#[derive(Clone, Copy, Debug, PartialEq, Eq, Structural)]
pub struct Mesh {
    pub vertex_array: VertexArrayHandle,
    pub vertex_count: usize,
}

/// The vertex bytes and the declared layout agree: every entry is usable,
/// every entry walks the bytes with the same stride, and the bytes hold a
/// whole number of vertices. A mismatch between bytes and layout is not
/// detectable by the driver — it draws garbage silently — so agreement is
/// demanded up front.
pub open spec fn layout_matches(byte_len: usize, layout: Seq<AttributeLayout>) -> bool {
    &&& layout.len() > 0
    &&& forall|j: int| 0 <= j < layout.len() ==> (#[trigger] layout[j]).well_formed()
    &&& forall|j: int|
        0 <= j < layout.len() ==> (#[trigger] layout[j]).stride_bytes == layout[0].stride_bytes
    &&& byte_len as int % (layout[0].stride_bytes as int) == 0
}

/// The attribute declarations of the setup sequence: for each layout entry in
/// order, declare it, then enable its slot.
pub open spec fn attribute_commands(layout: Seq<AttributeLayout>) -> Seq<SetupCommand>
    decreases layout.len(),
{
    if layout.len() == 0 {
        seq![]
    } else {
        attribute_commands(layout.drop_last()) + seq![
            SetupCommand::DeclareAttribute(layout.last()),
            SetupCommand::EnableAttribute(layout.last().index),
        ]
    }
}

/// The whole mesh setup sequence: bind array and buffer, copy the bytes,
/// declare every attribute, then unbind buffer and array.
pub open spec fn setup_commands(
    vertex_array: u32,
    buffer: u32,
    byte_len: usize,
    layout: Seq<AttributeLayout>,
) -> Seq<SetupCommand> {
    seq![
        SetupCommand::BindVertexArray(vertex_array),
        SetupCommand::BindArrayBuffer(buffer),
        SetupCommand::BufferStaticData(byte_len),
    ] + attribute_commands(layout) + seq![
        SetupCommand::BindArrayBuffer(NO_OBJECT),
        SetupCommand::BindVertexArray(NO_OBJECT),
    ]
}

/// Plan the upload of a static mesh of `float_count` floats read by `layout`,
/// into the freshly generated names `vertex_array` and `buffer`.
///
/// Returns the mesh (the vertex array handle and the exact vertex count, the
/// byte length divided by the stride) and the exact command sequence the
/// shell must execute: `setup_commands` over these arguments.
pub fn upload_static_mesh(
    vertex_array: u32,
    buffer: u32,
    float_count: usize,
    layout: &Vec<AttributeLayout>,
) -> (r: (Mesh, Vec<SetupCommand>))
    requires
        vertex_array != 0,
        buffer != 0,
        float_count * FLOAT_SIZE <= usize::MAX,
        layout_matches((float_count * FLOAT_SIZE) as usize, layout@),
    ensures
        r.0.vertex_array.raw == vertex_array,
        r.0.vertex_array.well_formed(),
        r.0.vertex_count == (float_count * FLOAT_SIZE) as int / (layout@[0].stride_bytes as int),
        r.1@ == setup_commands(
            vertex_array,
            buffer,
            (float_count * FLOAT_SIZE) as usize,
            layout@,
        ),
{
    let byte_len: usize = float_count * (FLOAT_SIZE as usize);
    let mut commands: Vec<SetupCommand> = Vec::new();
    commands.push(SetupCommand::BindVertexArray(vertex_array));
    commands.push(SetupCommand::BindArrayBuffer(buffer));
    commands.push(SetupCommand::BufferStaticData(byte_len));

    let mut i: usize = 0;
    while i < layout.len()
        invariant
            i <= layout@.len(),
            commands@ == seq![
                SetupCommand::BindVertexArray(vertex_array),
                SetupCommand::BindArrayBuffer(buffer),
                SetupCommand::BufferStaticData(byte_len),
            ] + attribute_commands(layout@.take(i as int)),
        decreases layout@.len() - i,
    {
        let entry = layout[i];
        commands.push(SetupCommand::DeclareAttribute(entry));
        commands.push(SetupCommand::EnableAttribute(entry.index));
        i = i + 1;
        proof {
            assert(layout@.take(i as int).drop_last() =~= layout@.take(i - 1));
            assert(layout@.take(i as int).last() == layout@[i - 1]);
        }
        assert(commands@ =~= seq![
            SetupCommand::BindVertexArray(vertex_array),
            SetupCommand::BindArrayBuffer(buffer),
            SetupCommand::BufferStaticData(byte_len),
        ] + attribute_commands(layout@.take(i as int)));
    }
    proof {
        assert(layout@.take(layout@.len() as int) =~= layout@);
    }
    commands.push(SetupCommand::BindArrayBuffer(NO_OBJECT));
    commands.push(SetupCommand::BindVertexArray(NO_OBJECT));
    assert(commands@ =~= setup_commands(vertex_array, buffer, byte_len, layout@));

    let stride: u32 = layout[0].stride_bytes;
    let mesh = Mesh {
        vertex_array: VertexArrayHandle { raw: vertex_array },
        vertex_count: byte_len / (stride as usize),
    };
    (mesh, commands)
}

} // verus!
