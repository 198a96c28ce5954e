use vstd::prelude::*;
use crate::error::{Error, ShaderError};

verus! {

/// The process-lifetime GPU resources of the drawing variant: buffer and
/// program handles with the two attribute locations bound by name.
/// Created once before the loop, immutable thereafter.
#[derive(Clone, Copy, PartialEq, Eq, Structural, Debug)]
pub struct FrameResources {
    pub program: u32,
    pub a_vertex: u32,
    pub a_color: u32,
    pub vertex_buffer: u32,
    pub color_buffer: u32,
}

/// Interpret an attribute-location lookup. The driver reports a missing
/// name as a negative location; that is a fatal configuration error,
/// never a silent zero-effect bind.
pub fn attrib_location(loc: i32) -> (r: Result<u32, Error>)
    ensures
        loc >= 0 ==> r == Ok::<u32, Error>(loc as u32),
        loc < 0 ==> r == Err::<u32, Error>(Error::Shader(ShaderError::AttribNotFound)),
{
    if loc >= 0 {
        Ok(loc as u32)
    } else {
        Err(Error::Shader(ShaderError::AttribNotFound))
    }
}

/// Assemble the frame resources from the driver's answers: the linked
/// program handle, the two attribute locations looked up by name, and
/// the allocated buffer handles (vertices first, colors second). A
/// missing attribute or too few buffers is fatal.
pub fn build_resources(program: u32, a_vertex_loc: i32, a_color_loc: i32, buffers: &Vec<u32>) -> (r:
    Result<FrameResources, Error>)
    ensures
        a_vertex_loc < 0 || a_color_loc < 0 ==> r == Err::<FrameResources, Error>(
            Error::Shader(ShaderError::AttribNotFound)),
        a_vertex_loc >= 0 && a_color_loc >= 0 && buffers@.len() < 2 ==> r == Err::<
            FrameResources, Error>(Error::Shader(ShaderError::MissingBuffers)),
        a_vertex_loc >= 0 && a_color_loc >= 0 && buffers@.len() >= 2 ==> r == Ok::<
            FrameResources, Error>(FrameResources {
            program,
            a_vertex: a_vertex_loc as u32,
            a_color: a_color_loc as u32,
            vertex_buffer: buffers@[0],
            color_buffer: buffers@[1],
        }),
{
    let a_vertex = attrib_location(a_vertex_loc)?;
    let a_color = attrib_location(a_color_loc)?;
    if buffers.len() < 2 {
        return Err(Error::Shader(ShaderError::MissingBuffers));
    }
    Ok(FrameResources {
        program,
        a_vertex,
        a_color,
        vertex_buffer: buffers[0],
        color_buffer: buffers[1],
    })
}

/// The static triangle, in clip space: bottom left, bottom right, top.
/// Coordinates are exact integers; the shell widens them to the GPU's
/// floating-point vertex format.
pub fn triangle_vertices() -> (v: Vec<(i32, i32)>)
    ensures
        v@ == seq![(-1i32, -1i32), (1i32, -1i32), (0i32, 1i32)],
{
    let mut v: Vec<(i32, i32)> = Vec::new();
    v.push((-1, -1));
    v.push((1, -1));
    v.push((0, 1));
    proof {
        assert(v@ =~= seq![(-1i32, -1i32), (1i32, -1i32), (0i32, 1i32)]);
    }
    v
}

/// One color per triangle vertex: red, green, blue. Channels are bytes,
/// 255 for full intensity; the shell scales them to the GPU's unit
/// floating-point range.
pub fn triangle_colors() -> (v: Vec<(u8, u8, u8)>)
    ensures
        v@ == seq![(255u8, 0u8, 0u8), (0u8, 255u8, 0u8), (0u8, 0u8, 255u8)],
{
    let mut v: Vec<(u8, u8, u8)> = Vec::new();
    v.push((255, 0, 0));
    v.push((0, 255, 0));
    v.push((0, 0, 255));
    proof {
        assert(v@ =~= seq![(255u8, 0u8, 0u8), (0u8, 255u8, 0u8), (0u8, 0u8, 255u8)]);
    }
    v
}

/// Source of the demo's vertex shader: passes the position through and
/// hands the per-vertex color to the fragment stage.
pub fn vertex_shader_source() -> (s: &'static str)
    ensures
        s@ =~= (
        "
        attribute vec4 a_color;
        attribute vec4 a_vertex;
        varying   vec4 v_color;

        void main () {
            gl_Position = a_vertex;
            v_color     = a_color;
        }
        ")@,
{
    "
        attribute vec4 a_color;
        attribute vec4 a_vertex;
        varying   vec4 v_color;

        void main () {
            gl_Position = a_vertex;
            v_color     = a_color;
        }
        "
}

/// Source of the demo's fragment shader: paints the interpolated color.
pub fn fragment_shader_source() -> (s: &'static str)
    ensures
        s@ =~= (
        "
        varying vec4 v_color;

        void main () {
            gl_FragColor = v_color;
        }
        ")@,
{
    "
        varying vec4 v_color;

        void main () {
            gl_FragColor = v_color;
        }
        "
}

} // verus!
