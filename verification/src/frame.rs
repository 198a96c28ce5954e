use vstd::prelude::*;
use crate::bringup::Context;
use crate::error::{BringUpError, Error};
use crate::resources::FrameResources;

verus! {

/// A clear color, one byte per channel; 255 is full intensity. The
/// shell scales channels to the GPU's unit floating-point range.
#[derive(Clone, Copy, PartialEq, Eq, Structural, Debug)]
pub struct ClearColor {
    pub red: u8,
    pub green: u8,
    pub blue: u8,
    pub alpha: u8,
}

/// One GPU call of the per-frame command stream. The core decides the
/// stream; the shell issues each command through the driver verbatim.
#[derive(Clone, Copy, PartialEq, Eq, Structural, Debug)]
pub enum GlCommand {
    /// Map clip space onto this pixel rectangle.
    Viewport { x: i32, y: i32, width: i32, height: i32 },
    /// Set the color the next clear paints.
    SetClearColor { color: ClearColor },
    /// Clear the color buffer.
    ClearColorBuffer,
    /// Enable a vertex attribute array.
    EnableAttrib { location: u32 },
    /// Bind a buffer (0 unbinds) to the array-buffer target.
    BindArrayBuffer { buffer: u32 },
    /// Point an enabled attribute at the bound buffer, `components`
    /// floats per vertex, tightly packed from offset zero.
    AttribPointer { location: u32, components: u32 },
    /// Draw `count` vertices from `first` as a triangle fan.
    DrawTriangleFan { first: i32, count: u32 },
    /// Disable a vertex attribute array.
    DisableAttrib { location: u32 },
    /// Present the frame: swap the surface's buffers, the one blocking
    /// point of an iteration.
    SwapBuffers,
}

/// How many draw calls a command stream issues.
pub open spec fn draw_count(s: Seq<GlCommand>) -> nat
    decreases s.len(),
{
    if s.len() == 0 {
        0
    } else {
        draw_count(s.drop_last()) + (if s.last() is DrawTriangleFan {
            1nat
        } else {
            0nat
        })
    }
}

/// Appending one command raises the draw count by one exactly for a
/// draw call.
pub proof fn lemma_draw_count_push(s: Seq<GlCommand>, c: GlCommand)
    ensures
        draw_count(s.push(c)) == draw_count(s) + (if c is DrawTriangleFan {
            1nat
        } else {
            0nat
        }),
{
    assert(s.push(c).drop_last() =~= s);
    assert(s.push(c).last() == c);
}

/// Append one command, carrying the draw count along.
fn push_command(v: &mut Vec<GlCommand>, c: GlCommand)
    ensures
        final(v)@ == old(v)@.push(c),
        draw_count(final(v)@) == draw_count(old(v)@) + (if c is DrawTriangleFan {
            1nat
        } else {
            0nat
        }),
{
    v.push(c);
    proof {
        lemma_draw_count_push(old(v)@, c);
    }
}

/// What a frame of the steady-state loop does.
#[derive(Clone, Copy, PartialEq, Eq, Structural, Debug)]
pub enum FramePlan {
    /// Clear to a color and present.
    ClearOnly { color: ClearColor },
    /// Clear, draw the static triangle from the frame resources, and
    /// present.
    Triangle { resources: FrameResources, color: ClearColor },
}

/// The command stream of one frame under a plan. A `ClearOnly` frame
/// clears and presents. A `Triangle` frame additionally binds the color
/// and vertex attributes to their buffers, issues exactly one
/// triangle-fan draw of three vertices, and unbinds.
pub open spec fn frame_commands_spec(plan: FramePlan) -> Seq<GlCommand> {
    match plan {
        FramePlan::ClearOnly { color } => seq![
            GlCommand::SetClearColor { color },
            GlCommand::ClearColorBuffer,
            GlCommand::SwapBuffers,
        ],
        FramePlan::Triangle { resources, color } => seq![
            GlCommand::SetClearColor { color },
            GlCommand::ClearColorBuffer,
            GlCommand::EnableAttrib { location: resources.a_color },
            GlCommand::BindArrayBuffer { buffer: resources.color_buffer },
            GlCommand::AttribPointer { location: resources.a_color, components: 3 },
            GlCommand::EnableAttrib { location: resources.a_vertex },
            GlCommand::BindArrayBuffer { buffer: resources.vertex_buffer },
            GlCommand::AttribPointer { location: resources.a_vertex, components: 2 },
            GlCommand::DrawTriangleFan { first: 0, count: 3 },
            GlCommand::DisableAttrib { location: resources.a_color },
            GlCommand::DisableAttrib { location: resources.a_vertex },
            GlCommand::BindArrayBuffer { buffer: 0 },
            GlCommand::SwapBuffers,
        ],
    }
}

/// How many draw calls a plan issues per frame: one for the triangle
/// variant, none for the clear-only variant.
pub open spec fn plan_draw_count(plan: FramePlan) -> nat {
    match plan {
        FramePlan::ClearOnly { .. } => 0,
        FramePlan::Triangle { .. } => 1,
    }
}

/// Build the command stream of one frame. The stream issues exactly as
/// many draw calls as the plan says: one per triangle frame, none per
/// clear-only frame.
pub fn frame_commands(plan: &FramePlan) -> (v: Vec<GlCommand>)
    ensures
        v@ == frame_commands_spec(*plan),
        draw_count(v@) == plan_draw_count(*plan),
{
    let mut v: Vec<GlCommand> = Vec::new();
    proof {
        assert(draw_count(v@) == 0);
    }
    match plan {
        FramePlan::ClearOnly { color } => {
            push_command(&mut v, GlCommand::SetClearColor { color: *color });
            push_command(&mut v, GlCommand::ClearColorBuffer);
            push_command(&mut v, GlCommand::SwapBuffers);
            proof {
                assert(v@ =~= frame_commands_spec(*plan));
            }
        },
        FramePlan::Triangle { resources, color } => {
            push_command(&mut v, GlCommand::SetClearColor { color: *color });
            push_command(&mut v, GlCommand::ClearColorBuffer);
            push_command(&mut v, GlCommand::EnableAttrib { location: resources.a_color });
            push_command(&mut v, GlCommand::BindArrayBuffer { buffer: resources.color_buffer });
            push_command(
                &mut v,
                GlCommand::AttribPointer { location: resources.a_color, components: 3 },
            );
            push_command(&mut v, GlCommand::EnableAttrib { location: resources.a_vertex });
            push_command(&mut v, GlCommand::BindArrayBuffer { buffer: resources.vertex_buffer });
            push_command(
                &mut v,
                GlCommand::AttribPointer { location: resources.a_vertex, components: 2 },
            );
            push_command(&mut v, GlCommand::DrawTriangleFan { first: 0, count: 3 });
            push_command(&mut v, GlCommand::DisableAttrib { location: resources.a_color });
            push_command(&mut v, GlCommand::DisableAttrib { location: resources.a_vertex });
            push_command(&mut v, GlCommand::BindArrayBuffer { buffer: 0 });
            push_command(&mut v, GlCommand::SwapBuffers);
            proof {
                assert(v@ =~= frame_commands_spec(*plan));
            }
        },
    }
    v
}

/// The one-time viewport call issued before the loop: it covers the
/// whole display, anchored at the origin.
pub fn viewport_command(width: u32, height: u32) -> (c: GlCommand)
    requires
        width <= 0x7fff_ffff,
        height <= 0x7fff_ffff,
    ensures
        c == (GlCommand::Viewport { x: 0, y: 0, width: width as i32, height: height as i32 }),
{
    GlCommand::Viewport { x: 0, y: 0, width: width as i32, height: height as i32 }
}

/// One clear-and-present cycle of the frame driver. It is permitted only
/// on a context that reached `Active`; it then yields the frame's
/// command stream and never moves the context out of `Active` — the
/// stage is exactly what it was. On a context in any other stage it is
/// the fatal `NotActive` error and the context is untouched.
pub fn present_cycle(ctx: &mut Context, plan: &FramePlan) -> (r: Result<Vec<GlCommand>, Error>)
    ensures
        final(ctx)@ == old(ctx)@,
        old(ctx)@ is Active ==> (r matches Ok(v) && v@ == frame_commands_spec(*plan)),
        !(old(ctx)@ is Active) ==> r == Err::<Vec<GlCommand>, Error>(
            Error::BringUp(BringUpError::NotActive)),
{
    if !ctx.is_active() {
        return Err(Error::BringUp(BringUpError::NotActive));
    }
    Ok(frame_commands(plan))
}

/// Run the steady-state loop for `frames` iterations. On an `Active`
/// context every iteration's clear-and-present cycle succeeds, and after
/// any number of them the context is still exactly `Active` — no state
/// drift. On any other stage the driver refuses to run at all.
pub fn run_frames(ctx: &mut Context, plan: &FramePlan, frames: u64) -> (r: Result<u64, Error>)
    ensures
        final(ctx)@ == old(ctx)@,
        old(ctx)@ is Active ==> r == Ok::<u64, Error>(frames),
        !(old(ctx)@ is Active) ==> r == Err::<u64, Error>(
            Error::BringUp(BringUpError::NotActive)),
{
    if !ctx.is_active() {
        return Err(Error::BringUp(BringUpError::NotActive));
    }
    let mut presented: u64 = 0;
    while presented < frames
        invariant
            presented <= frames,
            ctx@ is Active,
        decreases frames - presented,
    {
        match present_cycle(ctx, plan) {
            Ok(_) => {},
            Err(e) => {
                return Err(e);
            },
        }
        presented = presented + 1;
    }
    Ok(frames)
}

} // verus!
