//! The texture simulator's per-frame decisions. Each operation returns the GPU
//! commands the host must issue, in order: the host owns the device, the
//! buffers and the sphere display that carry them out.

use crate::params::{NoiseSetting, TexGeneratorParams};
use vstd::prelude::*;

verus! {

/// A unit of GPU work decided by the simulator.
#[derive(Clone, Copy, Debug)]
pub enum Command {
    /// Write this parameter block to the start of the uniform buffer.
    WriteUniform(TexGeneratorParams),
    /// Fill the sphere's texture from the uniform and lookup buffers.
    GenerateTexture,
    /// Draw the textured sphere into the current render pass.
    DrawSphere,
}

/// Holds the parameter block mirrored into the uniform buffer and whether the
/// texture still has to be generated.
pub struct TextureSimulator {
    uniform_data: TexGeneratorParams,
    regenerate_tex: bool,
}

/// Commands of one draw call, given whether the texture is still to be generated.
pub open spec fn draw_commands(regenerate: bool) -> Seq<Command> {
    if regenerate {
        seq![Command::GenerateTexture, Command::DrawSphere]
    } else {
        seq![Command::DrawSphere]
    }
}

/// Commands of `n` consecutive draw calls, starting with the given flag.
pub open spec fn draw_run(regenerate: bool, n: nat) -> Seq<Command>
    decreases n,
{
    if n == 0 {
        Seq::empty()
    } else {
        draw_commands(regenerate) + draw_run(false, (n - 1) as nat)
    }
}

/// Commands of one frame: the update's uniform write, then the draw.
pub open spec fn frame_commands(regenerate: bool, params: TexGeneratorParams) -> Seq<Command> {
    seq![Command::WriteUniform(params)] + draw_commands(regenerate)
}

impl TextureSimulator {
    /// The parameter block as last assembled.
    pub closed spec fn params(&self) -> TexGeneratorParams {
        self.uniform_data
    }

    /// Whether the next draw generates the texture.
    pub closed spec fn regenerate_pending(&self) -> bool {
        self.regenerate_tex
    }

    /// A simulator with a zeroed parameter block, waiting for its first draw
    /// to generate the texture.
    pub fn new() -> (r: TextureSimulator)
        ensures
            r.params().is_zeroed(),
            r.regenerate_pending(),
    {
        TextureSimulator { uniform_data: TexGeneratorParams::zeroed(), regenerate_tex: true }
    }

    /// The parameter block as last assembled.
    pub fn uniform_data(&self) -> (r: TexGeneratorParams)
        ensures
            r == self.params(),
    {
        self.uniform_data
    }

    /// Whether the next draw generates the texture.
    pub fn needs_regeneration(&self) -> (r: bool)
        ensures
            r == self.regenerate_pending(),
    {
        self.regenerate_tex
    }

    /// Takes the current settings into the parameter block, wholesale, and
    /// returns the write of the whole block to the uniform buffer.
    pub fn update_by(&mut self, setting: &NoiseSetting) -> (cmd: Command)
        requires
            setting.simu_ty is Some,
        ensures
            final(self).params().assembled_from(*setting),
            final(self).regenerate_pending() == old(self).regenerate_pending(),
            cmd == Command::WriteUniform(final(self).params()),
    {
        self.uniform_data = TexGeneratorParams::from_setting(setting);
        Command::WriteUniform(self.uniform_data)
    }

    /// This simulator dispatches no compute work of its own: nothing changes.
    pub fn update_workgroup_count(&mut self, workgroup_count: (u32, u32, u32))
        ensures
            *final(self) == *old(self),
    {
    }

    /// Texture synthesis happens on the draw path: nothing changes here.
    pub fn compute(&mut self)
        ensures
            *final(self) == *old(self),
    {
    }

    /// Decides one draw call: the first one generates the texture before
    /// drawing, every later one only draws.
    pub fn draw_by_rpass(&mut self) -> (r: Vec<Command>)
        ensures
            r@ == draw_commands(old(self).regenerate_pending()),
            !final(self).regenerate_pending(),
            final(self).params() == old(self).params(),
    {
        let mut commands: Vec<Command> = Vec::new();
        if self.regenerate_tex {
            self.regenerate_tex = false;
            commands.push(Command::GenerateTexture);
        }
        commands.push(Command::DrawSphere);
        assert(commands@ =~= draw_commands(old(self).regenerate_pending()));
        commands
    }

    /// Decides one frame: the update from `setting`, then the draw.
    pub fn frame(&mut self, setting: &NoiseSetting) -> (r: Vec<Command>)
        requires
            setting.simu_ty is Some,
        ensures
            final(self).params().assembled_from(*setting),
            !final(self).regenerate_pending(),
            r@ == frame_commands(old(self).regenerate_pending(), final(self).params()),
    {
        let write = self.update_by(setting);
        let mut commands: Vec<Command> = Vec::new();
        commands.push(write);
        let mut draw = self.draw_by_rpass();
        commands.append(&mut draw);
        assert(commands@ =~= frame_commands(old(self).regenerate_pending(), self.params()));
        commands
    }
}

proof fn lemma_no_generation_after_first(n: nat)
    ensures
        forall|i: int|
            0 <= i < draw_run(false, n).len() ==> #[trigger] draw_run(false, n)[i]
                == Command::DrawSphere,
        draw_run(false, n).len() == n,
    decreases n,
{
    if n > 0 {
        lemma_no_generation_after_first((n - 1) as nat);
        let rest = draw_run(false, (n - 1) as nat);
        assert(draw_run(false, n) =~= seq![Command::DrawSphere] + rest);
    }
}

/// Over `n >= 1` consecutive draw calls of a simulator that has not drawn yet,
/// the texture is generated exactly once, as the very first command, and every
/// call draws the sphere.
pub proof fn lemma_texture_generated_once(n: nat)
    requires
        n >= 1,
    ensures
        draw_run(true, n).len() == n + 1,
        draw_run(true, n)[0] == Command::GenerateTexture,
        forall|i: int|
            1 <= i < draw_run(true, n).len() ==> #[trigger] draw_run(true, n)[i]
                == Command::DrawSphere,
{
    lemma_no_generation_after_first((n - 1) as nat);
    let rest = draw_run(false, (n - 1) as nat);
    assert(draw_run(true, n) =~= seq![Command::GenerateTexture, Command::DrawSphere] + rest);
    assert forall|i: int| 1 <= i < draw_run(true, n).len() implies #[trigger] draw_run(true, n)[i]
        == Command::DrawSphere by {
        if i >= 2 {
            assert(draw_run(true, n)[i] == rest[i - 2]);
        }
    }
}

/// In every frame the write of the new parameter block comes first, and
/// every command after it is a texture generation or a draw that reads it.
pub proof fn lemma_uniform_written_first(regenerate: bool, params: TexGeneratorParams)
    ensures
        frame_commands(regenerate, params)[0] == Command::WriteUniform(params),
        forall|i: int|
            0 < i < frame_commands(regenerate, params).len() ==> {
                let c = #[trigger] frame_commands(regenerate, params)[i];
                c is GenerateTexture || c is DrawSphere
            },
{
}

} // verus!
