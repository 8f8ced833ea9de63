//! Debug drawing: an accumulator of primitive draw requests.
//!
//! Debug shapes are queued during a frame and flushed in one batch after
//! the scene is rendered.  The buffer is an explicitly passed accumulator;
//! the host turns the flushed commands into line and wireframe draws.

use vstd::prelude::*;

use crate::material::Vector3;
use crate::scene::Point;

verus! {

/// One queued debug shape.
#[derive(Clone, Copy, PartialEq, Eq, Structural, Debug)]
pub enum DebugDrawCommand {
    Line { start: Point, end: Point },
    Cuboid { center: Point, widths: Vector3 },
}

/// The debug-draw accumulator: commands queued since the last flush, in
/// submission order.
pub struct DebugDraw {
    pub command_buffer: Vec<DebugDrawCommand>,
}

impl DebugDraw {
    /// An empty accumulator.
    pub fn new() -> (r: DebugDraw)
        ensures
            r.command_buffer@ == Seq::<DebugDrawCommand>::empty(),
    {
        let r = DebugDraw { command_buffer: Vec::new() };
        proof {
            assert(r.command_buffer@ =~= Seq::<DebugDrawCommand>::empty());
        }
        r
    }

    /// Queues one command.
    pub fn draw_command(&mut self, command: DebugDrawCommand)
        ensures
            final(self).command_buffer@ == old(self).command_buffer@.push(command),
    {
        self.command_buffer.push(command);
    }

    /// Queues a line from `start` to `end`.
    pub fn draw_line(&mut self, start: Point, end: Point)
        ensures
            final(self).command_buffer@ == old(self).command_buffer@.push(
                DebugDrawCommand::Line { start, end },
            ),
    {
        self.draw_command(DebugDrawCommand::Line { start, end });
    }

    /// Queues a box given its center and edge widths.
    pub fn draw_box_center_widths(&mut self, center: Point, widths: Vector3)
        ensures
            final(self).command_buffer@ == old(self).command_buffer@.push(
                DebugDrawCommand::Cuboid { center, widths },
            ),
    {
        self.draw_command(DebugDrawCommand::Cuboid { center, widths });
    }

    /// Hands the queued commands over in submission order and empties the
    /// buffer.
    pub fn flush_commands(&mut self) -> (commands: Vec<DebugDrawCommand>)
        ensures
            commands@ == old(self).command_buffer@,
            final(self).command_buffer@ == Seq::<DebugDrawCommand>::empty(),
    {
        let mut commands: Vec<DebugDrawCommand> = Vec::new();
        let n = self.command_buffer.len();
        let mut i: usize = 0;
        while i < n
            invariant
                n == self.command_buffer@.len(),
                self.command_buffer@ == old(self).command_buffer@,
                i <= n,
                commands@ == self.command_buffer@.take(i as int),
            decreases n - i,
        {
            commands.push(self.command_buffer[i]);
            proof {
                assert(self.command_buffer@.take(i + 1) =~= self.command_buffer@.take(
                    i as int,
                ).push(self.command_buffer@[i as int]));
            }
            i += 1;
        }
        proof {
            assert(self.command_buffer@.take(n as int) =~= self.command_buffer@);
        }
        self.command_buffer.clear();
        proof {
            assert(self.command_buffer@ =~= Seq::<DebugDrawCommand>::empty());
        }
        commands
    }
}

} // verus!
