use polygon::debug_draw::{DebugDraw, DebugDrawCommand};
use polygon::material::Vector3;
use polygon::scene::Point;

fn p(x: u32) -> Point {
    Point { x, y: x + 1, z: x + 2, w: x + 3 }
}

#[test]
fn commands_accumulate_in_submission_order() {
    let mut debug_draw = DebugDraw::new();
    debug_draw.draw_line(p(1), p(10));
    debug_draw.draw_box_center_widths(p(20), Vector3 { x: 5, y: 6, z: 7 });
    debug_draw.draw_command(DebugDrawCommand::Line { start: p(30), end: p(40) });
    assert_eq!(
        debug_draw.command_buffer,
        vec![
            DebugDrawCommand::Line { start: p(1), end: p(10) },
            DebugDrawCommand::Cuboid { center: p(20), widths: Vector3 { x: 5, y: 6, z: 7 } },
            DebugDrawCommand::Line { start: p(30), end: p(40) },
        ]
    );
}

#[test]
fn flush_hands_over_and_empties_the_buffer() {
    let mut debug_draw = DebugDraw::new();
    debug_draw.draw_line(p(1), p(2));
    debug_draw.draw_line(p(3), p(4));
    let flushed = debug_draw.flush_commands();
    assert_eq!(
        flushed,
        vec![
            DebugDrawCommand::Line { start: p(1), end: p(2) },
            DebugDrawCommand::Line { start: p(3), end: p(4) },
        ]
    );
    assert!(debug_draw.command_buffer.is_empty());
    assert_eq!(debug_draw.flush_commands(), vec![]);
}
