use vitruvia::context::Graphics;
use vitruvia::context::ObserverCell;
use vitruvia::context::TickOutcome;
use vitruvia::context::new;
use vitruvia::geometry::Rect2D;
use vitruvia::geometry::Vec2D;
use vitruvia::render::DrawError;
use vitruvia::scene::DrawOp;
use vitruvia::scene::Still;

#[test]
fn tick_without_root_is_idle() {
    let mut gfx: Graphics<Still> = new();
    assert!(matches!(gfx.tick(), TickOutcome::Idle));
}

#[test]
fn resize_reconciliation_resets_viewport() {
    let mut gfx: Graphics<Still> = new();
    let mut root = gfx.frame();
    // Give the root some viewport that the resize must override.
    root.resize(Vec2D { x: 10, y: 10 });
    root.set_viewport(Rect2D {
        position: Vec2D { x: 5, y: 5 },
        size: Vec2D { x: 3, y: 3 },
    });
    gfx.run(root);
    gfx.notify_resize(Vec2D { x: 800, y: 600 });
    let outcome = gfx.tick();
    assert!(matches!(outcome, TickOutcome::Drawn(_)));
    let frame = gfx.root_frame.as_ref().unwrap();
    assert_eq!(
        frame.viewport,
        Rect2D { position: Vec2D { x: 0, y: 0 }, size: Vec2D { x: 800, y: 600 } }
    );
    assert_eq!(frame.get_size(), Vec2D { x: 800, y: 600 });
    // The dirty mark was consumed: a second tick leaves the frame as is.
    assert!(!gfx.size.is_dirty());
}

#[test]
fn tick_draws_root_frame() {
    let mut gfx: Graphics<Still> = new();
    let root = gfx.frame();
    gfx.run(root);
    gfx.notify_resize(Vec2D { x: 100, y: 100 });
    match gfx.tick() {
        TickOutcome::Drawn(ops) => {
            assert_eq!(ops.len(), 3);
            assert!(matches!(ops[1], DrawOp::Clear(_)));
        },
        other => panic!("expected a drawn frame, got {:?}", outcome_name(&other)),
    }
}

#[test]
fn tick_reports_degenerate_viewport() {
    let mut gfx: Graphics<Still> = new();
    let root = gfx.frame();
    gfx.run(root);
    // No resize was ever reported: the root frame still has a zero viewport.
    match gfx.tick() {
        TickOutcome::Failed(e) => assert_eq!(e, DrawError::DegenerateViewport),
        other => panic!("expected a failed traversal, got {:?}", outcome_name(&other)),
    }
}

#[test]
fn failed_tick_does_not_stop_the_loop() {
    let mut gfx: Graphics<Still> = new();
    let root = gfx.frame();
    gfx.run(root);
    assert!(matches!(gfx.tick(), TickOutcome::Failed(_)));
    // The host keeps ticking; once a resize arrives, drawing succeeds.
    gfx.notify_resize(Vec2D { x: 32, y: 32 });
    assert!(matches!(gfx.tick(), TickOutcome::Drawn(_)));
}

#[test]
fn observer_cell_reads_and_clears() {
    let mut cell = ObserverCell::new(Vec2D { x: 1, y: 2 });
    assert!(!cell.is_dirty());
    cell.set(Vec2D { x: 7, y: 8 });
    assert!(cell.is_dirty());
    assert_eq!(cell.get(), Vec2D { x: 7, y: 8 });
    assert!(!cell.is_dirty());
    assert_eq!(cell.get(), Vec2D { x: 7, y: 8 });
}

fn outcome_name(outcome: &TickOutcome) -> &'static str {
    match outcome {
        TickOutcome::Idle => "Idle",
        TickOutcome::Drawn(_) => "Drawn",
        TickOutcome::Failed(_) => "Failed",
    }
}
