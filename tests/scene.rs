use portal::command::CommandEvent;
use portal::scene::{build_scene, PathSegment, Primitive, SceneBuilder};

fn fill_style(c: &str) -> CommandEvent<f32> {
    CommandEvent::FillStyle { color: c.to_string() }
}

fn rect(x: f32, y: f32, width: f32, height: f32) -> CommandEvent<f32> {
    CommandEvent::FillRect { x, y, width, height }
}

#[test]
fn empty_queue_gives_empty_scene() {
    let scene = build_scene::<f32>(Vec::new());
    assert!(scene.primitives.is_empty());
    assert!(scene.warnings.is_empty());
}

#[test]
fn begin_then_fill_emits_empty_path_with_current_fill() {
    let scene = build_scene(vec![
        fill_style("green"),
        CommandEvent::BeginPath,
        CommandEvent::Fill,
    ]);
    assert_eq!(
        scene.primitives,
        vec![Primitive::Path {
            segments: Vec::new(),
            arc_reference: None,
            fill: Some("green".to_string()),
        }]
    );
    assert!(scene.warnings.is_empty());
}

#[test]
fn fill_without_begin_warns_once_and_emits_nothing() {
    let scene = build_scene(vec![fill_style("green"), CommandEvent::Fill]);
    assert!(scene.primitives.is_empty());
    assert_eq!(scene.warnings, vec![1]);
}

#[test]
fn fill_rect_consumes_fill_and_next_rect_uses_default() {
    let scene = build_scene(vec![
        fill_style("blue"),
        rect(10.0, 10.0, 20.0, 20.0),
        rect(10.0, 10.0, 20.0, 20.0),
    ]);
    assert_eq!(
        scene.primitives,
        vec![
            Primitive::Rect { x: 10.0, y: 10.0, width: 20.0, height: 20.0, fill: Some("blue".to_string()) },
            Primitive::Rect { x: 10.0, y: 10.0, width: 20.0, height: 20.0, fill: None },
        ]
    );
    assert!(scene.warnings.is_empty());
}

#[test]
fn single_rect_without_style_uses_default_fill() {
    let scene = build_scene(vec![rect(10.0, 10.0, 20.0, 20.0)]);
    assert_eq!(
        scene.primitives,
        vec![Primitive::Rect { x: 10.0, y: 10.0, width: 20.0, height: 20.0, fill: None }]
    );
}

#[test]
fn arc_path_refers_to_last_rect() {
    let scene = build_scene(vec![
        rect(0.0, 0.0, 30.0, 40.0),
        rect(0.0, 0.0, 8.0, 6.0),
        fill_style("white"),
        CommandEvent::BeginPath,
        CommandEvent::Arc { x: 1.0, y: 2.0, radius: 3.0, sweep_angle: 4.0, x_rotation: 5.0 },
        CommandEvent::ClosePath,
        CommandEvent::Fill,
    ]);
    assert_eq!(scene.primitives.len(), 3);
    assert_eq!(
        scene.primitives[2],
        Primitive::Path {
            segments: vec![
                PathSegment::Arc { x: 1.0, y: 2.0, radius: 3.0, sweep_angle: 4.0, x_rotation: 5.0 },
                PathSegment::Close,
            ],
            arc_reference: Some((8.0, 6.0)),
            fill: Some("white".to_string()),
        }
    );
}

#[test]
fn arc_path_without_rect_has_no_reference() {
    let scene = build_scene(vec![
        CommandEvent::BeginPath,
        CommandEvent::Arc { x: 1.0, y: 2.0, radius: 3.0, sweep_angle: 4.0, x_rotation: 5.0 },
        CommandEvent::Fill,
    ]);
    assert_eq!(
        scene.primitives,
        vec![Primitive::Path {
            segments: vec![PathSegment::Arc {
                x: 1.0,
                y: 2.0,
                radius: 3.0,
                sweep_angle: 4.0,
                x_rotation: 5.0,
            }],
            arc_reference: None,
            fill: None,
        }]
    );
}

#[test]
fn path_segments_keep_order_and_inner_begin_is_ignored() {
    let scene = build_scene(vec![
        CommandEvent::BeginPath,
        CommandEvent::MoveTo { x: 1.0, y: 1.0 },
        CommandEvent::BeginPath,
        CommandEvent::CubicBezierTo { x1: 1.0, y1: 2.0, x2: 3.0, y2: 4.0, x3: 5.0, y3: 6.0 },
        CommandEvent::ClosePath,
        CommandEvent::Fill,
        CommandEvent::BeginPath,
        CommandEvent::Fill,
    ]);
    assert_eq!(
        scene.primitives,
        vec![
            Primitive::Path {
                segments: vec![
                    PathSegment::MoveTo { x: 1.0, y: 1.0 },
                    PathSegment::CubicBezierTo { x1: 1.0, y1: 2.0, x2: 3.0, y2: 4.0, x3: 5.0, y3: 6.0 },
                    PathSegment::Close,
                ],
                arc_reference: None,
                fill: None,
            },
            Primitive::Path { segments: Vec::new(), arc_reference: None, fill: None },
        ]
    );
    assert!(scene.warnings.is_empty());
}

#[test]
fn segments_before_begin_block_later_fills() {
    let scene = build_scene(vec![
        CommandEvent::MoveTo { x: 1.0, y: 1.0 },
        CommandEvent::BeginPath,
        CommandEvent::Fill,
        rect(0.0, 0.0, 1.0, 1.0),
        CommandEvent::BeginPath,
        CommandEvent::Fill,
    ]);
    assert_eq!(
        scene.primitives,
        vec![Primitive::Rect { x: 0.0, y: 0.0, width: 1.0, height: 1.0, fill: None }]
    );
    assert_eq!(scene.warnings, vec![2, 5]);
}

#[test]
fn failed_fill_keeps_fill_style() {
    let scene = build_scene(vec![fill_style("pink"), CommandEvent::Fill, rect(1.0, 2.0, 3.0, 4.0)]);
    assert_eq!(scene.warnings, vec![1]);
    assert_eq!(
        scene.primitives,
        vec![Primitive::Rect { x: 1.0, y: 2.0, width: 3.0, height: 4.0, fill: Some("pink".to_string()) }]
    );
}

#[test]
fn label_is_emitted_and_keeps_fill_style() {
    let scene = build_scene(vec![
        fill_style("black"),
        CommandEvent::Label { text: "hello".to_string(), x: 3.0, y: 4.0, size: 18.0, color: "red".to_string() },
        rect(0.0, 0.0, 2.0, 2.0),
    ]);
    assert_eq!(
        scene.primitives,
        vec![
            Primitive::Label { text: "hello".to_string(), x: 3.0, y: 4.0, size: 18.0, color: "red".to_string() },
            Primitive::Rect { x: 0.0, y: 0.0, width: 2.0, height: 2.0, fill: Some("black".to_string()) },
        ]
    );
}

#[test]
fn unfilled_path_is_dropped() {
    let scene = build_scene(vec![CommandEvent::BeginPath, CommandEvent::MoveTo { x: 1.0, y: 1.0 }]);
    assert!(scene.primitives.is_empty());
    assert!(scene.warnings.is_empty());
}

#[test]
fn builder_applies_events_one_at_a_time() {
    let mut b: SceneBuilder<f32> = SceneBuilder::new();
    b.apply(CommandEvent::Fill, 0);
    b.apply(CommandEvent::BeginPath, 1);
    b.apply(CommandEvent::Fill, 2);
    let scene = b.finish();
    assert_eq!(scene.warnings, vec![0]);
    assert_eq!(
        scene.primitives,
        vec![Primitive::Path { segments: Vec::new(), arc_reference: None, fill: None }]
    );
}
