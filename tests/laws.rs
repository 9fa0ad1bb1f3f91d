use dsp_blocks::arity::{DInto, DInto2};
use dsp_blocks::compose::{connect_visuals, stack_visuals, ConnectorStyle};
use dsp_blocks::control::{route_hover, route_unhover, HoverRoute, HoverState, HoverTarget, Side};
use dsp_blocks::dsp::{common_length, AutoPad, EnvelopeBlock, EnvelopeType, WindowSetting};
use dsp_blocks::geometry::{Point, Rect};
use dsp_blocks::graph::Block;
use dsp_blocks::visual::{
    line_color, visualize_simple_box, Canvas, Color, Picture, Shape, VisualizeError, VisualizeResult,
};

fn boxed(w: u32, h: u32, ins: Vec<Point>, outs: Vec<Point>) -> VisualizeResult {
    VisualizeResult::Block {
        texture: Canvas { width: w, height: h, picture: Picture::Shapes(Vec::new()) },
        input_connections: ins,
        output_connections: outs,
    }
}

#[test]
fn arity_round_trip() {
    let v1: Vec<String> = vec!["a".to_string()];
    let t1: String = DInto::<1>::from(v1.clone());
    assert_eq!(DInto::<1>::into(t1), v1);
    let t2: (u8, u8) = DInto::<2>::from(vec![1, 2]);
    assert_eq!(t2, (1, 2));
    assert_eq!(DInto::<2>::into(t2), vec![1, 2]);
    let t3: ((u8, u8), u8) = DInto::<3>::from(vec![1, 2, 3]);
    assert_eq!(t3, ((1, 2), 3));
    assert_eq!(DInto::<3>::into(t3), vec![1, 2, 3]);
    let t4: (((u8, u8), u8), u8) = DInto::<4>::from(vec![4, 3, 2, 1]);
    assert_eq!(t4, (((4, 3), 2), 1));
    assert_eq!(DInto::<4>::into(t4), vec![4, 3, 2, 1]);
}

#[test]
fn duplication_shapes() {
    let p: (Vec<u8>, Vec<u8>) = DInto2::into(vec![7u8]);
    assert_eq!(p, (vec![7], vec![7]));
    let t: ((u8, u8), u8) = DInto2::into(3u8);
    assert_eq!(t, ((3, 3), 3));
    let q: (((u8, u8), u8), u8) = DInto2::into(9u8);
    assert_eq!(q, (((9, 9), 9), 9));
}

#[test]
fn merge_rules() {
    let l = stack_visuals(VisualizeResult::Empty, VisualizeResult::Empty).unwrap();
    assert!(matches!(l.visual, VisualizeResult::Empty));
    assert_eq!(l.first, Rect { x: 0, y: 0, width: 0, height: 0 });
    let l = connect_visuals(
        VisualizeResult::Empty,
        boxed(10, 20, vec![Point { x: 0, y: 3 }], vec![]),
        ConnectorStyle::Plain,
    )
    .unwrap();
    assert_eq!(l.first, Rect { x: 0, y: 0, width: 0, height: 0 });
    assert_eq!(l.second, Rect { x: 0, y: 0, width: 10, height: 20 });
    match l.visual {
        VisualizeResult::Block { texture, input_connections, .. } => {
            assert_eq!((texture.width, texture.height), (10, 20));
            assert_eq!(input_connections, vec![Point { x: 0, y: 3 }]);
        }
        _ => panic!("expected the ported visual"),
    }
    let simple = VisualizeResult::SimpleTexture(Canvas {
        width: 5,
        height: 6,
        picture: Picture::Shapes(Vec::new()),
    });
    let l = stack_visuals(simple, VisualizeResult::Empty).unwrap();
    assert!(matches!(l.visual, VisualizeResult::SimpleTexture(_)));
    assert_eq!(l.first, Rect { x: 0, y: 0, width: 5, height: 6 });
    assert_eq!(l.second, Rect { x: 0, y: 0, width: 0, height: 0 });
}

#[test]
fn stack_layout_numbers() {
    let a = boxed(30, 10, vec![Point { x: 0, y: 5 }], vec![Point { x: 30, y: 5 }]);
    let b = boxed(50, 20, vec![Point { x: 0, y: 1 }], vec![Point { x: 50, y: 2 }]);
    let l = stack_visuals(a, b).unwrap();
    assert_eq!(l.first, Rect { x: 20, y: 0, width: 30, height: 10 });
    assert_eq!(l.second, Rect { x: 0, y: 19, width: 50, height: 20 });
    match l.visual {
        VisualizeResult::Block { texture, input_connections, output_connections } => {
            assert_eq!((texture.width, texture.height), (50, 39));
            assert_eq!(input_connections, vec![Point { x: 20, y: 5 }, Point { x: 0, y: 20 }]);
            assert_eq!(output_connections, vec![Point { x: 50, y: 5 }, Point { x: 50, y: 21 }]);
        }
        _ => panic!("expected a ported visual"),
    }
}

#[test]
fn connect_layout_numbers_and_colours() {
    let a = boxed(30, 10, vec![Point { x: 0, y: 5 }], vec![Point { x: 30, y: 1 }, Point { x: 30, y: 9 }]);
    let b = boxed(20, 31, vec![Point { x: 0, y: 4 }], vec![Point { x: 20, y: 15 }]);
    let l = connect_visuals(a, b, ConnectorStyle::Colored).unwrap();
    assert_eq!(l.first, Rect { x: 0, y: 10, width: 30, height: 10 });
    assert_eq!(l.second, Rect { x: 60, y: 0, width: 20, height: 31 });
    match l.visual {
        VisualizeResult::Block { texture, input_connections, output_connections } => {
            assert_eq!((texture.width, texture.height), (80, 31));
            assert_eq!(input_connections, vec![Point { x: 0, y: 15 }]);
            assert_eq!(output_connections, vec![Point { x: 80, y: 15 }]);
            match texture.picture {
                Picture::Pair { first_at, second_at, wires, .. } => {
                    assert_eq!(first_at, Point { x: 0, y: 10 });
                    assert_eq!(second_at, Point { x: 60, y: 0 });
                    assert_eq!(wires.len(), 2);
                    assert_eq!(wires[0].from, Point { x: 30, y: 11 });
                    assert_eq!(wires[1].from, Point { x: 30, y: 19 });
                    assert_eq!(wires[0].to, Point { x: 60, y: 4 });
                    assert_eq!(wires[1].to, Point { x: 60, y: 4 });
                    assert_eq!(wires[0].color, Color::BlueViolet);
                    assert_eq!(wires[1].color, Color::RoyalBlue);
                }
                _ => panic!("expected two placed children"),
            }
        }
        _ => panic!("expected a ported visual"),
    }
    assert_eq!(line_color(2), Color::Orange);
    assert_eq!(line_color(3), Color::Brown);
    assert_eq!(line_color(4), Color::BlueViolet);
}

#[test]
fn too_large_canvas() {
    let a = boxed(u32::MAX - 10, 1, vec![], vec![]);
    let b = boxed(5, 1, vec![], vec![]);
    assert_eq!(connect_visuals(a, b, ConnectorStyle::Plain).unwrap_err(), VisualizeError::CanvasTooLarge);
    let a = boxed(1, u32::MAX - 10, vec![], vec![]);
    let b = boxed(1, 5, vec![], vec![]);
    assert_eq!(stack_visuals(a, b).unwrap_err(), VisualizeError::CanvasTooLarge);
}

#[test]
fn hover_routing_rules() {
    let first = Rect { x: 0, y: 0, width: 10, height: 10 };
    let second = Rect { x: 20, y: 0, width: 10, height: 10 };
    let r = route_hover(HoverState::Idle, first, second, Point { x: 3, y: 4 });
    assert_eq!(
        r,
        HoverRoute {
            hover: Some(HoverTarget { side: Side::First, at: Point { x: 3, y: 4 } }),
            unhover: None,
            next: HoverState::HoveringFirst,
        }
    );
    let r = route_hover(HoverState::HoveringFirst, first, second, Point { x: 25, y: 9 });
    assert_eq!(
        r,
        HoverRoute {
            hover: Some(HoverTarget { side: Side::Second, at: Point { x: 5, y: 9 } }),
            unhover: Some(Side::First),
            next: HoverState::HoveringSecond,
        }
    );
    // right edge is outside
    let r = route_hover(HoverState::HoveringSecond, first, second, Point { x: 30, y: 0 });
    assert_eq!(r, HoverRoute { hover: None, unhover: Some(Side::Second), next: HoverState::Idle });
    let r = route_hover(HoverState::Idle, first, second, Point { x: -1, y: 0 });
    assert_eq!(r, HoverRoute { hover: None, unhover: None, next: HoverState::Idle });
    assert_eq!(
        route_unhover(HoverState::HoveringFirst),
        HoverRoute { hover: None, unhover: Some(Side::First), next: HoverState::Idle }
    );
}

#[test]
fn simple_box_label_and_ports() {
    let (out, v) = visualize_simple_box("Delta\nEnd", 5u8);
    assert_eq!(out, 5);
    match v {
        VisualizeResult::Block { texture, input_connections, output_connections } => {
            assert_eq!((texture.width, texture.height), (55, 55));
            assert_eq!(input_connections, vec![Point { x: 0, y: 27 }]);
            assert_eq!(output_connections, vec![Point { x: 55, y: 27 }]);
            match texture.picture {
                Picture::Shapes(shapes) => {
                    assert_eq!(shapes.len(), 2);
                    match &shapes[0] {
                        Shape::Text { text, at, size, .. } => {
                            assert_eq!(text, "Delta\nEnd");
                            assert_eq!(*at, Point { x: 5, y: 22 });
                            assert_eq!(*size, 3);
                        }
                        _ => panic!("expected the label"),
                    }
                }
                _ => panic!("expected shapes"),
            }
        }
        _ => panic!("expected a ported visual"),
    }
    let (_, v) = visualize_simple_box("a\nb\nc\nd\ne", ());
    match v {
        VisualizeResult::Block { texture: Canvas { picture: Picture::Shapes(shapes), .. }, .. } => {
            match &shapes[0] {
                Shape::Text { at, .. } => assert_eq!(at.y, -7),
                _ => panic!("expected the label"),
            }
        }
        _ => panic!("expected a ported visual"),
    }
}

#[test]
fn autopad_start_and_end() {
    let mut p = AutoPad::<2>::Start;
    let out = p.process((vec![1.0f32, 2.0], vec![3.0f32, 4.0, 5.0, 6.0]));
    assert_eq!(out, (vec![0.0, 0.0, 1.0, 2.0], vec![3.0, 4.0, 5.0, 6.0]));
    let mut p = AutoPad::<3>::End;
    let out = p.process(((vec![1i32], vec![]), vec![7, 8, 9]));
    assert_eq!(out, ((vec![1, 0, 0], vec![0, 0, 0]), vec![7, 8, 9]));
}

#[test]
fn envelope_frames() {
    let mut e = EnvelopeBlock {
        t: EnvelopeType::Amp,
        window: WindowSetting { frame_size: 3, hop_length: 2 },
    };
    // frames: [0,3) [2,5) [4,6) [6,6); the last sample is never read
    let out = e.process(vec![1.0f32, 5.0, 2.0, -1.0, 4.0, 3.0, 9.0]);
    assert_eq!(out, vec![5.0, 4.0, 4.0, 0.0]);
    let mut d = EnvelopeBlock::default();
    assert_eq!(d.window, WindowSetting { frame_size: 1024, hop_length: 512 });
    assert_eq!(d.process(Vec::<f32>::new()), Vec::<f32>::new());
    assert_eq!(d.process(vec![2.0f32]), vec![0.0]);
}

#[test]
fn equal_lengths_for_mixing() {
    assert_eq!(common_length(&vec![vec![1.0f32, 2.0], vec![3.0, 4.0]]), Some(2));
    assert_eq!(common_length(&vec![vec![1.0f32, 2.0], vec![3.0]]), None);
    assert_eq!(common_length::<f32>(&vec![]), None);
    assert_eq!(common_length::<f32>(&vec![vec![], vec![]]), Some(0));
}
