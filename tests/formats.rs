use dsp_blocks::compose::ConnectorStyle;
use dsp_blocks::geometry::Point;
use dsp_blocks::graph::{Block, CanConnect, Identity, MapperBlock, MetadataExt};
use dsp_blocks::visual::{
    repeat_inputs, visualize_simple_box, wave_view_visual, Color, Picture, VisualizeResult, WaveViewType,
};
use dsp_blocks::wav::wav_header;

#[test]
fn wav_header_bytes() {
    let h = wav_header(10);
    assert_eq!(h.len(), 44);
    assert_eq!(&h[0..4], b"RIFF");
    assert_eq!(&h[4..8], &76u32.to_le_bytes());
    assert_eq!(&h[8..12], b"WAVE");
    assert_eq!(&h[12..16], b"fmt ");
    assert_eq!(&h[16..20], &16u32.to_le_bytes());
    assert_eq!(&h[20..22], &3u16.to_le_bytes());
    assert_eq!(&h[22..24], &1u16.to_le_bytes());
    assert_eq!(&h[24..28], &44100u32.to_le_bytes());
    assert_eq!(&h[28..32], &22050i32.to_le_bytes());
    assert_eq!(&h[32..34], &0i16.to_le_bytes());
    assert_eq!(&h[34..36], &32i16.to_le_bytes());
    assert_eq!(&h[36..40], b"data");
    assert_eq!(&h[40..44], &40u32.to_le_bytes());
}

#[test]
fn wav_header_sizes_wrap() {
    let n = (1usize << 30) + 1;
    let h = wav_header(n);
    assert_eq!(&h[4..8], &40u32.to_le_bytes());
    assert_eq!(&h[40..44], &4u32.to_le_bytes());
    let e = wav_header(0);
    assert_eq!(&e[4..8], &36u32.to_le_bytes());
    assert_eq!(&e[40..44], &0u32.to_le_bytes());
}

#[test]
fn repeated_input_ports() {
    let (_, v) = visualize_simple_box("Mix", ());
    let v = repeat_inputs(v, 3);
    match v {
        VisualizeResult::Block { input_connections, output_connections, .. } => {
            assert_eq!(input_connections, vec![Point { x: 0, y: 27 }; 3]);
            assert_eq!(output_connections, vec![Point { x: 55, y: 27 }]);
        }
        _ => panic!("expected a ported visual"),
    }
    assert!(matches!(repeat_inputs(VisualizeResult::Empty, 4), VisualizeResult::Empty));
}

#[test]
fn colored_connectors() {
    let plain = Identity.connect(Identity);
    assert_eq!(plain.style, ConnectorStyle::Plain);
    let mut c = Identity.connect(Identity).colored();
    assert_eq!(c.style, ConnectorStyle::Colored);
    let (_, v) = c.process_and_visualize(1u8);
    match v.unwrap().as_simple_texture().map(|c| &c.picture) {
        Some(Picture::Pair { wires, .. }) => {
            assert_eq!(wires.len(), 1);
            assert_eq!(wires[0].color, Color::BlueViolet);
        }
        _ => panic!("expected two placed children"),
    }
    let by_option = MetadataExt::colored(Identity.connect(Identity));
    assert_eq!(by_option.style, ConnectorStyle::Colored);
    let mut p = Identity.connect(Identity);
    let (_, v) = p.process_and_visualize(1u8);
    match v.unwrap().as_simple_texture().map(|c| &c.picture) {
        Some(Picture::Pair { wires, .. }) => assert_eq!(wires[0].color, Color::White),
        _ => panic!("expected two placed children"),
    }
}

#[test]
fn mapper_without_visual() {
    let m = MapperBlock { mapper: |x: i64| x - 1, name: "Dec".to_string(), no_vis: false };
    let mut shown = MapperBlock { mapper: |x: i64| x - 1, name: "Dec".to_string(), no_vis: false };
    let (out, v) = shown.process_and_visualize(3);
    assert_eq!(out, 2);
    assert!(matches!(v, Ok(VisualizeResult::Block { .. })));
    let mut hidden = m.no_vis();
    assert!(hidden.no_vis);
    let (out, v) = hidden.process_and_visualize(3);
    assert_eq!(out, 2);
    assert!(matches!(v, Ok(VisualizeResult::Empty)));
}

#[test]
fn wave_view_layout() {
    let v = wave_view_visual(WaveViewType::Small, false, 100, 44100, 2, Vec::new()).unwrap();
    match v {
        VisualizeResult::Block { texture, input_connections, output_connections } => {
            assert_eq!((texture.width, texture.height), (110, 50 + 26));
            assert_eq!(input_connections, vec![Point { x: 0, y: 25 }]);
            assert_eq!(output_connections, vec![Point { x: 110, y: 25 }]);
        }
        _ => panic!("expected a ported visual"),
    }
    let v = wave_view_visual(WaveViewType::Grow, true, 88200, 44100, 1, Vec::new()).unwrap();
    assert_eq!(v.as_simple_texture().map(|c| (c.width, c.height)), Some((3 * 550 * 2, 63)));
    assert!(wave_view_visual(WaveViewType::Grow, false, usize::MAX, 1, 1, Vec::new()).is_none());
}

#[test]
fn simple_box_shows_its_label() {
    let (_, v) = visualize_simple_box("Step", 0u8);
    match v.as_simple_texture().map(|c| &c.picture) {
        Some(Picture::Shapes(shapes)) => match &shapes[0] {
            dsp_blocks::visual::Shape::Text { text, at, .. } => {
                assert_eq!(text, "Step");
                assert_eq!(*at, Point { x: 5, y: 32 });
            }
            _ => panic!("expected the label first"),
        },
        _ => panic!("expected shapes"),
    }
}
