use strwb::graphics::ui_renderer::UiRenderer;

fn quad(r: &mut UiRenderer<u32, &'static str>, base: u32, group: &'static str) {
    r.push_quad(base, base + 1, base + 2, base + 3, group);
}

#[test]
fn new_renderer_is_empty_with_initial_capacities() {
    let r: UiRenderer<u32, &str> = UiRenderer::new();
    assert!(r.vertices().is_empty());
    assert!(r.indices().is_empty());
    assert_eq!(r.command_count(), 0);
    assert_eq!(r.vertex_buffer_capacity(), 1024);
    assert_eq!(r.index_buffer_capacity(), 2048);
    assert_eq!(r.index_count(), 0);
    assert!(r.draw_ranges().is_none());
}

#[test]
fn push_quad_queues_two_triangles() {
    let mut r: UiRenderer<u32, &str> = UiRenderer::new();
    quad(&mut r, 100, "image");
    quad(&mut r, 200, "null");
    assert_eq!(r.vertices(), &vec![100, 101, 102, 103, 200, 201, 202, 203]);
    assert_eq!(r.indices(), &vec![0, 1, 2, 1, 3, 2, 4, 5, 6, 5, 7, 6]);
    assert_eq!(r.command_count(), 2);
    assert_eq!(*r.command_bind_group(0), "image");
    assert_eq!(*r.command_bind_group(1), "null");
    assert!(r.indices().iter().all(|i| (*i as usize) < r.vertices().len()));
}

#[test]
fn draw_ranges_need_an_upload() {
    let mut r: UiRenderer<u32, &str> = UiRenderer::new();
    quad(&mut r, 0, "a");
    assert!(r.draw_ranges().is_none());
    assert_eq!(r.upload(), Some((false, false)));
    assert_eq!(r.index_count(), 6);
    quad(&mut r, 4, "b");
    assert_eq!(r.draw_ranges(), Some(vec![(0, 6), (6, 12)]));
}

#[test]
fn begin_frame_clears_the_queue_and_keeps_capacities() {
    let mut r: UiRenderer<u32, &str> = UiRenderer::new();
    for i in 0..300u32 {
        quad(&mut r, 4 * i, "q");
    }
    assert_eq!(r.upload(), Some((true, false)));
    r.begin_frame();
    assert!(r.vertices().is_empty());
    assert!(r.indices().is_empty());
    assert_eq!(r.command_count(), 0);
    assert_eq!(r.index_count(), 0);
    assert_eq!(r.vertex_buffer_capacity(), 2048);
    assert_eq!(r.index_buffer_capacity(), 2048);
}

#[test]
fn upload_doubles_capacities_until_the_queue_fits() {
    let mut r: UiRenderer<u32, &str> = UiRenderer::new();
    for i in 0..600u32 {
        quad(&mut r, 4 * i, "q");
    }
    assert_eq!(r.vertices().len(), 2400);
    assert_eq!(r.indices().len(), 3600);
    assert_eq!(r.upload(), Some((true, true)));
    assert_eq!(r.vertex_buffer_capacity(), 4096);
    assert_eq!(r.index_buffer_capacity(), 4096);
    assert_eq!(r.index_count(), 3600);
    assert_eq!(r.upload(), Some((false, false)));
}

#[test]
fn quad_offsets_wrap_at_sixteen_bits() {
    let mut r: UiRenderer<u32, ()> = UiRenderer::new();
    for _ in 0..16384u32 {
        r.push_quad(0, 0, 0, 0, ());
    }
    r.push_quad(0, 0, 0, 0, ());
    let n = r.indices().len();
    assert_eq!(&r.indices()[n - 6..], &[0, 1, 2, 1, 3, 2]);
    assert_eq!(r.upload(), Some((true, true)));
    let plan = r.draw_ranges().unwrap();
    assert_eq!(plan[10922], (65532, 2));
    assert_eq!(plan[16384], (98304 % 65536, 98310 % 65536));
}

#[test]
fn index_bytes_are_the_indices_in_machine_order() {
    let mut r: UiRenderer<u32, &str> = UiRenderer::new();
    quad(&mut r, 0, "a");
    let expected: Vec<u8> = r.indices().iter().flat_map(|i| i.to_ne_bytes()).collect();
    assert_eq!(r.index_bytes(), expected.as_slice());
    assert_eq!(r.index_bytes().len(), 12);
    let le = r.index_bytes()[..6] == [0, 0, 1, 0, 2, 0];
    let be = r.index_bytes()[..6] == [0, 0, 0, 1, 0, 2];
    assert!(le || be);
}
