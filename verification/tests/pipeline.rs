use rscope::pipeline::{lines, stereo, Vertex, Vertices};

fn drain(vertices: &mut Vertices<f32>) -> Vec<Vertex<f32>> {
    let mut all = Vec::new();
    while let Some(v) = vertices.next() {
        all.push(v);
    }
    all
}

#[test]
fn three_points_give_two_quads() {
    let mut vertices = lines(vec![(0.0f32, 0.0f32), (1.0, 0.0), (1.0, 1.0)]);
    let all = drain(&mut vertices);
    assert_eq!(all.len(), 8);
    for corner in 0..4u32 {
        assert_eq!(
            all[corner as usize],
            Vertex { start: (0.0, 0.0), end: (1.0, 0.0), idx: corner }
        );
        assert_eq!(
            all[4 + corner as usize],
            Vertex { start: (1.0, 0.0), end: (1.0, 1.0), idx: corner }
        );
    }
    assert_eq!(vertices.next(), None);
}

#[test]
fn empty_input_gives_no_vertex() {
    let mut vertices = lines(Vec::<(f32, f32)>::new());
    assert_eq!(vertices.next(), None);
    assert_eq!(vertices.quads_ready(), 0);
    assert_eq!(vertices.collect(), vec![]);
    assert_eq!(vertices.frame(1), None);
}

#[test]
fn single_point_gives_no_vertex() {
    let mut vertices = lines(vec![(0.25f32, -0.5f32)]);
    assert_eq!(vertices.next(), None);
    assert_eq!(vertices.next(), None);
    assert_eq!(vertices.quads_ready(), 0);
}

#[test]
fn vertex_count_is_four_for_each_point_after_the_first() {
    for n in 0..7usize {
        let points: Vec<(u32, u32)> = (0..n as u32).map(|i| (i, 10 * i)).collect();
        let mut vertices = lines(points);
        let expected = if n == 0 { 0 } else { (n - 1) * 4 };
        assert_eq!(vertices.collect().len(), expected);
        assert_eq!(vertices.next(), None);
    }
}

#[test]
fn each_quad_holds_one_segment_and_counts_its_corners() {
    let points: Vec<(i32, i32)> = vec![(3, 4), (-1, 7), (8, 8), (0, -2), (5, 5)];
    let all = lines(points.clone()).collect();
    assert_eq!(all.len(), 16);
    for (i, v) in all.iter().enumerate() {
        assert_eq!(v.start, points[i / 4]);
        assert_eq!(v.end, points[i / 4 + 1]);
        assert_eq!(v.idx, (i % 4) as u32);
    }
    for i in 0..all.len() - 4 {
        assert_eq!(all[i + 4].start, all[i].end);
    }
}

#[test]
fn collect_hands_out_the_rest_only() {
    let mut vertices = lines(vec![(1u8, 1u8), (2, 2), (3, 3)]);
    assert_eq!(vertices.next(), Some(Vertex { start: (1, 1), end: (2, 2), idx: 0 }));
    assert_eq!(vertices.next(), Some(Vertex { start: (1, 1), end: (2, 2), idx: 1 }));
    let rest = vertices.collect();
    assert_eq!(rest.len(), 6);
    assert_eq!(rest[0], Vertex { start: (1, 1), end: (2, 2), idx: 2 });
    assert_eq!(rest[1], Vertex { start: (1, 1), end: (2, 2), idx: 3 });
    assert_eq!(rest[2], Vertex { start: (2, 2), end: (3, 3), idx: 0 });
    assert_eq!(rest[5], Vertex { start: (2, 2), end: (3, 3), idx: 3 });
    assert_eq!(vertices.collect(), vec![]);
}

#[test]
fn batches_are_taken_in_the_order_fed() {
    let b1 = vec![(1u32, 1u32), (2, 2)];
    let b2 = vec![(3u32, 3u32)];
    let b3 = vec![(4u32, 4u32), (5, 5), (6, 6)];
    let mut fed = lines(Vec::new());
    fed.feed(b1.clone());
    fed.feed(b2.clone());
    fed.feed(b3.clone());
    let mut whole = b1;
    whole.extend(b2);
    whole.extend(b3);
    assert_eq!(fed.collect(), lines(whole).collect());
}

#[test]
fn feeding_goes_on_where_the_trace_ended() {
    let mut vertices = lines(vec![(0u32, 0u32), (1, 0)]);
    let first = vertices.collect();
    assert_eq!(first.len(), 4);
    assert_eq!(vertices.next(), None);
    vertices.feed(vec![]);
    assert_eq!(vertices.next(), None);
    vertices.feed(vec![(1, 1)]);
    for corner in 0..4u32 {
        assert_eq!(
            vertices.next(),
            Some(Vertex { start: (1, 0), end: (1, 1), idx: corner })
        );
    }
    assert_eq!(vertices.next(), None);
}

#[test]
fn feeding_in_the_middle_of_a_quad_keeps_the_quad() {
    let mut vertices = lines(vec![(0u32, 0u32), (1, 0)]);
    assert_eq!(vertices.next(), Some(Vertex { start: (0, 0), end: (1, 0), idx: 0 }));
    vertices.feed(vec![(2, 0)]);
    assert_eq!(vertices.next(), Some(Vertex { start: (0, 0), end: (1, 0), idx: 1 }));
    assert_eq!(vertices.quads_ready(), 1);
    let rest = vertices.collect();
    assert_eq!(rest.len(), 6);
    assert_eq!(rest[2], Vertex { start: (1, 0), end: (2, 0), idx: 0 });
}

#[test]
fn quads_ready_counts_whole_quads() {
    let mut vertices = lines(vec![(0u32, 0u32), (1, 1), (2, 2), (3, 3)]);
    assert_eq!(vertices.quads_ready(), 3);
    vertices.next();
    assert_eq!(vertices.quads_ready(), 2);
    vertices.next();
    vertices.next();
    assert_eq!(vertices.quads_ready(), 2);
    vertices.next();
    assert_eq!(vertices.quads_ready(), 2);
    vertices.next();
    assert_eq!(vertices.quads_ready(), 1);
}

#[test]
fn a_frame_comes_whole_or_not_at_all() {
    let mut vertices = lines(vec![(0u32, 0u32), (1, 0), (1, 1)]);
    assert_eq!(vertices.frame(3), None);
    assert_eq!(vertices.quads_ready(), 2);
    let frame = vertices.frame(2).unwrap();
    assert_eq!(frame.len(), 8);
    assert_eq!(frame[0], Vertex { start: (0, 0), end: (1, 0), idx: 0 });
    assert_eq!(frame[7], Vertex { start: (1, 0), end: (1, 1), idx: 3 });
    assert_eq!(vertices.frame(1), None);
    assert_eq!(vertices.frame(0), Some(vec![]));
    vertices.feed(vec![(2, 2), (3, 3)]);
    let frame = vertices.frame(1).unwrap();
    assert_eq!(frame.len(), 4);
    assert_eq!(frame[0], Vertex { start: (1, 1), end: (2, 2), idx: 0 });
    assert_eq!(vertices.quads_ready(), 1);
}

#[test]
fn a_vertex_is_copied() {
    let v = Vertex { start: (0.5f32, 0.25f32), end: (1.0, 2.0), idx: 3 };
    let w = v;
    assert_eq!(v.clone(), w);
}

#[test]
fn stereo_pairs_the_channels_in_order() {
    let left = [0.1f32, 0.2, 0.3];
    let right = [-0.1f32, -0.2, -0.3];
    assert_eq!(stereo(&left, &right), vec![(0.1, -0.1), (0.2, -0.2), (0.3, -0.3)]);
}

#[test]
fn stereo_stops_with_the_shorter_channel() {
    assert_eq!(stereo(&[1u8, 2, 3], &[9u8]), vec![(1, 9)]);
    assert_eq!(stereo(&[1u8], &[7u8, 8, 9]), vec![(1, 7)]);
    assert_eq!(stereo::<u8>(&[], &[7, 8]), vec![]);
}
