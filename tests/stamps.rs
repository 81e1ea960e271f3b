use wre::stamp::{
    generate_cross_mesh, generate_filler_mesh, generate_seam_mesh, generate_tile_mesh,
    generate_trim_mesh, HalfPoint, Mesh2d, TILE_RES,
};

fn hp(hx: i64, hy: i64) -> HalfPoint {
    HalfPoint { hx, hy }
}

fn assert_indices_in_range(m: &Mesh2d) {
    assert_eq!(m.vertices.len(), m.vertex_count);
    assert_eq!(m.indices.len(), m.index_count);
    for &i in &m.indices {
        assert!((i as usize) < m.vertex_count);
    }
}

#[test]
fn tile_and_filler_sizes_at_default_resolution() {
    assert_eq!(TILE_RES, 64);
    let tile = generate_tile_mesh(TILE_RES);
    assert_eq!(tile.vertex_count, 4225);
    assert_eq!(tile.index_count, 24576);
    assert_eq!(tile.vertices.len(), 4225);
    assert_eq!(tile.indices.len(), 24576);
    assert_eq!(tile.instance_count, 160);
    let fill = generate_filler_mesh(TILE_RES);
    assert_eq!(fill.vertex_count, 520);
    assert_eq!(fill.index_count, 1536);
    assert_eq!(fill.instance_count, 10);
}

#[test]
fn trim_cross_seam_sizes_at_default_resolution() {
    let clip_vert_res = 64 * 4 + 2;
    let trim = generate_trim_mesh(TILE_RES);
    assert_eq!(trim.vertex_count, (clip_vert_res * 2 + 1) * 2);
    assert_eq!(trim.index_count, (clip_vert_res * 2 - 1) * 6);
    assert_eq!(trim.instance_count, 9);
    let cross = generate_cross_mesh(TILE_RES);
    assert_eq!(cross.vertex_count, 8 * 65);
    assert_eq!(cross.index_count, 24 * 64 + 6);
    assert_eq!(cross.instance_count, 1);
    let seam = generate_seam_mesh(TILE_RES);
    assert_eq!(seam.vertex_count, 4 * clip_vert_res);
    assert_eq!(seam.index_count, 6 * clip_vert_res);
    assert_eq!(seam.instance_count, 9);
}

#[test]
fn sizes_follow_closed_forms_for_several_resolutions() {
    for res in [0usize, 1, 2, 3, 7, 16] {
        let p = res + 1;
        let c = 4 * res + 2;
        let tile = generate_tile_mesh(res as u32);
        assert_eq!((tile.vertex_count, tile.index_count), (p * p, 6 * res * res));
        let fill = generate_filler_mesh(res as u32);
        assert_eq!((fill.vertex_count, fill.index_count), (8 * p, 24 * res));
        let trim = generate_trim_mesh(res as u32);
        assert_eq!((trim.vertex_count, trim.index_count), ((2 * c + 1) * 2, (2 * c - 1) * 6));
        let cross = generate_cross_mesh(res as u32);
        assert_eq!((cross.vertex_count, cross.index_count), (8 * p, 24 * res + 6));
        let seam = generate_seam_mesh(res as u32);
        assert_eq!((seam.vertex_count, seam.index_count), (4 * c, 6 * c));
        for m in [&tile, &fill, &trim, &cross, &seam] {
            assert_indices_in_range(m);
        }
    }
}

#[test]
fn tile_at_resolution_two_matches_hand_enumeration() {
    let tile = generate_tile_mesh(2);
    assert_eq!(tile.label, "Tile");
    let mut expected_vertices = Vec::new();
    for y in 0..3 {
        for x in 0..3 {
            expected_vertices.push(hp(2 * x, 2 * y));
        }
    }
    assert_eq!(tile.vertices, expected_vertices);
    assert_eq!(
        tile.indices,
        vec![
            0, 4, 3, 0, 1, 4, //
            1, 5, 4, 1, 2, 5, //
            3, 7, 6, 3, 4, 7, //
            4, 8, 7, 4, 5, 8,
        ]
    );
}

#[test]
fn filler_at_resolution_one() {
    let fill = generate_filler_mesh(1);
    assert_eq!(
        fill.vertices,
        vec![
            hp(4, 0), hp(4, 2), hp(6, 0), hp(6, 2), // +x arm
            hp(2, 4), hp(0, 4), hp(2, 6), hp(0, 6), // +y arm
            hp(-2, 2), hp(-2, 0), hp(-4, 2), hp(-4, 0), // -x arm
            hp(0, -2), hp(2, -2), hp(0, -4), hp(2, -4), // -y arm
        ]
    );
    assert_eq!(
        fill.indices,
        vec![
            1, 0, 3, 0, 2, 3, //
            5, 4, 6, 5, 6, 7, //
            9, 8, 11, 8, 10, 11, //
            13, 12, 14, 13, 14, 15,
        ]
    );
}

#[test]
fn trim_at_resolution_zero_is_centred() {
    let trim = generate_trim_mesh(0);
    assert_eq!(
        trim.vertices,
        vec![
            hp(-3, 1), hp(-1, 1), hp(-3, -1), hp(-1, -1), hp(-3, -3), hp(-1, -3),
            hp(-1, -3), hp(-1, -1), hp(1, -3), hp(1, -1),
        ]
    );
    assert_eq!(trim.indices, vec![1, 0, 2, 3, 1, 2, 3, 2, 4, 5, 3, 4, 7, 6, 8, 9, 7, 8]);
}

#[test]
fn cross_at_resolution_zero_and_one() {
    let cross = generate_cross_mesh(0);
    assert_eq!(
        cross.vertices,
        vec![hp(0, 0), hp(0, 2), hp(2, 0), hp(2, 2), hp(0, 0), hp(2, 0), hp(0, 2), hp(2, 2)]
    );
    assert_eq!(cross.indices, vec![1, 0, 3, 0, 2, 3]);

    let cross = generate_cross_mesh(1);
    // three horizontal quads, then the vertical ones without the centre quad (i == 1)
    assert_eq!(cross.index_count, 30);
    assert_eq!(&cross.indices[0..6], &[1, 0, 3, 0, 2, 3]);
    assert_eq!(&cross.indices[12..18], &[5, 4, 7, 4, 6, 7]);
    assert_eq!(&cross.indices[18..24], &[9, 11, 8, 8, 11, 10]);
    assert_eq!(&cross.indices[24..30], &[13, 15, 12, 12, 15, 14]);
}

#[test]
fn seam_at_resolution_zero_wraps_round() {
    let seam = generate_seam_mesh(0);
    assert_eq!(
        seam.vertices,
        vec![hp(0, 0), hp(2, 0), hp(4, 0), hp(4, 2), hp(4, 4), hp(2, 4), hp(0, 4), hp(0, 2)]
    );
    assert_eq!(seam.indices, vec![1, 0, 2, 3, 2, 4, 5, 4, 6, 7, 6, 0]);
}

#[test]
fn seam_last_triangle_wraps_at_default_resolution() {
    let seam = generate_seam_mesh(TILE_RES);
    let n = seam.index_count;
    let v = seam.vertex_count as u32;
    assert_eq!(&seam.indices[n - 3..n], &[v - 1, v - 2, 0]);
}
