use openenc::tiles::{ceil_log2_exec, is_visible, tile_order, TileFeature};

#[test]
fn zoom_thresholds() {
    assert_eq!(ceil_log2_exec(1), 0);
    assert_eq!(ceil_log2_exec(2), 1);
    assert_eq!(ceil_log2_exec(3), 2);
    assert_eq!(ceil_log2_exec(12000), 14);
    assert_eq!(ceil_log2_exec(50000), 16);
    assert_eq!(ceil_log2_exec(i32::MAX), 31);
    let f = TileFeature { compilation_scale: 12000, scamin: None };
    assert!(!is_visible(f, 13));
    assert!(is_visible(f, 14));
    let g = TileFeature { compilation_scale: 50000, scamin: Some(500000) };
    assert!(!is_visible(g, 9));
    assert!(is_visible(g, 12));
    let h = TileFeature { compilation_scale: 8000, scamin: Some(3000000) };
    assert!(!is_visible(h, 14));
    assert!(is_visible(h, 15));
    assert!(!is_visible(TileFeature { compilation_scale: 0, scamin: None }, 20));
}

#[test]
fn coarser_chart_drawn_beneath_finer() {
    // Two overlapping features of one type: one from a 1:12000 chart, one
    // from a 1:50000 chart, neither with a scale minimum.
    let fs = vec![
        TileFeature { compilation_scale: 12000, scamin: None },
        TileFeature { compilation_scale: 50000, scamin: None },
    ];
    assert_eq!(tile_order(&fs, 14), vec![1, 0]);
    assert_eq!(tile_order(&fs, 20), vec![1, 0]);
    assert_eq!(tile_order(&fs, 12), vec![1]);
    assert_eq!(tile_order(&fs, 11), Vec::<usize>::new());
}

#[test]
fn equal_scales_keep_input_order() {
    let fs = vec![
        TileFeature { compilation_scale: 22000, scamin: None },
        TileFeature { compilation_scale: 90000, scamin: None },
        TileFeature { compilation_scale: 22000, scamin: None },
        TileFeature { compilation_scale: 3000, scamin: None },
    ];
    assert_eq!(tile_order(&fs, 16), vec![1, 0, 2, 3]);
}
