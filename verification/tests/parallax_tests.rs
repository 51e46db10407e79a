use parallax::fixed::{Vec2, FX_MAX, FX_MIN, SCALE};
use parallax::layer::{
    LayerComponent, LayerData, LayerRepeat, LayerSpeed, LayerTextureComponent, RepeatStrategy,
    TileCount,
};
use parallax::parallax::{
    tile_recycle_shift, CreateParallaxEvent, Limit, ParallaxCameraComponent, ParallaxMoveEvent,
    Vec2Limit,
};

#[test]
fn test_check() {
    assert_eq!(true, true);
}

#[test]
fn test_parallax_event() {
    let camera: u64 = 0;

    let no_movement = ParallaxMoveEvent {
        translation: Vec2::zero(),
        rotation: 0,
        camera: camera,
    };
    assert_eq!(no_movement.has_translation(), false);
    assert_eq!(no_movement.has_up_translation(), false);
    assert_eq!(no_movement.has_down_translation(), false);
    assert_eq!(no_movement.has_left_translation(), false);
    assert_eq!(no_movement.has_right_translation(), false);

    let up = ParallaxMoveEvent {
        translation: Vec2::new(0, SCALE),
        rotation: 0,
        camera: camera,
    };
    assert_eq!(up.has_translation(), true);
    assert_eq!(up.has_up_translation(), true);
    assert_eq!(up.has_down_translation(), false);
    assert_eq!(up.has_left_translation(), false);
    assert_eq!(up.has_right_translation(), false);

    let down = ParallaxMoveEvent {
        translation: Vec2::new(0, -SCALE),
        rotation: 0,
        camera: camera,
    };
    assert_eq!(down.has_translation(), true);
    assert_eq!(down.has_up_translation(), false);
    assert_eq!(down.has_down_translation(), true);
    assert_eq!(down.has_left_translation(), false);
    assert_eq!(down.has_right_translation(), false);

    let left = ParallaxMoveEvent {
        translation: Vec2::new(-SCALE, 0),
        rotation: 0,
        camera: camera,
    };
    assert_eq!(left.has_translation(), true);
    assert_eq!(left.has_up_translation(), false);
    assert_eq!(left.has_down_translation(), false);
    assert_eq!(left.has_left_translation(), true);
    assert_eq!(left.has_right_translation(), false);

    let right = ParallaxMoveEvent {
        translation: Vec2::new(SCALE, 0),
        rotation: 0,
        camera: camera,
    };
    assert_eq!(right.has_translation(), true);
    assert_eq!(right.has_up_translation(), false);
    assert_eq!(right.has_down_translation(), false);
    assert_eq!(right.has_left_translation(), false);
    assert_eq!(right.has_right_translation(), true);

    let left_down = ParallaxMoveEvent {
        translation: Vec2::new(-SCALE, -SCALE),
        rotation: 0,
        camera: camera,
    };
    assert_eq!(left_down.has_translation(), true);
    assert_eq!(left_down.has_up_translation(), false);
    assert_eq!(left_down.has_down_translation(), true);
    assert_eq!(left_down.has_left_translation(), true);
    assert_eq!(left_down.has_right_translation(), false);

    let up_right = ParallaxMoveEvent {
        translation: Vec2::new(SCALE, SCALE),
        rotation: 0,
        camera: camera,
    };
    assert_eq!(up_right.has_translation(), true);
    assert_eq!(up_right.has_up_translation(), true);
    assert_eq!(up_right.has_down_translation(), false);
    assert_eq!(up_right.has_left_translation(), false);
    assert_eq!(up_right.has_right_translation(), true);
}

#[test]
fn test_limit_clamp() {
    let l = Limit::new(-2 * SCALE, 3 * SCALE);
    // Inside the range: untouched.
    assert_eq!(l.fix(SCALE), SCALE);
    // Outside: clamped to the nearer bound.
    assert_eq!(l.fix(5 * SCALE), 3 * SCALE);
    assert_eq!(l.fix(-9 * SCALE), -2 * SCALE);
    // Boundaries are kept.
    assert_eq!(l.fix(3 * SCALE), 3 * SCALE);
    assert_eq!(l.fix(-2 * SCALE), -2 * SCALE);
    // Default limit is unbounded over the representable range.
    let d = Limit::default();
    assert_eq!(d.min, FX_MIN);
    assert_eq!(d.max, FX_MAX);
    assert_eq!(d.fix(123_456), 123_456);
    // Convenience constructors.
    assert_eq!(Limit::zero_to_infinity().min, 0);
    assert_eq!(Limit::zero_to_infinity().max, FX_MAX);
    assert_eq!(Limit::zero_to(7).max, 7);
    assert_eq!(Limit::zero_to(7).fix(-3), 0);
}

#[test]
fn test_inverted_limit_upper_bound_wins() {
    // The lower bound is applied first, so an inverted range collapses onto
    // its upper bound.
    let l = Limit::new(5 * SCALE, -5 * SCALE);
    assert_eq!(l.fix(0), -5 * SCALE);
    assert_eq!(l.fix(10 * SCALE), -5 * SCALE);
}

#[test]
fn test_apply_move_absorbs_at_lower_boundary() {
    let cam = ParallaxCameraComponent {
        render_layer: 0,
        limits: Vec2Limit::new(Limit::zero_to(500 * SCALE), Limit::default()),
    };
    let pos = Vec2::new(0, 7 * SCALE);
    let (new_pos, effective) = cam.apply_move(pos, Vec2::new(-20 * SCALE, 0));
    assert_eq!(new_pos, pos);
    assert_eq!(effective, Vec2::zero());
}

#[test]
fn test_vec2_limit_is_componentwise() {
    let l = Vec2Limit::new(Limit::new(0, SCALE), Limit::new(-SCALE, 0));
    assert_eq!(l.fix(Vec2::new(5 * SCALE, -5 * SCALE)), Vec2::new(SCALE, -SCALE));
    let cam = ParallaxCameraComponent::new(2);
    assert_eq!(cam.render_layer, 2);
    assert_eq!(cam.inside_limits(Vec2::new(42, -42)), Vec2::new(42, -42));
    let def = ParallaxCameraComponent::default();
    assert_eq!(def.render_layer, 0);
}

#[test]
fn test_apply_move_clamps_and_absorbs() {
    // Camera with vertical travel limited to [0, 500] standing at y = 100.
    let cam = ParallaxCameraComponent {
        render_layer: 0,
        limits: Vec2Limit::new(Limit::default(), Limit::zero_to(500 * SCALE)),
    };
    let pos = Vec2::new(100 * SCALE, 100 * SCALE);
    let (new_pos, effective) = cam.apply_move(pos, Vec2::new(0, 600 * SCALE));
    // The prospective y of 700 is clamped to 500; the layers see what the
    // camera actually moved.
    assert_eq!(new_pos, Vec2::new(100 * SCALE, 500 * SCALE));
    assert_eq!(effective, Vec2::new(0, 400 * SCALE));

    // At the boundary, a request further into it is silently absorbed.
    let (stay_pos, stay_eff) = cam.apply_move(new_pos, Vec2::new(0, 50 * SCALE));
    assert_eq!(stay_pos, new_pos);
    assert_eq!(stay_eff, Vec2::zero());
}

fn horizontal_layer() -> LayerData {
    LayerData {
        speed: LayerSpeed::Horizontal(500_000),
        repeat: LayerRepeat::horizontally(RepeatStrategy::Same),
        tile_size: Vec2::new(96 * SCALE, 160 * SCALE),
        ..LayerData::default()
    }
}

#[test]
fn test_build_horizontal_layer_grid() {
    // Viewport 240 x 320 has diagonal 400; with 96-wide tiles at scale 1 the
    // grid needs ceil(400 / 96) = 5 cells either side, so 10 tiles.
    let event = CreateParallaxEvent { layers_data: vec![horizontal_layer()], camera: 7 };
    let window = Vec2::new(240 * SCALE, 320 * SCALE);
    let spawned = event.create_layers(window, 3);
    assert_eq!(spawned.len(), 1);
    let layer = &spawned[0];
    assert_eq!(layer.layer.texture_count, TileCount { x: 10, y: 1 });
    assert_eq!(layer.layer.speed, Vec2::new(500_000, 0));
    assert_eq!(layer.layer.camera, 7);
    assert_eq!(layer.render_layer, 3);
    assert_eq!(layer.texture, LayerTextureComponent { width: 96 * SCALE, height: 160 * SCALE });
    assert_eq!(layer.tiles.len(), 10);
    // Cells range over (-5, 5]; evenly spaced by the tile width.
    for (k, tile) in layer.tiles.iter().enumerate() {
        let cell = k as i64 - 4;
        assert_eq!(tile.grid_x, cell);
        assert_eq!(tile.grid_y, 0);
        assert_eq!(tile.position, Vec2::new(96 * SCALE * cell, 0));
        assert!(!tile.sprite.flip_x);
        assert!(!tile.sprite.flip_y);
        assert!(tile.frame_update.is_none());
    }
}

#[test]
fn test_build_mirrored_layer_flips_odd_cells() {
    let layer_data = LayerData {
        repeat: LayerRepeat::horizontally(RepeatStrategy::MirrorHorizontally),
        ..horizontal_layer()
    };
    let event = CreateParallaxEvent { layers_data: vec![layer_data], camera: 0 };
    let spawned = event.create_layers(Vec2::new(240 * SCALE, 320 * SCALE), 0);
    for tile in &spawned[0].tiles {
        assert_eq!(tile.sprite.flip_x, tile.grid_x % 2 != 0);
        assert!(!tile.sprite.flip_y);
    }
}

#[test]
fn test_build_bidirectional_layer() {
    let layer_data = LayerData {
        speed: LayerSpeed::Bidirectional(250_000, 750_000),
        repeat: LayerRepeat::both(RepeatStrategy::Same),
        tile_size: Vec2::new(200 * SCALE, 200 * SCALE),
        ..LayerData::default()
    };
    let event = CreateParallaxEvent { layers_data: vec![layer_data], camera: 1 };
    // Diagonal 400, tile 200: 2 cells either side of center per axis.
    let spawned = event.create_layers(Vec2::new(240 * SCALE, 320 * SCALE), 0);
    let layer = &spawned[0];
    assert_eq!(layer.layer.speed, Vec2::new(250_000, 750_000));
    assert_eq!(layer.layer.texture_count, TileCount { x: 4, y: 4 });
    assert_eq!(layer.tiles.len(), 16);
    // Vertical cells iterate fastest within one column.
    assert_eq!(layer.tiles[0].grid_x, -1);
    assert_eq!(layer.tiles[0].grid_y, -1);
    assert_eq!(layer.tiles[1].grid_y, 0);
    assert_eq!(layer.tiles[15].grid_x, 2);
    assert_eq!(layer.tiles[15].grid_y, 2);
}

#[test]
fn test_build_zero_tile_size_spawns_single_tile() {
    // A degenerate tile extent must not divide by zero: the axis is sized as
    // non-replicating, one tile.
    let layer_data = LayerData {
        repeat: LayerRepeat::both(RepeatStrategy::Same),
        tile_size: Vec2::zero(),
        ..LayerData::default()
    };
    let event = CreateParallaxEvent { layers_data: vec![layer_data], camera: 0 };
    let spawned = event.create_layers(Vec2::new(240 * SCALE, 320 * SCALE), 0);
    assert_eq!(spawned[0].layer.texture_count, TileCount { x: 1, y: 1 });
    assert_eq!(spawned[0].tiles.len(), 1);
    assert_eq!(spawned[0].tiles[0].grid_x, 0);
}

#[test]
fn test_replication_counts_even_or_one() {
    // For any positive tile size and viewport, each axis count is even, or
    // exactly 1 on a non-repeating axis.
    let windows = [
        Vec2::new(240 * SCALE, 320 * SCALE),
        Vec2::new(1, 1),
        Vec2::new(1920 * SCALE, 1080 * SCALE),
        Vec2::zero(),
    ];
    let tiles = [Vec2::new(96 * SCALE, 160 * SCALE), Vec2::new(1, 1), Vec2::new(7 * SCALE, 13)];
    for w in &windows {
        for t in &tiles {
            let layer_data = LayerData {
                repeat: LayerRepeat::both(RepeatStrategy::Same),
                tile_size: *t,
                ..LayerData::default()
            };
            let c = CreateParallaxEvent::replication_counts(&layer_data, *w);
            assert!(c.x == 1 || c.x % 2 == 0);
            assert!(c.y == 1 || c.y % 2 == 0);
            assert!(c.x >= 1 && c.y >= 1);
        }
    }
    let one_axis = LayerData {
        repeat: LayerRepeat::vertically(RepeatStrategy::Same),
        tile_size: Vec2::new(96 * SCALE, 160 * SCALE),
        ..LayerData::default()
    };
    let c = CreateParallaxEvent::replication_counts(&one_axis, Vec2::new(240 * SCALE, 320 * SCALE));
    assert_eq!(c.x, 1);  // horizontal axis does not repeat
    assert_eq!(c.y, 6);  // ceil(400 / 160) = 3 cells either side
}

#[test]
fn test_create_layers_checked() {
    let good = CreateParallaxEvent { layers_data: vec![horizontal_layer()], camera: 0 };
    let window = Vec2::new(240 * SCALE, 320 * SCALE);
    let built = good.create_layers_checked(window, 0);
    assert!(built.is_some());
    assert_eq!(built.unwrap().len(), 1);

    let bad = CreateParallaxEvent {
        layers_data: vec![LayerData { cols: 0, ..LayerData::default() }],
        camera: 0,
    };
    assert!(bad.create_layers_checked(window, 0).is_none());
}

#[test]
fn test_recycle_shift_moves_offscreen_tile_by_one_span() {
    let layer = LayerComponent {
        speed: Vec2::new(SCALE, 0),
        repeat: LayerRepeat::horizontally(RepeatStrategy::Same),
        texture_count: TileCount { x: 10, y: 1 },
        camera: 0,
    };
    let texture = LayerTextureComponent { width: 96 * SCALE, height: 160 * SCALE };
    let span: i64 = 960 * SCALE;
    let view = Vec2::new(400 * SCALE, 300 * SCALE);
    let rightward = ParallaxMoveEvent {
        translation: Vec2::new(SCALE, 0),
        rotation: 0,
        camera: 0,
    };
    // Camera far to the right of the tile: the tile has exited on the left
    // and jumps one full span to the right.
    let shift = tile_recycle_shift(
        &rightward,
        &layer,
        &texture,
        Vec2::new(2000 * SCALE, 0),  // camera
        Vec2::zero(),                // tile
        Vec2::new(SCALE, SCALE),     // tile scale
        view,
        false,
    );
    assert_eq!(shift, Vec2::new(span, 0));

    // Leftward movement with the tile far off the right edge: one span left.
    let leftward = ParallaxMoveEvent {
        translation: Vec2::new(-SCALE, 0),
        rotation: 0,
        camera: 0,
    };
    let shift = tile_recycle_shift(
        &leftward,
        &layer,
        &texture,
        Vec2::new(-2000 * SCALE, 0),
        Vec2::zero(),
        Vec2::new(SCALE, SCALE),
        view,
        false,
    );
    assert_eq!(shift, Vec2::new(-span, 0));

    // A visible tile is never touched, however far it stands.
    let shift = tile_recycle_shift(
        &rightward,
        &layer,
        &texture,
        Vec2::new(2000 * SCALE, 0),
        Vec2::zero(),
        Vec2::new(SCALE, SCALE),
        view,
        true,
    );
    assert_eq!(shift, Vec2::zero());

    // A tile still near the viewport stays put.
    let shift = tile_recycle_shift(
        &rightward,
        &layer,
        &texture,
        Vec2::new(100 * SCALE, 0),
        Vec2::zero(),
        Vec2::new(SCALE, SCALE),
        view,
        false,
    );
    assert_eq!(shift, Vec2::zero());
}

#[test]
fn test_recycle_round_trip_preserves_position_modulo_span() {
    // Whole-span jumps keep a tile congruent to its canonical position.
    let span: i64 = 960 * SCALE;
    let start: i64 = -4 * 96 * SCALE;
    let mut pos: i64 = start;
    for _ in 0..5 {
        pos += span;
        assert_eq!(pos.rem_euclid(span), start.rem_euclid(span));
    }
    for _ in 0..11 {
        pos -= span;
        assert_eq!(pos.rem_euclid(span), start.rem_euclid(span));
    }
}

#[test]
fn test_stationary_layer_never_moves() {
    // A layer with bidirectional speed (0, 0) is fully stationary whatever
    // the camera does.
    let layer_data = LayerData {
        speed: LayerSpeed::Bidirectional(0, 0),
        ..horizontal_layer()
    };
    let event = CreateParallaxEvent { layers_data: vec![layer_data], camera: 0 };
    let spawned = event.create_layers(Vec2::new(240 * SCALE, 320 * SCALE), 0);
    let layer = spawned[0].layer;
    assert_eq!(layer.speed, Vec2::zero());
    let deltas = [
        Vec2::new(SCALE, 0),
        Vec2::new(-7 * SCALE, 3 * SCALE),
        Vec2::new(FX_MAX, FX_MIN),
        Vec2::zero(),
    ];
    for d in &deltas {
        assert_eq!(layer.displacement(*d), Vec2::zero());
    }
}
