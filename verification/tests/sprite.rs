use ship_game::sprite::{place_sprite, Blit, Point, Rect};

#[test]
fn ship_in_the_middle_of_the_screen() {
    let blit = place_sprite(400, 300, 0, 100, 100, 50, 50);
    assert_eq!(blit.src, Rect { x: 0, y: 0, w: 100, h: 100 });
    assert_eq!(blit.dest, Rect { x: 375, y: 275, w: 50, h: 50 });
    assert_eq!(blit.center, Point { x: 25, y: 25 });
    assert_eq!(blit.angle, 0);
}

#[test]
fn blit_is_turned_by_the_heading() {
    assert_eq!(place_sprite(400, 300, 3, 100, 100, 50, 50).angle, 3);
    assert_eq!(place_sprite(400, 300, 717, 100, 100, 50, 50).angle, 717);
    assert_eq!(place_sprite(400, 300, 720, 100, 100, 50, 50).angle, 720);
    assert_eq!(place_sprite(400, 300, -3, 100, 100, 50, 50).angle, -3);
}

#[test]
fn source_is_the_top_left_of_the_texture() {
    let blit = place_sprite(10, 20, 90, 64, 32, 8, 4);
    assert_eq!(blit.src, Rect { x: 0, y: 0, w: 64, h: 32 });
}

#[test]
fn odd_sizes_round_the_half_down() {
    let blit = place_sprite(100, 200, 717, 10, 10, 51, 7);
    assert_eq!(
        blit,
        Blit {
            src: Rect { x: 0, y: 0, w: 10, h: 10 },
            dest: Rect { x: 75, y: 197, w: 51, h: 7 },
            angle: 717,
            center: Point { x: 25, y: 3 },
        }
    );
}

#[test]
fn sprite_may_hang_off_the_screen() {
    let blit = place_sprite(0, -10, 0, 100, 100, 50, 50);
    assert_eq!(blit.dest, Rect { x: -25, y: -35, w: 50, h: 50 });
    assert_eq!(blit.center, Point { x: 25, y: 25 });
}

#[test]
fn empty_sprite_sits_on_its_position() {
    let blit = place_sprite(7, 9, 0, 0, 0, 0, 0);
    assert_eq!(blit.src, Rect { x: 0, y: 0, w: 0, h: 0 });
    assert_eq!(blit.dest, Rect { x: 7, y: 9, w: 0, h: 0 });
    assert_eq!(blit.center, Point { x: 0, y: 0 });
    let one = place_sprite(7, 9, 0, 1, 1, 1, 1);
    assert_eq!(one.dest, Rect { x: 7, y: 9, w: 1, h: 1 });
    assert_eq!(one.center, Point { x: 0, y: 0 });
}

#[test]
fn largest_sprite_still_fits_the_number_range() {
    let blit = place_sprite(-1, i32::MAX, 0, 1, 1, u32::MAX, u32::MAX);
    assert_eq!(blit.center, Point { x: i32::MAX, y: i32::MAX });
    assert_eq!(blit.dest, Rect { x: i32::MIN, y: 0, w: u32::MAX, h: u32::MAX });
}

#[test]
fn rotation_point_lands_on_the_position() {
    for (x, y, w, h) in [(400, 300, 50, 50), (-5, 3, 51, 7), (0, 0, 1, 2), (799, 599, 100, 100)] {
        let blit = place_sprite(x, y, 0, 100, 100, w, h);
        assert_eq!(blit.dest.x + blit.center.x, x);
        assert_eq!(blit.dest.y + blit.center.y, y);
    }
}
