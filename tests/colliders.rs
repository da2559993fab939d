use tappy_plane::engine::Rect;
use tappy_plane::physics::{ceiling_rect, floor_rect, plane_rect, ColliderShape};
use tappy_plane::utils::{Circle, Dimension, Position, Rectangle};

#[test]
fn boundaries_cover_top_and_bottom_bands() {
    assert_eq!(floor_rect(), Rect { x: 0, y: 409, width: 808, height: 71 });
    assert_eq!(ceiling_rect(), Rect { x: 0, y: 0, width: 808, height: 71 });
}

#[test]
fn player_starts_vertically_centred() {
    assert_eq!(plane_rect(), Rect { x: 88, y: 203, width: 88, height: 73 });
}

#[test]
fn collider_is_centred_on_its_region() {
    assert_eq!(
        floor_rect().collider_shape(),
        ColliderShape {
            center_x: 404 * 600,
            center_y: 444 * 600 + 300,
            half_width: 404 * 600,
            half_height: 35 * 600 + 300
        }
    );
    assert_eq!(
        plane_rect().collider_shape(),
        ColliderShape {
            center_x: 132 * 600,
            center_y: 239 * 600 + 300,
            half_width: 44 * 600,
            half_height: 36 * 600 + 300
        }
    );
}

#[test]
fn collider_of_an_odd_region_spans_it_exactly() {
    let s = Rect { x: -3, y: 7, width: 5, height: 1 }.collider_shape();
    assert_eq!(s.center_x - s.half_width, -3 * 600);
    assert_eq!(s.center_x + s.half_width, 2 * 600);
    assert_eq!(s.center_y - s.half_height, 7 * 600);
    assert_eq!(s.center_y + s.half_height, 8 * 600);
}

#[test]
fn plain_shapes_hold_their_values() {
    let r = Rectangle { size: Dimension { width: 3, height: 4 }, position: Position { x: 1, y: 2 } };
    let c = Circle { radius: 5, position: Position { x: -1, y: 0 } };
    assert_eq!(r.size.width * r.size.height, 12);
    assert_eq!(c.radius, 5);
}
