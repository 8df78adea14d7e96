use snake_game::{Color, Rectangle, Sprite, Square, Vector2};

fn food_at(x: i32, y: i32) -> Square {
    Square {
        position: Vector2::new(x, y),
        size: Vector2::new(16, 16),
        color: Color { r: 43, g: 51, b: 24, a: 255 },
    }
}

#[test]
fn respawn_stays_on_the_play_field_and_varies() {
    let mut square = food_at(3, 3);
    let mut seen_other_than_origin = false;
    let mut seen_two_different = false;
    let mut previous = square.position;
    for _ in 0..200 {
        square.respawn();
        assert!(0 <= square.position.x && square.position.x < 32);
        assert!(0 <= square.position.y && square.position.y < 32);
        assert!(square.position.check_in_grid());
        if square.position != Vector2::new(0, 0) {
            seen_other_than_origin = true;
        }
        if square.position != previous {
            seen_two_different = true;
        }
        previous = square.position;
    }
    assert!(seen_other_than_origin);
    assert!(seen_two_different);
}

#[test]
fn respawn_keeps_size_and_color() {
    let mut square = Square {
        position: Vector2::new(40, -2),
        size: Vector2::new(8, 12),
        color: Color { r: 1, g: 2, b: 3, a: 4 },
    };
    square.respawn();
    assert_eq!(square.size, Vector2::new(8, 12));
    assert_eq!(square.color, Color { r: 1, g: 2, b: 3, a: 4 });
    assert!(square.position.check_in_grid());
}

#[test]
fn move_to_sets_the_cell() {
    let mut square = food_at(3, 3);
    square.move_to(31, 0);
    assert_eq!(square, food_at(31, 0));
    square.move_to(-5, 40);
    assert_eq!(square.position, Vector2::new(-5, 40));
}

#[test]
fn food_is_drawn_as_a_plain_rectangle() {
    let square = food_at(3, 3);
    assert_eq!(
        square.draw(),
        Sprite {
            bounds: Rectangle { x: 123, y: 123, width: 16, height: 16 },
            color: Color { r: 43, g: 51, b: 24, a: 255 },
            rounded: false,
        }
    );
    let other = Square {
        position: Vector2::new(0, 31),
        size: Vector2::new(8, 12),
        color: Color { r: 1, g: 2, b: 3, a: 4 },
    };
    assert_eq!(
        other.draw(),
        Sprite {
            bounds: Rectangle { x: 75, y: 571, width: 8, height: 12 },
            color: Color { r: 1, g: 2, b: 3, a: 4 },
            rounded: false,
        }
    );
}
