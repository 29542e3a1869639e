use space_program::crosshair::{target_brackets, CrosshairPiece, CrosshairType, Offset, PieceShape};

#[test]
fn default_is_square_corners() {
    assert_eq!(CrosshairType::default(), CrosshairType::SmallSquareCorners);
}

#[test]
fn square_corners_layout() {
    let l = CrosshairType::SmallSquareCorners.layout();
    assert_eq!(l.len(), 8);
    assert_eq!(
        l[0],
        CrosshairPiece { shape: PieceShape::HorizontalBar, x: 25, y: 30, eighth_turns: 0 }
    );
    assert_eq!(
        l[7],
        CrosshairPiece { shape: PieceShape::VerticalBar, x: 30, y: -25, eighth_turns: 0 }
    );
    assert_eq!(l.iter().filter(|p| p.shape == PieceShape::HorizontalBar).count(), 4);
}

#[test]
fn arrow_layouts() {
    let l = CrosshairType::SmallTriangleArrows45s.layout();
    assert_eq!(l.len(), 4);
    assert_eq!(l[1], CrosshairPiece { shape: PieceShape::Triangle, x: -10, y: 10, eighth_turns: 2 });
    assert_eq!(l[3].eighth_turns, -2);
    let l = CrosshairType::SmallTriangleArrows90s.layout();
    assert_eq!(l.len(), 4);
    assert_eq!(l[0], CrosshairPiece { shape: PieceShape::Triangle, x: 0, y: 10, eighth_turns: 1 });
    assert_eq!(l[2], CrosshairPiece { shape: PieceShape::Triangle, x: 0, y: -10, eighth_turns: 5 });
}

#[test]
fn layouts_survive_a_quarter_turn() {
    for kind in [
        CrosshairType::SmallSquareCorners,
        CrosshairType::SmallTriangleArrows45s,
        CrosshairType::SmallTriangleArrows90s,
    ] {
        let l = kind.layout();
        for p in &l {
            let (x, y) = (-p.y, p.x);
            let (shape, turns) = match p.shape {
                PieceShape::HorizontalBar => (PieceShape::VerticalBar, p.eighth_turns),
                PieceShape::VerticalBar => (PieceShape::HorizontalBar, p.eighth_turns),
                PieceShape::Triangle => (PieceShape::Triangle, p.eighth_turns + 2),
            };
            assert!(l.iter().any(|q| q.x == x
                && q.y == y
                && q.shape == shape
                && (q.eighth_turns - turns).rem_euclid(8) == 0));
        }
    }
}

#[test]
fn visibility_and_colour() {
    assert!(CrosshairType::SmallTriangleArrows90s.starts_hidden());
    assert!(!CrosshairType::SmallTriangleArrows45s.starts_hidden());
    assert!(!CrosshairType::SmallSquareCorners.starts_hidden());
    assert_eq!(CrosshairType::SmallSquareCorners.color_hex(), "FE9F00");
    assert_eq!(CrosshairType::SmallTriangleArrows45s.color_hex(), "B2AFC2");
}

#[test]
fn brackets_around_targets() {
    let b = target_brackets();
    assert_eq!(b.len(), 4);
    assert_eq!(b[0], [Offset { x: 25, y: 30 }, Offset { x: 30, y: 30 }, Offset { x: 30, y: 25 }]);
    assert_eq!(
        b[3],
        [Offset { x: -30, y: -25 }, Offset { x: -30, y: -30 }, Offset { x: -25, y: -30 }]
    );
}
