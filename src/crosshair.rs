//! The overlay crosshairs: which pieces each one is made of, and where.
use vstd::prelude::*;

verus! {

/// The crosshair styles.
#[derive(PartialEq, Eq, Structural, Clone, Copy, Debug)]
pub enum CrosshairType {
    /// Four corner brackets, each of a short horizontal and a short vertical
    /// bar.
    SmallSquareCorners,
    /// Four triangles pointing in, on the diagonals.
    SmallTriangleArrows45s,
    /// Four triangles pointing in, on the axes.
    SmallTriangleArrows90s,
}

impl Default for CrosshairType {
    fn default() -> (r: CrosshairType)
        ensures
            r == CrosshairType::SmallSquareCorners,
    {
        CrosshairType::SmallSquareCorners
    }
}

/// The mesh of one crosshair piece.
#[derive(PartialEq, Eq, Structural, Clone, Copy, Debug)]
pub enum PieceShape {
    /// A thin bar ten units wide.
    HorizontalBar,
    /// A thin bar ten units tall.
    VerticalBar,
    /// The right triangle with legs of ten units along +x and +y.
    Triangle,
}

/// One piece of a crosshair, placed relative to the crosshair's centre and
/// turned counter-clockwise by `eighth_turns` eighths of a full turn.
#[derive(PartialEq, Eq, Structural, Clone, Copy, Debug)]
pub struct CrosshairPiece {
    pub shape: PieceShape,
    pub x: i32,
    pub y: i32,
    pub eighth_turns: i32,
}

pub open spec fn piece(shape: PieceShape, x: int, y: int, eighth_turns: int) -> CrosshairPiece {
    CrosshairPiece { shape, x: x as i32, y: y as i32, eighth_turns: eighth_turns as i32 }
}

/// The pieces of each crosshair, in spawning order.
pub open spec fn layout_spec(kind: CrosshairType) -> Seq<CrosshairPiece> {
    match kind {
        CrosshairType::SmallSquareCorners => seq![
            piece(PieceShape::HorizontalBar, 25, 30, 0),
            piece(PieceShape::HorizontalBar, -25, -30, 0),
            piece(PieceShape::HorizontalBar, -25, 30, 0),
            piece(PieceShape::HorizontalBar, 25, -30, 0),
            piece(PieceShape::VerticalBar, 30, 25, 0),
            piece(PieceShape::VerticalBar, -30, -25, 0),
            piece(PieceShape::VerticalBar, -30, 25, 0),
            piece(PieceShape::VerticalBar, 30, -25, 0),
        ],
        CrosshairType::SmallTriangleArrows45s => seq![
            piece(PieceShape::Triangle, 10, 10, 0),
            piece(PieceShape::Triangle, -10, 10, 2),
            piece(PieceShape::Triangle, -10, -10, 4),
            piece(PieceShape::Triangle, 10, -10, -2),
        ],
        CrosshairType::SmallTriangleArrows90s => seq![
            piece(PieceShape::Triangle, 0, 10, 1),
            piece(PieceShape::Triangle, -10, 0, 3),
            piece(PieceShape::Triangle, 0, -10, 5),
            piece(PieceShape::Triangle, 10, 0, -1),
        ],
    }
}

fn make_piece(shape: PieceShape, x: i32, y: i32, eighth_turns: i32) -> (r: CrosshairPiece)
    ensures
        r == piece(shape, x as int, y as int, eighth_turns as int),
{
    CrosshairPiece { shape, x, y, eighth_turns }
}

impl CrosshairType {
    /// The pieces of this crosshair, in spawning order.
    pub fn layout(self) -> (r: Vec<CrosshairPiece>)
        ensures
            r@ == layout_spec(self),
    {
        let mut v: Vec<CrosshairPiece> = Vec::new();
        match self {
            CrosshairType::SmallSquareCorners => {
                v.push(make_piece(PieceShape::HorizontalBar, 25, 30, 0));
                v.push(make_piece(PieceShape::HorizontalBar, -25, -30, 0));
                v.push(make_piece(PieceShape::HorizontalBar, -25, 30, 0));
                v.push(make_piece(PieceShape::HorizontalBar, 25, -30, 0));
                v.push(make_piece(PieceShape::VerticalBar, 30, 25, 0));
                v.push(make_piece(PieceShape::VerticalBar, -30, -25, 0));
                v.push(make_piece(PieceShape::VerticalBar, -30, 25, 0));
                v.push(make_piece(PieceShape::VerticalBar, 30, -25, 0));
            },
            CrosshairType::SmallTriangleArrows45s => {
                v.push(make_piece(PieceShape::Triangle, 10, 10, 0));
                v.push(make_piece(PieceShape::Triangle, -10, 10, 2));
                v.push(make_piece(PieceShape::Triangle, -10, -10, 4));
                v.push(make_piece(PieceShape::Triangle, 10, -10, -2));
            },
            CrosshairType::SmallTriangleArrows90s => {
                v.push(make_piece(PieceShape::Triangle, 0, 10, 1));
                v.push(make_piece(PieceShape::Triangle, -10, 0, 3));
                v.push(make_piece(PieceShape::Triangle, 0, -10, 5));
                v.push(make_piece(PieceShape::Triangle, 10, 0, -1));
            },
        }
        assert(v@ =~= layout_spec(self));
        v
    }

    /// Whether the crosshair starts hidden; the axis arrows do, until a
    /// target shows them.
    pub fn starts_hidden(self) -> (r: bool)
        ensures
            r == (self == CrosshairType::SmallTriangleArrows90s),
    {
        match self {
            CrosshairType::SmallTriangleArrows90s => true,
            _ => false,
        }
    }

    /// The colour of the crosshair, as six hexadecimal digits `RRGGBB`:
    /// amber for the corners, pale lavender for the arrows.
    pub fn color_hex(self) -> (r: &'static str)
        ensures
            r@ == (match self {
                CrosshairType::SmallSquareCorners => "FE9F00"@,
                _ => "B2AFC2"@,
            }),
    {
        match self {
            CrosshairType::SmallSquareCorners => "FE9F00",
            _ => "B2AFC2",
        }
    }
}

/// A piece turned a quarter turn counter-clockwise about the centre: its
/// offset `(x, y)` becomes `(-y, x)`; a bar changes orientation, a triangle
/// turns two more eighths.
pub open spec fn quarter_turn(p: CrosshairPiece) -> (int, int, PieceShape, int) {
    match p.shape {
        PieceShape::HorizontalBar => (-p.y, p.x as int, PieceShape::VerticalBar, p.eighth_turns as int),
        PieceShape::VerticalBar => (-p.y, p.x as int, PieceShape::HorizontalBar, p.eighth_turns as int),
        PieceShape::Triangle => (-p.y, p.x as int, PieceShape::Triangle, p.eighth_turns + 2),
    }
}

/// Whether a piece sits where `q` says, with its turn equal up to whole
/// turns.
pub open spec fn placed_as(p: CrosshairPiece, q: (int, int, PieceShape, int)) -> bool {
    &&& p.x == q.0
    &&& p.y == q.1
    &&& p.shape == q.2
    &&& (p.eighth_turns - q.3) % 8 == 0
}

/// Every crosshair looks the same after a quarter turn: each piece, turned,
/// lands on a piece of the same crosshair.
pub proof fn lemma_layout_quarter_turn_symmetric(kind: CrosshairType)
    ensures
        forall|i: int|
            0 <= i < layout_spec(kind).len() ==> exists|j: int|
                0 <= j < layout_spec(kind).len() && placed_as(
                    #[trigger] layout_spec(kind)[j],
                    quarter_turn(#[trigger] layout_spec(kind)[i]),
                ),
{
    let l = layout_spec(kind);
    assert forall|i: int| 0 <= i < l.len() implies exists|j: int|
        0 <= j < l.len() && placed_as(#[trigger] l[j], quarter_turn(#[trigger] l[i])) by {
        let j: int = match kind {
            CrosshairType::SmallSquareCorners => if i == 0 {
                6
            } else if i == 1 {
                7
            } else if i == 2 {
                5
            } else if i == 3 {
                4
            } else if i == 4 {
                2
            } else if i == 5 {
                3
            } else if i == 6 {
                1
            } else {
                0
            },
            _ => (i + 1) % 4,
        };
        assert(placed_as(l[j], quarter_turn(l[i])));
    }
}

/// A point of a bracket, relative to the marked object's overlay position.
#[derive(PartialEq, Eq, Structural, Clone, Copy, Debug)]
pub struct Offset {
    pub x: i32,
    pub y: i32,
}

pub open spec fn off(x: int, y: int) -> Offset {
    Offset { x: x as i32, y: y as i32 }
}

/// The four corner brackets drawn around every valid target, each a line
/// through three points.
pub open spec fn target_brackets_spec() -> Seq<[Offset; 3]> {
    seq![
        [off(25, 30), off(30, 30), off(30, 25)],
        [off(30, -25), off(30, -30), off(25, -30)],
        [off(-25, 30), off(-30, 30), off(-30, 25)],
        [off(-30, -25), off(-30, -30), off(-25, -30)],
    ]
}

fn make_bracket(ax: i32, ay: i32, bx: i32, by: i32, cx: i32, cy: i32) -> (r: [Offset; 3])
    ensures
        r == [off(ax as int, ay as int), off(bx as int, by as int), off(cx as int, cy as int)],
{
    [Offset { x: ax, y: ay }, Offset { x: bx, y: by }, Offset { x: cx, y: cy }]
}

/// The corner brackets drawn around every valid target.
pub fn target_brackets() -> (r: Vec<[Offset; 3]>)
    ensures
        r@ == target_brackets_spec(),
{
    let mut v: Vec<[Offset; 3]> = Vec::new();
    v.push(make_bracket(25, 30, 30, 30, 30, 25));
    v.push(make_bracket(30, -25, 30, -30, 25, -30));
    v.push(make_bracket(-25, 30, -30, 30, -30, 25));
    v.push(make_bracket(-30, -25, -30, -30, -25, -30));
    assert(v@ =~= target_brackets_spec());
    v
}

} // verus!
