//! Levels and the screen projection.
//!
//! Levels are authored in a fixed coordinate space with the origin at the
//! top left and (80, 60) world units at the bottom right; the y axis
//! points down.  [`Screen`] projects authoring-space rectangles and goal
//! points into centred, y-up screen space, where the simulation runs.

use vstd::prelude::*;
use vstd::string::StringExecFns;
use crate::geom::{Vec2, Vec3, COORD_LIMIT};
use crate::wall::WallPosition;

verus! {

/// Width of the authoring space (80 world units).
pub const LEVEL_W: i64 = 80_000;

/// Height of the authoring space (60 world units).
pub const LEVEL_H: i64 = 60_000;

/// Screen dimensions never exceed this.
pub const DIM_LIMIT: i64 = 20_000;

/// Where a parked marker (an exhausted goal, an absent ghost) is moved:
/// well outside every screen.
pub fn offscreen() -> (p: Vec2)
    ensures
        p.x == 50_000 && p.y == 50_000,
{
    Vec2 { x: 50_000, y: 50_000 }
}

/// An axis-aligned rectangle in authoring space: top-left corner and
/// size, both non-negative, contained in the authoring rectangle.
#[derive(Clone, Copy, Debug, PartialEq, Eq, Structural)]
pub struct Rectangle {
    pub top_left: Vec2,
    pub size: Vec2,
}

impl Rectangle {
    pub open spec fn wf(self) -> bool {
        &&& 0 <= self.top_left.x && 0 <= self.size.x && self.top_left.x + self.size.x <= LEVEL_W
        &&& 0 <= self.top_left.y && 0 <= self.size.y && self.top_left.y + self.size.y <= LEVEL_H
    }

    pub fn new(top_left: Vec2, size: Vec2) -> (r: Rectangle)
        ensures
            r.top_left == top_left && r.size == size,
    {
        Rectangle { top_left, size }
    }
}

/// A point lies inside the authoring rectangle.
pub open spec fn point_wf(p: Vec2) -> bool {
    0 <= p.x <= LEVEL_W && 0 <= p.y <= LEVEL_H
}

/// The projection from authoring space to centred, y-up screen space.
pub struct Screen {
    pub dim: Vec2,
    pub center: Vec2,
}

impl Screen {
    pub open spec fn wf(self) -> bool {
        &&& 0 < self.dim.x <= DIM_LIMIT && 0 < self.dim.y <= DIM_LIMIT
        &&& self.center.x == self.dim.x / 2 && self.center.y == self.dim.y / 2
    }

    pub fn new(dim: Vec2) -> (s: Screen)
        requires
            0 < dim.x <= DIM_LIMIT,
            0 < dim.y <= DIM_LIMIT,
        ensures
            s.dim == dim,
            s.wf(),
    {
        Screen { dim, center: Vec2 { x: dim.x / 2, y: dim.y / 2 } }
    }

    /// The screen the game renders to: 8.85 by 5 world units.
    pub fn default() -> (s: Screen)
        ensures
            s.dim.x == 8850 && s.dim.y == 5000,
            s.wf(),
    {
        Screen::new(Vec2 { x: 8850, y: 5000 })
    }

    /// Projected full width of a rectangle.
    pub open spec fn spec_rect_size_x(self, rec: Rectangle) -> int {
        (rec.size.x * self.dim.x) / (LEVEL_W as int)
    }

    /// Projected full height of a rectangle.
    pub open spec fn spec_rect_size_y(self, rec: Rectangle) -> int {
        (rec.size.y * self.dim.y) / (LEVEL_H as int)
    }

    /// Projected x of a rectangle's centre.
    pub open spec fn spec_rect_center_x(self, rec: Rectangle) -> int {
        (rec.top_left.x * self.dim.x) / (LEVEL_W as int) - self.center.x + self.spec_rect_size_x(
            rec,
        ) / 2
    }

    /// Projected y of a rectangle's centre (the y axis flips).
    pub open spec fn spec_rect_center_y(self, rec: Rectangle) -> int {
        self.center.y - ((rec.top_left.y + rec.size.y) * self.dim.y) / (LEVEL_H as int)
            + self.spec_rect_size_y(rec) / 2
    }

    /// Projected x of a goal point.
    pub open spec fn spec_goal_x(self, g: Vec2) -> int {
        (g.x * self.dim.x) / (LEVEL_W as int) - self.center.x
    }

    /// Projected y of a goal point (the y axis flips).
    pub open spec fn spec_goal_y(self, g: Vec2) -> int {
        self.center.y - (g.y * self.dim.y) / (LEVEL_H as int)
    }

    /// Project a rectangle: centre position and full size in screen
    /// space.
    pub fn center_pos(&self, rec: &Rectangle) -> (r: (Vec2, Vec2))
        requires
            self.wf(),
            rec.wf(),
        ensures
            r.0.x == self.spec_rect_center_x(*rec),
            r.0.y == self.spec_rect_center_y(*rec),
            r.1.x == self.spec_rect_size_x(*rec),
            r.1.y == self.spec_rect_size_y(*rec),
            r.0.in_bounds(),
            -DIM_LIMIT <= r.0.x <= 2 * DIM_LIMIT,
            -DIM_LIMIT <= r.0.y <= 2 * DIM_LIMIT,
            0 <= r.1.x <= DIM_LIMIT,
            0 <= r.1.y <= DIM_LIMIT,
    {
        proof {
            lemma_uv_bound(rec.size.x as int, self.dim.x as int, LEVEL_W as int);
            lemma_uv_bound(rec.size.y as int, self.dim.y as int, LEVEL_H as int);
            lemma_uv_bound(rec.top_left.x as int, self.dim.x as int, LEVEL_W as int);
            lemma_uv_bound(
                rec.top_left.y + rec.size.y as int,
                self.dim.y as int,
                LEVEL_H as int,
            );
        }
        let size_x = (rec.size.x * self.dim.x) / LEVEL_W;
        let size_y = (rec.size.y * self.dim.y) / LEVEL_H;
        let pos_x = (rec.top_left.x * self.dim.x) / LEVEL_W - self.center.x + size_x / 2;
        let bottom = ((rec.top_left.y + rec.size.y) * self.dim.y) / LEVEL_H;
        let pos_y = self.center.y - bottom + size_y / 2;
        (Vec2 { x: pos_x, y: pos_y }, Vec2 { x: size_x, y: size_y })
    }

    /// Project a goal point into screen space.
    pub fn goal_pos(&self, goal: Vec2) -> (r: Vec2)
        requires
            self.wf(),
            point_wf(goal),
        ensures
            r.x == self.spec_goal_x(goal),
            r.y == self.spec_goal_y(goal),
            r.in_bounds(),
    {
        proof {
            lemma_uv_bound(goal.x as int, self.dim.x as int, LEVEL_W as int);
            lemma_uv_bound(goal.y as int, self.dim.y as int, LEVEL_H as int);
        }
        let x = (goal.x * self.dim.x) / LEVEL_W - self.center.x;
        let y = self.center.y - (goal.y * self.dim.y) / LEVEL_H;
        Vec2 { x, y }
    }
}

/// Scaling a coordinate inside `[0, total]` by `dim / total` keeps it in
/// `[0, dim]`.
proof fn lemma_uv_bound(v: int, dim: int, total: int)
    requires
        0 <= v <= total,
        0 < dim,
        0 < total,
    ensures
        0 <= (v * dim) / total <= dim,
{
    assert(0 <= (v * dim) / total <= dim) by (nonlinear_arith)
        requires
            0 <= v <= total,
            0 < dim,
            0 < total,
    ;
}

/// One level: named, with walls, a launch pad and an ordered list of
/// goals; goal order is significant.
pub struct Level {
    pub name: String,
    pub walls: Vec<Rectangle>,
    pub pad: Rectangle,
    pub goals: Vec<Vec2>,
}

impl Level {
    pub open spec fn wf(self) -> bool {
        &&& forall|i: int| 0 <= i < self.walls@.len() ==> (#[trigger] self.walls@[i]).wf()
        &&& self.pad.wf()
        &&& forall|i: int| 0 <= i < self.goals@.len() ==> point_wf(#[trigger] self.goals@[i])
    }
}

/// The ordered catalog of levels, indexed by level number.
pub struct Levels(pub Vec<Level>);

/// The built-in practice level: three boundary walls, a pad on the
/// floor, ten goals.
pub fn sample_level() -> (r: Level)
    ensures
        r.name@ == "simple"@,
        r.walls@ == seq![
            Rectangle { top_left: Vec2 { x: 0, y: 0 }, size: Vec2 { x: 5_000, y: 60_000 } },
            Rectangle { top_left: Vec2 { x: 75_000, y: 0 }, size: Vec2 { x: 5_000, y: 60_000 } },
            Rectangle { top_left: Vec2 { x: 0, y: 55_000 }, size: Vec2 { x: 80_000, y: 5_000 } },
        ],
        r.pad == (Rectangle {
            top_left: Vec2 { x: 37_000, y: 54_500 },
            size: Vec2 { x: 6_000, y: 500 },
        }),
        r.goals@ == seq![
            Vec2 { x: 40_000, y: 8_000 },
            Vec2 { x: 10_000, y: 16_000 },
            Vec2 { x: 15_000, y: 50_000 },
            Vec2 { x: 20_000, y: 20_000 },
            Vec2 { x: 40_000, y: 40_000 },
            Vec2 { x: 45_000, y: 45_000 },
            Vec2 { x: 50_000, y: 40_000 },
            Vec2 { x: 40_000, y: 30_000 },
            Vec2 { x: 20_000, y: 10_000 },
            Vec2 { x: 20_000, y: 20_000 },
        ],
        r.wf(),
{
    let mut walls: Vec<Rectangle> = Vec::new();
    walls.push(Rectangle { top_left: Vec2 { x: 0, y: 0 }, size: Vec2 { x: 5_000, y: 60_000 } });
    walls.push(
        Rectangle { top_left: Vec2 { x: 75_000, y: 0 }, size: Vec2 { x: 5_000, y: 60_000 } },
    );
    walls.push(
        Rectangle { top_left: Vec2 { x: 0, y: 55_000 }, size: Vec2 { x: 80_000, y: 5_000 } },
    );
    let mut goals: Vec<Vec2> = Vec::new();
    goals.push(Vec2 { x: 40_000, y: 8_000 });
    goals.push(Vec2 { x: 10_000, y: 16_000 });
    goals.push(Vec2 { x: 15_000, y: 50_000 });
    goals.push(Vec2 { x: 20_000, y: 20_000 });
    goals.push(Vec2 { x: 40_000, y: 40_000 });
    goals.push(Vec2 { x: 45_000, y: 45_000 });
    goals.push(Vec2 { x: 50_000, y: 40_000 });
    goals.push(Vec2 { x: 40_000, y: 30_000 });
    goals.push(Vec2 { x: 20_000, y: 10_000 });
    goals.push(Vec2 { x: 20_000, y: 20_000 });
    let r = Level {
        name: String::from_str("simple"),
        walls,
        pad: Rectangle {
            top_left: Vec2 { x: 37_000, y: 54_500 },
            size: Vec2 { x: 6_000, y: 500 },
        },
        goals,
    };
    proof {
        assert(r.walls@ =~= seq![
            Rectangle { top_left: Vec2 { x: 0, y: 0 }, size: Vec2 { x: 5_000, y: 60_000 } },
            Rectangle { top_left: Vec2 { x: 75_000, y: 0 }, size: Vec2 { x: 5_000, y: 60_000 } },
            Rectangle { top_left: Vec2 { x: 0, y: 55_000 }, size: Vec2 { x: 80_000, y: 5_000 } },
        ]);
        assert(r.goals@ =~= seq![
            Vec2 { x: 40_000, y: 8_000 },
            Vec2 { x: 10_000, y: 16_000 },
            Vec2 { x: 15_000, y: 50_000 },
            Vec2 { x: 20_000, y: 20_000 },
            Vec2 { x: 40_000, y: 40_000 },
            Vec2 { x: 45_000, y: 45_000 },
            Vec2 { x: 50_000, y: 40_000 },
            Vec2 { x: 40_000, y: 30_000 },
            Vec2 { x: 20_000, y: 10_000 },
            Vec2 { x: 20_000, y: 20_000 },
        ]);
    }
    r
}


/// Where a freshly spawned ship's feet rest: the pad's centre x, at the
/// pad's bottom edge.
pub fn initial_ship_pos(level: &Level, screen: &Screen) -> (r: Vec2)
    requires
        level.wf(),
        screen.wf(),
    ensures
        r.x == screen.spec_rect_center_x(level.pad),
        r.y == screen.spec_rect_center_y(level.pad) - screen.spec_rect_size_y(level.pad) / 2,
        r.in_bounds(),
{
    let (pad_pos, pad_size) = screen.center_pos(&level.pad);
    Vec2 { x: pad_pos.x, y: pad_pos.y - pad_size.y / 2 }
}

/// The screen-space wall box a rectangle projects to.
pub open spec fn projected_wall(screen: Screen, rect: Rectangle) -> WallPosition {
    WallPosition {
        translation: Vec3 {
            x: screen.spec_rect_center_x(rect) as i64,
            y: screen.spec_rect_center_y(rect) as i64,
            z: 0,
        },
        size: Vec2 {
            x: screen.spec_rect_size_x(rect) as i64,
            y: screen.spec_rect_size_y(rect) as i64,
        },
    }
}

/// The screen-space wall boxes a level's walls project to, in
/// registration order.
pub open spec fn projected_walls(screen: Screen, walls: Seq<Rectangle>) -> Seq<WallPosition> {
    Seq::new(walls.len(), |i: int| projected_wall(screen, walls[i]))
}

/// Project every wall of a level into a screen-space wall box.
pub fn level_walls(level: &Level, screen: &Screen) -> (r: Vec<WallPosition>)
    requires
        level.wf(),
        screen.wf(),
    ensures
        r@ == projected_walls(*screen, level.walls@),
        crate::wall::walls_wf(r@),
{
    let mut r: Vec<WallPosition> = Vec::new();
    let n = level.walls.len();
    let mut i: usize = 0;
    while i < n
        invariant
            n == level.walls@.len(),
            0 <= i <= n,
            level.wf(),
            screen.wf(),
            r@.len() == i,
            forall|j: int|
                0 <= j < i ==> #[trigger] r@[j] == projected_wall(*screen, level.walls@[j])
                    && r@[j].wf(),
        decreases n - i,
    {
        let wall = &level.walls[i];
        let (pos, size) = screen.center_pos(wall);
        r.push(WallPosition { translation: pos.extend(0), size });
        i = i + 1;
    }
    proof {
        assert(r@ =~= projected_walls(*screen, level.walls@));
    }
    r
}

} // verus!
