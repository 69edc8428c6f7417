use vstd::prelude::*;

verus! {

/// A 2D vector with signed integers as coordinates.
#[derive(Copy, Clone, PartialEq, Eq, Hash, Debug, Structural)]
pub struct Vec2 {
    /// X coordinate.
    pub x: i32,
    /// Y coordinate.
    pub y: i32,
}

impl Vec2 {
    /// Create a new Vec2 from the coordinates.
    pub fn new(x: i32, y: i32) -> (r: Vec2)
        ensures
            r == (Vec2 { x, y }),
    {
        Vec2 { x, y }
    }

    /// The squared distance to another vector: the squared euclidean norm of
    /// the difference.
    pub fn dist_sq(self, other: Vec2) -> (r: u32)
        requires
            i32::MIN <= self.x - other.x <= i32::MAX,
            i32::MIN <= self.y - other.y <= i32::MAX,
            (self.x - other.x) * (self.x - other.x) + (self.y - other.y) * (self.y - other.y)
                <= i32::MAX,
        ensures
            r == (self.x - other.x) * (self.x - other.x) + (self.y - other.y) * (self.y
                - other.y),
    {
        (self - other).norm()
    }

    /// The squared euclidean norm (the sum of the squared components).
    pub fn norm(self) -> (r: u32)
        requires
            self.x * self.x + self.y * self.y <= i32::MAX,
        ensures
            r == self.x * self.x + self.y * self.y,
    {
        proof {
            lemma_square_nonneg(self.x as int);
            lemma_square_nonneg(self.y as int);
        }
        (self.x * self.x + self.y * self.y) as u32
    }
}

/// A square is never negative.
proof fn lemma_square_nonneg(a: int)
    by (nonlinear_arith)
    ensures
        a * a >= 0,
{
}

impl std::ops::Add<Vec2> for Vec2 {
    type Output = Vec2;

    /// Componentwise sum.
    fn add(self, rhs: Vec2) -> (r: Vec2) {
        Vec2 { x: self.x + rhs.x, y: self.y + rhs.y }
    }
}

impl vstd::std_specs::ops::AddSpecImpl<Vec2> for Vec2 {
    open spec fn obeys_add_spec() -> bool {
        true
    }

    open spec fn add_req(self, rhs: Vec2) -> bool {
        &&& i32::MIN <= self.x + rhs.x <= i32::MAX
        &&& i32::MIN <= self.y + rhs.y <= i32::MAX
    }

    open spec fn add_spec(self, rhs: Vec2) -> Vec2 {
        Vec2 { x: (self.x + rhs.x) as i32, y: (self.y + rhs.y) as i32 }
    }
}

impl std::ops::Sub<Vec2> for Vec2 {
    type Output = Vec2;

    /// Componentwise difference.
    fn sub(self, rhs: Vec2) -> (r: Vec2) {
        Vec2 { x: self.x - rhs.x, y: self.y - rhs.y }
    }
}

impl vstd::std_specs::ops::SubSpecImpl<Vec2> for Vec2 {
    open spec fn obeys_sub_spec() -> bool {
        true
    }

    open spec fn sub_req(self, rhs: Vec2) -> bool {
        &&& i32::MIN <= self.x - rhs.x <= i32::MAX
        &&& i32::MIN <= self.y - rhs.y <= i32::MAX
    }

    open spec fn sub_spec(self, rhs: Vec2) -> Vec2 {
        Vec2 { x: (self.x - rhs.x) as i32, y: (self.y - rhs.y) as i32 }
    }
}

impl std::ops::Mul<i32> for Vec2 {
    type Output = Vec2;

    /// Both components scaled by `rhs`.
    fn mul(self, rhs: i32) -> (r: Vec2) {
        Vec2 { x: self.x * rhs, y: self.y * rhs }
    }
}

impl vstd::std_specs::ops::MulSpecImpl<i32> for Vec2 {
    open spec fn obeys_mul_spec() -> bool {
        true
    }

    open spec fn mul_req(self, rhs: i32) -> bool {
        &&& i32::MIN <= self.x * rhs <= i32::MAX
        &&& i32::MIN <= self.y * rhs <= i32::MAX
    }

    open spec fn mul_spec(self, rhs: i32) -> Vec2 {
        Vec2 { x: (self.x * rhs) as i32, y: (self.y * rhs) as i32 }
    }
}

/// Index by a Vec2.
pub trait GetPos {
    /// The output of `get_pos()`.
    type Output: Copy;

    /// Whether `vec` names a position this container holds.
    spec fn pos_in_bounds(&self, vec: Vec2) -> bool;

    /// The element at position `vec`.
    spec fn pos_spec(&self, vec: Vec2) -> Self::Output;

    /// Get element by position (Vec2): `vec.y` picks the row, `vec.x` the
    /// column.
    fn get_pos(&self, vec: Vec2) -> (r: Self::Output)
        requires
            self.pos_in_bounds(vec),
        ensures
            r == self.pos_spec(vec);
}

impl<T: Copy> GetPos for Vec<Vec<T>> {
    type Output = T;

    open spec fn pos_in_bounds(&self, vec: Vec2) -> bool {
        &&& 0 <= vec.y < self@.len()
        &&& 0 <= vec.x < self@[vec.y as int]@.len()
    }

    open spec fn pos_spec(&self, vec: Vec2) -> T {
        self@[vec.y as int]@[vec.x as int]
    }

    fn get_pos(&self, vec: Vec2) -> (r: T) {
        self[vec.y as usize][vec.x as usize]
    }
}

} // verus!
