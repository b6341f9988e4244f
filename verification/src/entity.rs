//! The shape shared by everything that moves in the arena.
use vstd::prelude::*;
use crate::geometry::{clamp_i32, displace, lemma_displacement_adds, Rect, Vec2};

verus! {

/// A rectangular game object: a bullet, an enemy or a power-up, and the
/// body of the player.
///
/// `position` is the centre of the rectangle and `half_size` reaches from
/// the centre to its edges. `velocity` is in pixels per second.
#[derive(Clone, Copy, Debug, PartialEq, Eq)]
pub struct Entity {
    pub position: Vec2,
    pub velocity: Vec2,
    pub half_size: Vec2,
    pub alive: bool,
}

impl Entity {
    /// An entity has positive extent on both axes.
    pub open spec fn wf(self) -> bool {
        self.half_size.x > 0 && self.half_size.y > 0
    }

    /// The rectangle `position ± half_size`.
    pub open spec fn spec_bounds(&self) -> Rect {
        Rect {
            x: (self.position.x - self.half_size.x) as i64,
            y: (self.position.y - self.half_size.y) as i64,
            w: (2 * self.half_size.x) as i64,
            h: (2 * self.half_size.y) as i64,
        }
    }

    /// Whether the bounds of two entities intersect.
    pub open spec fn spec_overlaps(&self, other: &Entity) -> bool {
        self.spec_bounds().intersects(other.spec_bounds())
    }

    /// The entity after moving at its velocity for `dt` milliseconds.
    pub open spec fn integrated(self, dt: u32) -> Entity {
        Entity {
            position: Vec2 {
                x: clamp_i32(self.position.x + self.velocity.x * dt),
                y: clamp_i32(self.position.y + self.velocity.y * dt),
            },
            ..self
        }
    }

    /// The same entity, marked dead.
    pub open spec fn killed(self) -> Entity {
        Entity { alive: false, ..self }
    }

    /// A live entity at rest, centred on `(x, y)`.
    pub fn new(x: i32, y: i32, half_width: i32, half_height: i32) -> (e: Entity)
        requires
            half_width > 0,
            half_height > 0,
        ensures
            e == (Entity {
                position: Vec2 { x, y },
                velocity: Vec2 { x: 0, y: 0 },
                half_size: Vec2 { x: half_width, y: half_height },
                alive: true,
            }),
            e.wf(),
    {
        Entity {
            position: Vec2 { x, y },
            velocity: Vec2 { x: 0, y: 0 },
            half_size: Vec2 { x: half_width, y: half_height },
            alive: true,
        }
    }

    /// Run-time test of [`Entity::wf`].
    pub fn is_valid(&self) -> (r: bool)
        ensures
            r == self.wf(),
    {
        self.half_size.x > 0 && self.half_size.y > 0
    }

    /// The bounding box of the entity.
    #[verifier::when_used_as_spec(spec_bounds)]
    pub fn bounds(&self) -> (r: Rect)
        ensures
            r == self.spec_bounds(),
            r.x == self.position.x - self.half_size.x,
            r.y == self.position.y - self.half_size.y,
            r.w == 2 * self.half_size.x,
            r.h == 2 * self.half_size.y,
    {
        Rect {
            x: self.position.x as i64 - self.half_size.x as i64,
            y: self.position.y as i64 - self.half_size.y as i64,
            w: 2 * (self.half_size.x as i64),
            h: 2 * (self.half_size.y as i64),
        }
    }

    /// Whether the bounding boxes of two entities overlap. Boxes that only
    /// touch do not.
    #[verifier::when_used_as_spec(spec_overlaps)]
    pub fn overlaps(&self, other: &Entity) -> (r: bool)
        ensures
            r == self.spec_overlaps(other),
    {
        self.bounds().overlaps(&other.bounds())
    }

    /// Moves the entity at its velocity for `dt` milliseconds.
    pub fn integrate(&mut self, dt: u32)
        ensures
            *final(self) == old(self).integrated(dt),
    {
        self.position.x = displace(self.position.x, self.velocity.x, dt);
        self.position.y = displace(self.position.y, self.velocity.y, dt);
    }
}

/// The bounding box is centred on the position: it reaches as far to the
/// left of it as to the right, as far above it as below, and measures
/// twice the half size on each axis.
pub proof fn lemma_bounds_symmetric(e: Entity)
    ensures
        e.position.x - e.bounds().left() == e.bounds().right() - e.position.x == e.half_size.x,
        e.position.y - e.bounds().top() == e.bounds().bottom() - e.position.y == e.half_size.y,
        e.bounds().w == 2 * e.half_size.x,
        e.bounds().h == 2 * e.half_size.y,
{
}

/// Two entities overlap exactly when their bounds meet on both axes.
pub proof fn lemma_overlap_is_meeting_on_both_axes(a: Entity, b: Entity)
    ensures
        a.overlaps(&b) <==> {
            &&& a.position.x - a.half_size.x < b.position.x + b.half_size.x
            &&& b.position.x - b.half_size.x < a.position.x + a.half_size.x
            &&& a.position.y - a.half_size.y < b.position.y + b.half_size.y
            &&& b.position.y - b.half_size.y < a.position.y + a.half_size.y
        },
{
}

/// Entities whose centres are at least the sum of their half sizes apart
/// on one axis do not overlap, whatever the other axis says.
pub proof fn lemma_apart_never_overlap(a: Entity, b: Entity)
    requires
        ({
            ||| a.position.x + a.half_size.x <= b.position.x - b.half_size.x
            ||| b.position.x + b.half_size.x <= a.position.x - a.half_size.x
            ||| a.position.y + a.half_size.y <= b.position.y - b.half_size.y
            ||| b.position.y + b.half_size.y <= a.position.y - a.half_size.y
        }),
    ensures
        !a.overlaps(&b),
        !b.overlaps(&a),
{
}

/// Moving changes the position only, and moving for no time changes
/// nothing.
pub proof fn lemma_integrated_keeps_shape(e: Entity, dt: u32)
    ensures
        e.integrated(dt).velocity == e.velocity,
        e.integrated(dt).half_size == e.half_size,
        e.integrated(dt).alive == e.alive,
        e.integrated(dt).wf() == e.wf(),
        e.integrated(0) == e,
{
}

/// Motion composes over time: however a span of time is cut into ticks,
/// the entity ends where one tick over the whole span would take it.
pub proof fn lemma_motion_adds(e: Entity, a: u32, b: u32)
    requires
        a + b <= u32::MAX,
    ensures
        e.integrated(a).integrated(b) == e.integrated((a + b) as u32),
{
    lemma_displacement_adds(e.position.x, e.velocity.x, a, b);
    lemma_displacement_adds(e.position.y, e.velocity.y, a, b);
}

} // verus!
