//! The decisions of a fly-through camera.
//!
//! A camera moves along one of its three basis vectors, forwards or
//! backwards. In first-person mode it also keeps its height: only a vertical
//! move may change it, and every other move is put back to the height that
//! the last vertical move left. The coordinates themselves are the caller's;
//! here they are values of any copyable type, carried and never computed with.
use vstd::prelude::*;

verus! {

/// The directions in which a camera can be asked to move.
#[derive(Debug, Clone, Copy, PartialEq, Eq, Structural)]
pub enum CameraMovement {
    FORWARD,
    BACKWARD,
    RIGHT,
    LEFT,
    UP,
    DOWN,
}

/// The basis vectors of a camera.
#[derive(Debug, Clone, Copy, PartialEq, Eq, Structural)]
pub enum Axis {
    Front,
    Right,
    Up,
}

impl CameraMovement {
    /// The basis vector along which the move goes.
    pub open spec fn spec_axis(self) -> Axis {
        match self {
            CameraMovement::FORWARD | CameraMovement::BACKWARD => Axis::Front,
            CameraMovement::RIGHT | CameraMovement::LEFT => Axis::Right,
            CameraMovement::UP | CameraMovement::DOWN => Axis::Up,
        }
    }

    /// Whether the move adds the basis vector, rather than subtracts it.
    pub open spec fn spec_is_positive(self) -> bool {
        self is FORWARD || self is RIGHT || self is UP
    }

    /// Whether the move is one of the two vertical ones.
    pub open spec fn spec_is_vertical(self) -> bool {
        self is UP || self is DOWN
    }

    /// The basis vector along which the move goes.
    pub fn axis(&self) -> (axis: Axis)
        ensures
            axis == self.spec_axis(),
    {
        match self {
            CameraMovement::FORWARD | CameraMovement::BACKWARD => Axis::Front,
            CameraMovement::RIGHT | CameraMovement::LEFT => Axis::Right,
            CameraMovement::UP | CameraMovement::DOWN => Axis::Up,
        }
    }

    /// Whether the move adds the basis vector, rather than subtracts it.
    pub fn is_positive(&self) -> (positive: bool)
        ensures
            positive == self.spec_is_positive(),
    {
        match self {
            CameraMovement::FORWARD | CameraMovement::RIGHT | CameraMovement::UP => true,
            _ => false,
        }
    }

    /// Whether the move is one of the two vertical ones.
    pub fn is_vertical(&self) -> (vertical: bool)
        ensures
            vertical == self.spec_is_vertical(),
    {
        match self {
            CameraMovement::UP | CameraMovement::DOWN => true,
            _ => false,
        }
    }
}

/// The height that a camera keeps in first-person mode.
pub struct HeightLock<T> {
    enabled: bool,
    height: T,
}

/// One move of a camera: its direction, and the height at which the move
/// alone would leave the camera.
pub struct Step<T> {
    pub direction: CameraMovement,
    pub moved_to: T,
}

/// The height kept after `step`, where `height` was kept before it.
pub open spec fn kept_after<T>(enabled: bool, height: T, step: Step<T>) -> T {
    if enabled && step.direction.spec_is_vertical() {
        step.moved_to
    } else {
        height
    }
}

/// The height of the camera after `step`, where `height` was kept before it.
pub open spec fn settled_after<T>(enabled: bool, height: T, step: Step<T>) -> T {
    if enabled {
        kept_after(enabled, height, step)
    } else {
        step.moved_to
    }
}

/// The height kept after all of `steps`, in order, starting from `height`.
pub open spec fn kept_after_all<T>(enabled: bool, height: T, steps: Seq<Step<T>>) -> T
    decreases steps.len(),
{
    if steps.len() == 0 {
        height
    } else {
        kept_after(enabled, kept_after_all(enabled, height, steps.drop_last()), steps.last())
    }
}

/// The height of the camera after all of `steps`, of which there is at least
/// one.
pub open spec fn settled_after_all<T>(enabled: bool, height: T, steps: Seq<Step<T>>) -> T
    recommends
        steps.len() > 0,
{
    settled_after(enabled, kept_after_all(enabled, height, steps.drop_last()), steps.last())
}

/// The height left by the last vertical move among `steps`, or `height` if
/// none of them is vertical.
pub open spec fn last_vertical<T>(height: T, steps: Seq<Step<T>>) -> T
    decreases steps.len(),
{
    if steps.len() == 0 {
        height
    } else if steps.last().direction.spec_is_vertical() {
        steps.last().moved_to
    } else {
        last_vertical(height, steps.drop_last())
    }
}

impl<T: Copy> HeightLock<T> {
    /// Whether first-person mode is on.
    pub closed spec fn enabled(&self) -> bool {
        self.enabled
    }

    /// The height that is kept.
    pub closed spec fn height(&self) -> T {
        self.height
    }

    /// A lock that starts from the camera's first height.
    pub fn new(enabled: bool, height: T) -> (lock: Self)
        ensures
            lock.enabled() == enabled,
            lock.height() == height,
    {
        HeightLock { enabled, height }
    }

    /// Whether first-person mode is on.
    pub fn is_enabled(&self) -> (enabled: bool)
        ensures
            enabled == self.enabled(),
    {
        self.enabled
    }

    /// The height that is kept.
    pub fn fixed_height(&self) -> (height: T)
        ensures
            height == self.height(),
    {
        self.height
    }

    /// Settles the height of the camera after a move in `direction` that
    /// alone would leave it at `moved_to`, and returns the height to give
    /// the camera.
    ///
    /// With first-person mode off that is `moved_to`. With it on, a vertical
    /// move is remembered, and the camera gets the height that is kept after
    /// it: that of the move if it was vertical, the one kept before if not.
    pub fn settle(&mut self, direction: CameraMovement, moved_to: T) -> (height: T)
        ensures
            final(self).enabled() == old(self).enabled(),
            final(self).height() == kept_after(
                old(self).enabled(),
                old(self).height(),
                Step { direction, moved_to },
            ),
            height == settled_after(
                old(self).enabled(),
                old(self).height(),
                Step { direction, moved_to },
            ),
    {
        if self.enabled {
            if direction.is_vertical() {
                self.height = moved_to;
            }
            self.height
        } else {
            moved_to
        }
    }
}

/// In first-person mode the height that is kept after any moves is the one
/// that the last vertical move among them left.
pub proof fn lemma_kept_height_is_last_vertical<T>(height: T, steps: Seq<Step<T>>)
    ensures
        kept_after_all(true, height, steps) == last_vertical(height, steps),
    decreases steps.len(),
{
    if steps.len() > 0 {
        lemma_kept_height_is_last_vertical(height, steps.drop_last());
    }
}

/// In first-person mode the camera's height after each move equals its
/// height at the last vertical move, or its first height where no move so
/// far was vertical.
pub proof fn lemma_height_follows_last_vertical<T>(height: T, steps: Seq<Step<T>>, upto: int)
    requires
        0 < upto <= steps.len(),
    ensures
        settled_after_all(true, height, steps.take(upto)) == last_vertical(
            height,
            steps.take(upto),
        ),
{
    lemma_kept_height_is_last_vertical(height, steps.take(upto));
}

/// In first-person mode moves that are not vertical leave the camera's
/// height where it was.
pub proof fn lemma_level_moves_keep_height<T>(height: T, steps: Seq<Step<T>>)
    requires
        forall|i: int| 0 <= i < steps.len() ==> !(#[trigger] steps[i]).direction.spec_is_vertical(),
    ensures
        kept_after_all(true, height, steps) == height,
        steps.len() > 0 ==> settled_after_all(true, height, steps) == height,
    decreases steps.len(),
{
    if steps.len() > 0 {
        let front = steps.drop_last();
        assert forall|i: int| 0 <= i < front.len() implies !(#[trigger] front[i]).direction.spec_is_vertical() by {
            assert(front[i] == steps[i]);
        }
        lemma_level_moves_keep_height(height, front);
        assert(!steps[steps.len() - 1].direction.spec_is_vertical());
    }
}

/// With first-person mode off every move leaves the camera where the move
/// alone takes it, and the height that is kept never changes.
pub proof fn lemma_free_camera_is_not_held<T>(height: T, steps: Seq<Step<T>>)
    ensures
        kept_after_all(false, height, steps) == height,
        steps.len() > 0 ==> settled_after_all(false, height, steps) == steps.last().moved_to,
    decreases steps.len(),
{
    if steps.len() > 0 {
        lemma_free_camera_is_not_held(height, steps.drop_last());
    }
}

} // verus!
