//! The selectable proxy: an addressable stand-in for one stroke of the plan,
//! translating pointer gestures on the stroke's path into selection and
//! commit commands for the plan authority.
//!
//! Each proxy processes one message at a time. It is created live, registers
//! itself with the pick surface, and lives until the clear-selection signal
//! arrives; from then on it is terminal and every further message is dropped
//! without effect.

use vstd::prelude::*;
use crate::geometry::{Band, Path, Point2, Point3};
use crate::interval::{
    single_anchor_interval, single_anchor_spec, two_anchor_interval, two_anchor_spec,
};

verus! {

/// Placeholder identity a proxy carries until the hosting registry assigns
/// the real one at registration.
pub const INVALID_ID: u64 = 0;

/// Half-width, in milli-units, of the hit-test band handed to the pick
/// surface.
pub const BAND_RADIUS: u64 = 5000;

/// The rendering/picking layer on which a selectable stroke lives.
pub const SELECTABLE_LAYER: u64 = 1;

/// Non-owning reference to a logical stroke held by the plan authority; a
/// plain lookup key.
#[derive(Clone, Copy, PartialEq, Eq, Structural, Debug)]
pub struct StrokeRef {
    pub index: u64,
}

/// What becomes of a proxy after it has processed a message: it either stays
/// around or is destroyed by the hosting registry.
#[derive(Clone, Copy, PartialEq, Eq, Structural, Debug)]
pub enum Fate {
    Live,
    Die,
}

/// A pointer-gesture event delivered by the pick surface.
///
/// Projection of a scene point onto a path is floating-point geometry and is
/// the pick surface's job; each gesture therefore carries, beside its scene
/// points, the arc-length projections of those points onto this proxy's
/// path, or `None` where the projection is undefined.
#[derive(Clone, Copy, PartialEq, Eq, Debug)]
pub enum Event3d {
    DragStarted { at: Point3, at_on_path: Option<u64> },
    DragOngoing { from: Point3, to: Point3, from_on_path: Option<u64>, to_on_path: Option<u64> },
    DragFinished { to: Point3 },
    Other,
}

/// A command to the plan authority: select an arc-length interval of a
/// stroke, or commit the pending edit at a ground-plane point.
#[derive(Clone, Copy, PartialEq, Eq, Structural, Debug)]
pub enum PlanControl {
    Select(StrokeRef, u64, u64),
    Commit(bool, Point2),
}

/// A command to the pick surface: make an interactable shape pickable under
/// an identity on a layer, or remove it.
#[derive(PartialEq, Eq, Debug)]
pub enum UiCommand {
    AddInteractable3d(u64, Band, u64),
    RemoveInteractable3d(u64),
}

/// The selectable proxy for one stroke: its identity in the pick surface,
/// the reference to the stroke it stands for, the stroke's current pick
/// geometry, and whether it is still live.
#[derive(Debug)]
pub struct LaneStrokeSelectable {
    pub id: u64,
    pub stroke_ref: StrokeRef,
    pub path: Path,
    pub live: bool,
}

impl LaneStrokeSelectable {
    /// The projections a gesture carries lie on this proxy's path — the
    /// standing guarantee of the pick surface's projection.
    pub open spec fn event_wf(self, ev: Event3d) -> bool {
        match ev {
            Event3d::DragStarted { at_on_path, .. } => (at_on_path matches Some(s) ==> s
                <= self.path.length),
            Event3d::DragOngoing { from_on_path, to_on_path, .. } => (from_on_path matches Some(a)
                ==> a <= self.path.length) && (to_on_path matches Some(b) ==> b
                <= self.path.length),
            _ => true,
        }
    }

    /// The proxy after the clear-selection signal: the same stroke and path,
    /// no longer live.
    pub open spec fn cleared(self) -> LaneStrokeSelectable {
        LaneStrokeSelectable { live: false, ..self }
    }

    /// The plan command a proxy emits for a pointer event.
    ///
    /// A live proxy selects the single-anchor interval around a projected
    /// drag start, selects the two-anchor interval spanned by a projected
    /// drag move, and commits unconditionally on drag finish; a gesture
    /// whose required projections are undefined, and any other event, emits
    /// nothing. A proxy that is no longer live emits nothing at all.
    pub open spec fn event_command(self, ev: Event3d) -> Option<PlanControl> {
        if !self.live {
            None
        } else {
            match ev {
                Event3d::DragStarted { at_on_path: Some(s), .. } => Some(
                    PlanControl::Select(
                        self.stroke_ref,
                        single_anchor_spec(s as int, self.path.length as int).0 as u64,
                        single_anchor_spec(s as int, self.path.length as int).1 as u64,
                    ),
                ),
                Event3d::DragOngoing { from_on_path: Some(a), to_on_path: Some(b), .. } => Some(
                    PlanControl::Select(
                        self.stroke_ref,
                        two_anchor_spec(a as int, b as int, self.path.length as int).0 as u64,
                        two_anchor_spec(a as int, b as int, self.path.length as int).1 as u64,
                    ),
                ),
                Event3d::DragFinished { to } => Some(
                    PlanControl::Commit(true, to.into_2d_spec()),
                ),
                _ => None,
            }
        }
    }

    /// Construction: a proxy starts live, bound to its stroke and path,
    /// carrying the placeholder identity until the hosting registry assigns
    /// the real one.
    pub fn new(stroke_ref: StrokeRef, path: Path) -> (r: Self)
        ensures
            r.id == INVALID_ID,
            r.stroke_ref == stroke_ref,
            r.path == path,
            r.live,
    {
        LaneStrokeSelectable { id: INVALID_ID, stroke_ref, path, live: true }
    }

    /// Registration: record the identity the hosting registry assigned and
    /// announce a constant-radius band around the path, on the selection
    /// layer, to the pick surface. A proxy that is no longer live drops the
    /// message.
    pub fn receive_add_to_ui(&mut self, assigned_id: u64) -> (r: (Option<UiCommand>, Fate))
        ensures
            final(self).stroke_ref == old(self).stroke_ref,
            final(self).path == old(self).path,
            final(self).live == old(self).live,
            old(self).live ==> {
                &&& final(self).id == assigned_id
                &&& r.0 matches Some(UiCommand::AddInteractable3d(id, band, layer))
                    && id == assigned_id && band.path.points@ == old(self).path.points@
                    && band.path.length == old(self).path.length && band.radius == BAND_RADIUS
                    && layer == SELECTABLE_LAYER
                &&& r.1 == Fate::Live
            },
            !old(self).live ==> final(self).id == old(self).id && r.0 is None && r.1 == Fate::Die,
    {
        if !self.live {
            return (None, Fate::Die);
        }
        self.id = assigned_id;
        let band = Band { path: self.path.clone(), radius: BAND_RADIUS };
        (Some(UiCommand::AddInteractable3d(assigned_id, band, SELECTABLE_LAYER)), Fate::Live)
    }

    /// Deregistration: name the proxy's identity to the pick surface for
    /// removal and end the proxy's life. The signal is terminal: the proxy
    /// is destroyed, and a proxy that was already cleared drops the message
    /// without naming itself again.
    pub fn receive_clear_selectables(&mut self) -> (r: (Option<UiCommand>, Fate))
        ensures
            *final(self) == old(self).cleared(),
            r.1 == Fate::Die,
            old(self).live ==> (r.0 matches Some(UiCommand::RemoveInteractable3d(id)) && id == old(
                self,
            ).id),
            !old(self).live ==> r.0 is None,
    {
        if !self.live {
            return (None, Fate::Die);
        }
        self.live = false;
        (Some(UiCommand::RemoveInteractable3d(self.id)), Fate::Die)
    }

    /// Gesture handling: emit exactly the command `event_command` describes.
    /// The proxy itself never changes — gestures mutate neither its stroke
    /// reference nor its path nor its liveness.
    pub fn receive_event3d(&mut self, ev: Event3d) -> (r: (Option<PlanControl>, Fate))
        requires
            old(self).event_wf(ev),
        ensures
            *final(self) == *old(self),
            r.0 == old(self).event_command(ev),
            r.1 == (if old(self).live {
                Fate::Live
            } else {
                Fate::Die
            }),
    {
        if !self.live {
            return (None, Fate::Die);
        }
        match ev {
            Event3d::DragStarted { at: _, at_on_path } => {
                match at_on_path {
                    Some(s) => {
                        let (start, end) = single_anchor_interval(s, self.path.length);
                        (Some(PlanControl::Select(self.stroke_ref, start, end)), Fate::Live)
                    },
                    None => (None, Fate::Live),
                }
            },
            Event3d::DragOngoing { from: _, to: _, from_on_path, to_on_path } => {
                match (from_on_path, to_on_path) {
                    (Some(a), Some(b)) => {
                        let (start, end) = two_anchor_interval(a, b, self.path.length);
                        (Some(PlanControl::Select(self.stroke_ref, start, end)), Fate::Live)
                    },
                    _ => (None, Fate::Live),
                }
            },
            Event3d::DragFinished { to } => {
                (Some(PlanControl::Commit(true, to.into_2d())), Fate::Live)
            },
            Event3d::Other => (None, Fate::Live),
        }
    }
}

/// Projection of a scene point onto a path runs outside this crate, in the
/// pick surface's floating-point geometry. This gate admits only results
/// that land on the path, so every arc length the gesture handlers see lies
/// in `[0, length]`; anything else counts as "no projection".
pub fn validate_projection(path: &Path, projected: Option<u64>) -> (r: Option<u64>)
    ensures
        r == (match projected {
            Some(s) => if s <= path.length {
                Some(s)
            } else {
                None::<u64>
            },
            None => None::<u64>,
        }),
        (match r {
            Some(s) => 0 <= s <= path.length,
            None => true,
        }),
{
    match projected {
        Some(s) => if s <= path.length {
            Some(s)
        } else {
            None
        },
        None => None,
    }
}

/// Deregistration is terminal: once the clear-selection signal has been
/// processed, the proxy is no longer live, no pointer event delivered to it
/// produces a plan command, and a further clear-selection signal leaves it
/// unchanged.
pub proof fn lemma_deregistration_terminal(p: LaneStrokeSelectable, ev: Event3d)
    ensures
        !p.cleared().live,
        p.cleared().event_command(ev) is None,
        p.cleared().cleared() == p.cleared(),
{
}

} // verus!
