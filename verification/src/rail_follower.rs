//! Followers: a position on a rail that moves and hops to linked rails.

use vstd::prelude::*;
use crate::distance::clamp;
use crate::distance::clamped;
use crate::distance::finite;
use crate::distance::is_finite;
use crate::error::RailError;
use crate::error::ValidationWarning;
use crate::rail::BakedCurve;
use crate::rail::CurveView;
use crate::rail::Rail2D;
use crate::rail::RailId;
use crate::rail::RailNetwork;
use crate::rail::RailView;
use crate::rail::have_texts;

verus! {

/// Where and how a curve is to be sampled, and the offset that goes with the
/// sample.
#[derive(Clone, Copy, Debug, PartialEq, Eq)]
pub struct Sample {
    /// The rail whose curve is sampled.
    pub rail: RailId,
    /// The distance along the curve.
    pub progress: i64,
    /// Cubic interpolation between baked points, else linear.
    pub cubic: bool,
    /// The first component of the offset.
    pub h_offset: i64,
    /// The second component of the offset.
    pub v_offset: i64,
}

/// What the host does to the follower's pose.
#[derive(Clone, Copy, Debug, PartialEq, Eq)]
pub enum PoseUpdate {
    /// The pose stays as it is.
    Unchanged,
    /// Sample the position, add the offset along the world axes and set the
    /// position. The orientation stays as it is.
    Position(Sample),
    /// Sample position and orientation, move by the offset within the sampled
    /// frame, and set both orientation and position.
    PositionAndRotation(Sample),
}

/// What became of a change of progress.
#[derive(Clone, Copy, Debug, PartialEq, Eq)]
pub struct ProgressReport {
    /// The follower moved on to a neighbouring rail.
    pub hopped: bool,
    /// `HopFailed` where the progress was clamped for want of a neighbour.
    pub warning: Option<ValidationWarning>,
    /// What to do to the pose now.
    pub pose: PoseUpdate,
}

/// A ratio of two distances. The denominator is positive.
#[derive(Clone, Copy, Debug, PartialEq, Eq)]
pub struct Ratio {
    pub numerator: i64,
    pub denominator: i64,
}

/// Something that moves along the rails of a network.
#[derive(Clone, Copy, Debug, PartialEq, Eq)]
pub struct RailFollower2D {
    rail: Option<RailId>,
    progress: i64,
    h_offset: i64,
    v_offset: i64,
    use_cubic_interpolation: bool,
    rotation_enabled: bool,
}

/// The model of a `RailFollower2D`.
pub struct FollowerView {
    pub rail: Option<RailId>,
    pub progress: int,
    pub h_offset: int,
    pub v_offset: int,
    pub use_cubic_interpolation: bool,
    pub rotation_enabled: bool,
}

impl FollowerView {
    /// The rail that the follower is on, where it names one that is in
    /// `network`.
    pub open spec fn current(self, network: Map<RailId, RailView>) -> Option<RailView> {
        match self.rail {
            Some(id) => if network.contains_key(id) {
                Some(network[id])
            } else {
                None
            },
            None => None,
        }
    }

    /// The curve of the rail that the follower is on.
    pub open spec fn followed_curve(self, network: Map<RailId, RailView>) -> Option<CurveView> {
        match self.current(network) {
            Some(rail) => rail.curve,
            None => None,
        }
    }

    /// The follower is on a rail of `network` whose curve can be sampled.
    pub open spec fn on_valid_rail(self, network: Map<RailId, RailView>) -> bool {
        self.current(network) matches Some(rail) && rail.curve_valid()
    }

    /// The length of the rail that the follower is on, or 0 where it is on
    /// none.
    pub open spec fn length(self, network: Map<RailId, RailView>) -> int {
        match self.current(network) {
            Some(rail) => rail.length(),
            None => 0,
        }
    }

    /// `value` lies on the current rail.
    pub open spec fn within_bounds(self, network: Map<RailId, RailView>, value: int) -> bool {
        0 <= value <= self.length(network)
    }

    /// The link that is asked for `value`: on a rail that has a curve, the
    /// north link past the far end, the south link before the near end, none
    /// in between. The link comes as it is set: whether the rail it names
    /// exists or can be sampled is not looked at.
    pub open spec fn queried_link(self, network: Map<RailId, RailView>, value: int) -> Option<
        RailId,
    > {
        match self.current(network) {
            Some(rail) => if rail.curve is None {
                None
            } else if value > rail.length() {
                rail.north_link
            } else if value < 0 {
                rail.south_link
            } else {
                None
            },
            None => None,
        }
    }

    /// The rail to hop to from `value`: the queried link, where the follower
    /// is on a valid rail and the link leads to a rail of `network` whose
    /// curve can be sampled.
    pub open spec fn hop_target(self, network: Map<RailId, RailView>, value: int) -> Option<
        RailId,
    > {
        match self.queried_link(network, value) {
            Some(next) => if self.on_valid_rail(network) && network.contains_key(next)
                && network[next].curve_valid() {
                Some(next)
            } else {
                None
            },
            None => None,
        }
    }

    /// `value` can be reached: it lies within the curve of the current rail,
    /// or there is a rail to hop to in its direction.
    pub open spec fn can_progress(self, network: Map<RailId, RailView>, value: int) -> bool {
        (self.followed_curve(network) is Some && self.within_bounds(network, value))
            || self.hop_target(network, value) is Some
    }

    /// Setting the progress to `value` ends in a clamp: the follower is on a
    /// valid rail, `value` lies outside it and nothing can be hopped to.
    pub open spec fn hop_fails(self, network: Map<RailId, RailView>, value: int) -> bool {
        self.on_valid_rail(network) && !self.within_bounds(network, value) && self.hop_target(
            network,
            value,
        ) is None
    }

    /// The follower after a hop to `next` with the overshoot `value`: before
    /// the near end the distance is counted back from the far end of `next`,
    /// past the far end it is counted on from the near end of `next`.
    pub open spec fn hopped(self, network: Map<RailId, RailView>, value: int, next: RailId) -> FollowerView {
        FollowerView {
            rail: Some(next),
            progress: if value < 0 {
                value + network[next].length()
            } else {
                value - self.length(network)
            },
            ..self
        }
    }

    /// The follower after its progress was set to `value`. On a valid rail a
    /// value outside the rail leads to one hop, or to a clamp where there is
    /// nothing to hop to. Otherwise the value is stored as it is.
    pub open spec fn after_set_progress(self, network: Map<RailId, RailView>, value: int) -> FollowerView {
        if !self.on_valid_rail(network) || self.within_bounds(network, value) {
            FollowerView { progress: value, ..self }
        } else {
            match self.hop_target(network, value) {
                Some(next) => self.hopped(network, value, next),
                None => FollowerView { progress: clamped(value, self.length(network)), ..self },
            }
        }
    }

    /// There is something to sample: the follower is on a valid rail whose
    /// length is not 0.
    pub open spec fn samplable(self, network: Map<RailId, RailView>) -> bool {
        self.on_valid_rail(network) && self.length(network) != 0
    }

    /// `sample` asks for the follower's own place and settings.
    pub open spec fn sampled_by(self, sample: Sample) -> bool {
        &&& self.rail == Some(sample.rail)
        &&& sample.progress == self.progress
        &&& sample.cubic == self.use_cubic_interpolation
        &&& sample.h_offset == self.h_offset
        &&& sample.v_offset == self.v_offset
    }

    /// `update` is what the follower's state asks of its pose.
    pub open spec fn pose_is(self, network: Map<RailId, RailView>, update: PoseUpdate) -> bool {
        match update {
            PoseUpdate::Unchanged => !self.samplable(network),
            PoseUpdate::Position(sample) => self.samplable(network) && !self.rotation_enabled
                && self.sampled_by(sample),
            PoseUpdate::PositionAndRotation(sample) => self.samplable(network)
                && self.rotation_enabled && self.sampled_by(sample),
        }
    }

    /// `after` is the follower once its progress was set to `value`, and
    /// `report` tells what happened: whether it hopped, whether the hop
    /// failed, and what its new state asks of the pose.
    pub open spec fn progress_set(
        self,
        network: Map<RailId, RailView>,
        value: int,
        after: FollowerView,
        report: ProgressReport,
    ) -> bool {
        &&& after == self.after_set_progress(network, value)
        &&& report.hopped == (self.hop_target(network, value) is Some)
        &&& report.warning == if self.hop_fails(network, value) {
            Some(ValidationWarning::HopFailed)
        } else {
            None
        }
        &&& after.pose_is(network, report.pose)
    }

    /// The ratio is defined: the follower is on a valid rail of a length
    /// above 0.
    pub open spec fn ratio_defined(self, network: Map<RailId, RailView>) -> bool {
        self.on_valid_rail(network) && self.length(network) > 0
    }

    /// `ratio` is the progress over the length where that is defined, and
    /// zero over one where it is not.
    pub open spec fn ratio_is(self, network: Map<RailId, RailView>, ratio: Ratio) -> bool {
        if self.ratio_defined(network) {
            ratio.numerator == self.progress && ratio.denominator == self.length(network)
        } else {
            ratio.numerator == 0 && ratio.denominator == 1
        }
    }

    /// The messages that describe what is wrong with the follower.
    pub open spec fn configuration_warnings(self, network: Map<RailId, RailView>) -> Seq<Seq<char>> {
        if self.current(network) is Some {
            Seq::<Seq<char>>::empty()
        } else {
            seq!["A RailFollower2D needs to point at a valid Rai2D instance"@]
        }
    }

    /// On a valid rail without links, setting the progress to any value
    /// leaves the follower on its rail at that value clamped to the rail.
    pub proof fn lemma_unlinked_rail_clamps(self, network: Map<RailId, RailView>, value: int)
        requires
            self.current(network) matches Some(rail) && rail.curve_valid() && rail.north_link
                is None && rail.south_link is None,
        ensures
            self.after_set_progress(network, value) == (FollowerView {
                progress: clamped(value, self.length(network)),
                ..self
            }),
    {
    }

    /// Setting the progress hops at most once: the follower ends on its own
    /// rail or on the one that its link in the direction of the value names,
    /// whether or not the new progress lies on that rail.
    pub proof fn lemma_one_hop(self, network: Map<RailId, RailView>, value: int)
        ensures
            self.after_set_progress(network, value).rail == self.rail || self.after_set_progress(
                network,
                value,
            ).rail == self.queried_link(network, value),
    {
    }

    /// On a rail that has a curve, a value past the far end asks for the
    /// north link and a value before the near end for the south link, each as
    /// it is set, and a value in between for none. Where there is a rail to
    /// hop to, it is the one that the queried link names.
    pub proof fn lemma_queried_link(self, network: Map<RailId, RailView>, value: int)
        requires
            self.current(network) matches Some(rail) && rail.curve is Some,
            0 <= self.length(network),
        ensures
            value > self.length(network) ==> self.queried_link(network, value)
                == network[self.rail.unwrap()].north_link,
            value < 0 ==> self.queried_link(network, value)
                == network[self.rail.unwrap()].south_link,
            self.within_bounds(network, value) ==> self.queried_link(network, value) is None,
            self.hop_target(network, value) is Some ==> self.hop_target(network, value)
                == self.queried_link(network, value),
    {
    }

    /// On a valid rail a value can be reached exactly when setting the
    /// progress to it does not fail to hop. A value within the rail is stored
    /// as it is.
    pub proof fn lemma_can_progress(self, network: Map<RailId, RailView>, value: int)
        requires
            self.on_valid_rail(network),
        ensures
            self.can_progress(network, value) <==> !self.hop_fails(network, value),
            self.within_bounds(network, value) ==> self.after_set_progress(network, value) == (
            FollowerView { progress: value, ..self }),
    {
    }

    /// Where the ratio is defined, the ratio times the length of the rail is
    /// the progress.
    pub proof fn lemma_ratio_times_length(self, network: Map<RailId, RailView>, ratio: Ratio)
        requires
            self.ratio_is(network, ratio),
            self.on_valid_rail(network),
            self.length(network) > 0,
        ensures
            ratio.denominator > 0,
            ratio.numerator * self.length(network) == self.progress * ratio.denominator,
    {
    }

    /// On a rail of length 0 the ratio is zero.
    pub proof fn lemma_ratio_of_empty_rail(self, network: Map<RailId, RailView>, ratio: Ratio)
        requires
            self.ratio_is(network, ratio),
            self.length(network) == 0,
        ensures
            ratio.numerator == 0,
            ratio.denominator == 1,
    {
    }

    /// The follower's state and the network settle what is asked of the
    /// pose: asking twice gives the same answer.
    pub proof fn lemma_pose_determined(
        self,
        network: Map<RailId, RailView>,
        first: PoseUpdate,
        second: PoseUpdate,
    )
        requires
            self.pose_is(network, first),
            self.pose_is(network, second),
        ensures
            first == second,
    {
    }
}

impl View for RailFollower2D {
    type V = FollowerView;

    closed spec fn view(&self) -> FollowerView {
        FollowerView {
            rail: self.rail,
            progress: self.progress as int,
            h_offset: self.h_offset as int,
            v_offset: self.v_offset as int,
            use_cubic_interpolation: self.use_cubic_interpolation,
            rotation_enabled: self.rotation_enabled,
        }
    }
}

impl RailFollower2D {
    /// The progress is a finite distance.
    pub open spec fn wf(&self) -> bool {
        finite(self@.progress)
    }

    /// A follower on no rail, at progress 0, without offsets, with cubic
    /// interpolation and rotation switched on.
    pub fn init() -> (r: RailFollower2D)
        ensures
            r.wf(),
            r@ == (FollowerView {
                rail: None,
                progress: 0,
                h_offset: 0,
                v_offset: 0,
                use_cubic_interpolation: true,
                rotation_enabled: true,
            }),
    {
        RailFollower2D {
            rail: None,
            progress: 0,
            h_offset: 0,
            v_offset: 0,
            use_cubic_interpolation: true,
            rotation_enabled: true,
        }
    }

    /// The rail that the follower is on.
    pub fn get_rail(&self) -> (r: Option<RailId>)
        ensures
            r == self@.rail,
    {
        self.rail
    }

    /// The distance along the current rail.
    pub fn get_progress(&self) -> (r: i64)
        ensures
            r == self@.progress,
    {
        self.progress
    }

    /// The first component of the offset.
    pub fn get_h_offset(&self) -> (r: i64)
        ensures
            r == self@.h_offset,
    {
        self.h_offset
    }

    /// The second component of the offset.
    pub fn get_v_offset(&self) -> (r: i64)
        ensures
            r == self@.v_offset,
    {
        self.v_offset
    }

    /// Whether samples are interpolated cubically.
    pub fn get_use_cubic_interpolation(&self) -> (r: bool)
        ensures
            r == self@.use_cubic_interpolation,
    {
        self.use_cubic_interpolation
    }

    /// Whether the follower turns with the curve.
    pub fn get_rotation_enabled(&self) -> (r: bool)
        ensures
            r == self@.rotation_enabled,
    {
        self.rotation_enabled
    }

    /// The rail that the follower is on, where it is in `network`.
    fn current_rail<'a>(&self, network: &'a RailNetwork) -> (r: Option<&'a Rail2D>)
        requires
            network.wf(),
        ensures
            match r {
                Some(rail) => self@.current(network@) == Some(rail@) && rail.wf(),
                None => self@.current(network@) is None,
            },
    {
        match self.rail {
            Some(id) => network.get_rail(id),
            None => None,
        }
    }

    /// The rail that the follower is on, where it is in `network` and has a
    /// curve that can be sampled.
    fn valid_rail<'a>(&self, network: &'a RailNetwork) -> (r: Option<&'a Rail2D>)
        requires
            network.wf(),
        ensures
            match r {
                Some(rail) => self@.on_valid_rail(network@) && self@.current(network@) == Some(
                    rail@,
                ) && rail.wf(),
                None => !self@.on_valid_rail(network@),
            },
    {
        match self.current_rail(network) {
            Some(rail) => if rail.is_curve_valid() {
                Some(rail)
            } else {
                None
            },
            None => None,
        }
    }

    /// What the follower's state asks of its pose: nothing where it is on no
    /// valid rail or on one of length 0, else a sample at its progress, with
    /// or without rotation.
    pub fn update_transform(&self, network: &RailNetwork) -> (r: PoseUpdate)
        requires
            network.wf(),
        ensures
            self@.pose_is(network@, r),
    {
        match self.valid_rail(network) {
            Some(rail) => {
                if rail.length() == 0 {
                    PoseUpdate::Unchanged
                } else {
                    let sample = Sample {
                        rail: rail.get_id(),
                        progress: self.progress,
                        cubic: self.use_cubic_interpolation,
                        h_offset: self.h_offset,
                        v_offset: self.v_offset,
                    };
                    proof {
                        network.lemma_wf();
                    }
                    if self.rotation_enabled {
                        PoseUpdate::PositionAndRotation(sample)
                    } else {
                        PoseUpdate::Position(sample)
                    }
                }
            },
            None => PoseUpdate::Unchanged,
        }
    }

    /// The rail that the follower is on, where it is in `network` and has a
    /// curve.
    fn rail_with_curve<'a>(&self, network: &'a RailNetwork) -> (r: Option<&'a Rail2D>)
        requires
            network.wf(),
        ensures
            match r {
                Some(rail) => self@.followed_curve(network@) is Some && self@.current(network@)
                    == Some(rail@) && rail.wf(),
                None => self@.followed_curve(network@) is None,
            },
    {
        match self.current_rail(network) {
            Some(rail) => if rail.get_curve().is_some() {
                Some(rail)
            } else {
                None
            },
            None => None,
        }
    }

    /// The link that is asked for `value`, seen as a distance of any size.
    fn queried_link_wide(&self, network: &RailNetwork, value: i128) -> (r: Option<RailId>)
        requires
            network.wf(),
        ensures
            r == self@.queried_link(network@, value as int),
    {
        match self.rail_with_curve(network) {
            Some(rail) => {
                let length: i64 = rail.length();
                if value > length as i128 {
                    rail.get_north_link()
                } else if value < 0 {
                    rail.get_south_link()
                } else {
                    None
                }
            },
            None => None,
        }
    }

    /// The rail to hop to from `value`, seen as a distance of any size.
    fn hop_target_wide(&self, network: &RailNetwork, value: i128) -> (r: Option<RailId>)
        requires
            network.wf(),
        ensures
            r == self@.hop_target(network@, value as int),
    {
        match self.queried_link_wide(network, value) {
            Some(next) => {
                if self.valid_rail(network).is_none() {
                    return None;
                }
                match network.get_rail(next) {
                    Some(neighbor) => if neighbor.is_curve_valid() {
                        Some(next)
                    } else {
                        None
                    },
                    None => None,
                }
            },
            None => None,
        }
    }

    /// Whether `value`, seen as a distance of any size, can be reached.
    fn can_progress_wide(&self, network: &RailNetwork, value: i128) -> (r: bool)
        requires
            network.wf(),
        ensures
            r == self@.can_progress(network@, value as int),
    {
        match self.rail_with_curve(network) {
            Some(rail) => {
                let length: i64 = rail.length();
                (0 <= value && value <= length as i128) || self.hop_target_wide(
                    network,
                    value,
                ).is_some()
            },
            None => false,
        }
    }

    /// The link that lies in the direction of `progress`: on a rail that has
    /// a curve, the north link where `progress` is past the far end, the
    /// south link where it is before the near end, none in between. The link
    /// comes as it is set, whether or not the rail that it names is in
    /// `network` or can be sampled. On no rail, or on one without a curve,
    /// there is none.
    pub fn get_next_rail_in_direction(&self, network: &RailNetwork, progress: i64) -> (r: Option<
        RailId,
    >)
        requires
            network.wf(),
        ensures
            r == self@.queried_link(network@, progress as int),
    {
        self.queried_link_wide(network, progress as i128)
    }

    /// Hops to the rail that the link in the direction of `progress` names,
    /// where the follower is on a valid rail and that rail is in `network`
    /// with a curve that can be sampled, and tells whether it did. Otherwise
    /// the follower stays as it is.
    fn hop_to_next_rail_in_direction(&mut self, network: &RailNetwork, progress: i64) -> (r: bool)
        requires
            network.wf(),
            old(self).wf(),
            finite(progress as int),
        ensures
            final(self).wf(),
            r == (old(self)@.hop_target(network@, progress as int) is Some),
            match old(self)@.hop_target(network@, progress as int) {
                Some(next) => final(self)@ == old(self)@.hopped(network@, progress as int, next),
                None => final(self)@ == old(self)@,
            },
    {
        let current_path_len: i64 = match self.current_rail(network) {
            Some(rail) => rail.length(),
            None => 0,
        };
        match self.hop_target_wide(network, progress as i128) {
            Some(next) => {
                let next_path_len: i64 = match network.get_rail(next) {
                    Some(neighbor) => neighbor.length(),
                    None => 0,
                };
                self.rail = Some(next);
                if progress < 0 {
                    self.progress = progress + next_path_len;
                } else {
                    self.progress = progress - current_path_len;
                }
                true
            },
            None => false,
        }
    }

    /// Puts the follower on `rail`, or on none. The progress stays as it is.
    /// Returns what to do to the pose.
    pub fn set_rail(&mut self, network: &RailNetwork, rail: Option<RailId>) -> (pose: PoseUpdate)
        requires
            network.wf(),
        ensures
            final(self)@ == (FollowerView { rail, ..old(self)@ }),
            final(self)@.pose_is(network@, pose),
    {
        self.rail = rail;
        self.update_transform(network)
    }

    /// The curve of the rail that the follower is on.
    pub fn get_followed_curve(&self, network: &RailNetwork) -> (r: Option<BakedCurve>)
        requires
            network.wf(),
        ensures
            match r {
                Some(curve) => self@.followed_curve(network@) == Some(curve@) && curve.wf(),
                None => self@.followed_curve(network@) is None,
            },
    {
        match self.current_rail(network) {
            Some(rail) => rail.get_curve(),
            None => None,
        }
    }

    /// Sets the progress to `value`. A value that is not finite is refused
    /// and nothing changes. On a valid rail a value outside the rail leads to
    /// exactly one hop: past the far end through the north link, before the
    /// near end through the south link. Where there is nothing to hop to, the
    /// value is clamped to the rail and the report carries `HopFailed`.
    pub fn set_progress(&mut self, network: &RailNetwork, value: i64) -> (r: Result<
        ProgressReport,
        RailError,
    >)
        requires
            network.wf(),
            old(self).wf(),
        ensures
            final(self).wf(),
            r is Ok <==> finite(value as int),
            r matches Err(e) ==> e == RailError::InvariantViolation && final(self)@ == old(self)@,
            r matches Ok(report) ==> old(self)@.progress_set(
                network@,
                value as int,
                final(self)@,
                report,
            ),
    {
        if !is_finite(value) {
            return Err(RailError::InvariantViolation);
        }
        self.progress = value;
        let mut hopped: bool = false;
        let mut warning: Option<ValidationWarning> = None;
        let bounds: Option<i64> = match self.valid_rail(network) {
            Some(rail) => Some(rail.length()),
            None => None,
        };
        match bounds {
            Some(path_len) => {
                if value < 0 || value > path_len {
                    hopped = self.hop_to_next_rail_in_direction(network, value);
                    if !hopped {
                        self.progress = clamp(value, path_len);
                        warning = Some(ValidationWarning::HopFailed);
                    }
                }
            },
            None => {},
        }
        let pose: PoseUpdate = self.update_transform(network);
        Ok(ProgressReport { hopped, warning, pose })
    }

    /// Moves on by `amount`: sets the progress to the sum of the present
    /// progress and `amount`. A sum that is not finite is refused.
    pub fn advance_progress(&mut self, network: &RailNetwork, amount: i64) -> (r: Result<
        ProgressReport,
        RailError,
    >)
        requires
            network.wf(),
            old(self).wf(),
        ensures
            final(self).wf(),
            r is Ok <==> finite(old(self)@.progress + amount),
            r matches Err(e) ==> e == RailError::InvariantViolation && final(self)@ == old(self)@,
            r matches Ok(report) ==> old(self)@.progress_set(
                network@,
                old(self)@.progress + amount,
                final(self)@,
                report,
            ),
    {
        match self.progress.checked_add(amount) {
            Some(value) => self.set_progress(network, value),
            None => Err(RailError::InvariantViolation),
        }
    }

    /// Tells whether `progress` lies within the curve of the current rail, or
    /// there is a rail to hop to in its direction. On no rail, or on one
    /// without a curve, nothing can be reached.
    pub fn can_progress(&self, network: &RailNetwork, progress: i64) -> (r: bool)
        requires
            network.wf(),
        ensures
            r == self@.can_progress(network@, progress as int),
    {
        self.can_progress_wide(network, progress as i128)
    }

    /// Tells whether the present progress and `amount` together can be
    /// reached.
    pub fn can_advance_progress(&self, network: &RailNetwork, amount: i64) -> (r: bool)
        requires
            network.wf(),
        ensures
            r == self@.can_progress(network@, self@.progress + amount),
    {
        self.can_progress_wide(network, self.progress as i128 + amount as i128)
    }

    /// The progress over the length of the current rail, as a ratio. Where
    /// the follower is on no valid rail, or on one of length 0, this is zero
    /// over one.
    pub fn get_progress_ratio(&self, network: &RailNetwork) -> (r: Ratio)
        requires
            network.wf(),
        ensures
            self@.ratio_is(network@, r),
            r.denominator > 0,
    {
        match self.valid_rail(network) {
            Some(rail) => {
                let length: i64 = rail.length();
                if length > 0 {
                    Ratio { numerator: self.progress, denominator: length }
                } else {
                    Ratio { numerator: 0, denominator: 1 }
                }
            },
            None => Ratio { numerator: 0, denominator: 1 },
        }
    }

    /// Sets the first component of the offset. Returns what to do to the
    /// pose.
    pub fn set_h_offset(&mut self, network: &RailNetwork, offset: i64) -> (pose: PoseUpdate)
        requires
            network.wf(),
        ensures
            final(self)@ == (FollowerView { h_offset: offset as int, ..old(self)@ }),
            final(self)@.pose_is(network@, pose),
    {
        self.h_offset = offset;
        self.update_transform(network)
    }

    /// Sets the second component of the offset. Returns what to do to the
    /// pose.
    pub fn set_v_offset(&mut self, network: &RailNetwork, offset: i64) -> (pose: PoseUpdate)
        requires
            network.wf(),
        ensures
            final(self)@ == (FollowerView { v_offset: offset as int, ..old(self)@ }),
            final(self)@.pose_is(network@, pose),
    {
        self.v_offset = offset;
        self.update_transform(network)
    }

    /// Switches rotation with the curve on or off. Returns what to do to the
    /// pose.
    pub fn set_rotation_enabled(&mut self, network: &RailNetwork, enabled: bool) -> (pose:
        PoseUpdate)
        requires
            network.wf(),
        ensures
            final(self)@ == (FollowerView { rotation_enabled: enabled, ..old(self)@ }),
            final(self)@.pose_is(network@, pose),
    {
        self.rotation_enabled = enabled;
        self.update_transform(network)
    }

    /// Chooses cubic or linear interpolation for the samples to come.
    pub fn set_use_cubic_interpolation(&mut self, cubic: bool)
        ensures
            final(self)@ == (FollowerView { use_cubic_interpolation: cubic, ..old(self)@ }),
    {
        self.use_cubic_interpolation = cubic;
    }

    /// The messages that describe what is wrong with the follower: one where
    /// it is on no rail, or on one that is not in `network`.
    pub fn get_configuration_warnings(&self, network: &RailNetwork) -> (r: Vec<String>)
        requires
            network.wf(),
        ensures
            have_texts(r@, self@.configuration_warnings(network@)),
    {
        let mut warnings: Vec<String> = Vec::new();
        if self.current_rail(network).is_none() {
            warnings.push("A RailFollower2D needs to point at a valid Rai2D instance".to_owned());
        }
        warnings
    }
}

} // verus!
