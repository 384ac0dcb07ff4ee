//! Turnouts: an ordered list of rails, one of which is active.

use vstd::prelude::*;
use crate::error::RailError;
use crate::error::ValidationWarning;
use crate::rail::RailId;

verus! {

/// A junction that selects one rail out of an ordered list of candidates.
#[derive(Debug, PartialEq, Eq)]
pub struct Turnout2D {
    current_point: usize,
    points: Vec<RailId>,
}

/// The model of a `Turnout2D`.
pub struct TurnoutView {
    pub points: Seq<RailId>,
    pub current_point: nat,
}

impl TurnoutView {
    /// The active index names a point; in an empty list it is 0.
    pub open spec fn valid(self) -> bool {
        self.current_point < self.points.len() || (self.points.len() == 0 && self.current_point
            == 0)
    }

    /// `index` names no point of a list of `len` points.
    pub open spec fn past_end(index: nat, len: nat) -> bool {
        index >= len
    }

    /// The turnout after `index` was chosen as the active point: an index
    /// past the end gives the first point.
    pub open spec fn select(self, index: nat) -> TurnoutView {
        TurnoutView {
            points: self.points,
            current_point: if Self::past_end(index, self.points.len()) {
                0
            } else {
                index
            },
        }
    }

    /// The turnout after its list was replaced by `points`.
    pub open spec fn with_points(self, points: Seq<RailId>) -> TurnoutView {
        (TurnoutView { points, current_point: self.current_point }).select(self.current_point)
    }

    /// Whether taking the point `index` out sets the active point back: it
    /// does when the removal is at or after the active point, or when the
    /// active point would come to lie past the end.
    pub open spec fn removal_resets(self, index: int) -> bool {
        self.current_point <= index || self.current_point >= self.points.len() - 1
    }

    /// The turnout after the point `index` was taken out.
    pub open spec fn without_point(self, index: int) -> TurnoutView {
        TurnoutView {
            points: self.points.remove(index),
            current_point: if self.removal_resets(index) {
                0
            } else {
                self.current_point
            },
        }
    }
}

impl View for Turnout2D {
    type V = TurnoutView;

    closed spec fn view(&self) -> TurnoutView {
        TurnoutView { points: self.points@, current_point: self.current_point as nat }
    }
}

impl Turnout2D {
    /// The active index names a point; in an empty list it is 0.
    pub open spec fn wf(&self) -> bool {
        self@.valid()
    }

    /// A turnout without points.
    pub fn init() -> (r: Turnout2D)
        ensures
            r.wf(),
            r@ == (TurnoutView { points: Seq::<RailId>::empty(), current_point: 0 }),
    {
        Turnout2D { current_point: 0, points: Vec::new() }
    }

    /// The index of the active point.
    pub fn get_current_point(&self) -> (r: usize)
        ensures
            r == self@.current_point,
    {
        self.current_point
    }

    /// The candidate rails, in order.
    pub fn get_points(&self) -> (r: &Vec<RailId>)
        ensures
            r@ == self@.points,
    {
        &self.points
    }

    /// Makes `index` the active point. An index past the end gives the first
    /// point and a warning.
    pub fn set_current_point(&mut self, index: usize) -> (warning: Option<ValidationWarning>)
        ensures
            final(self)@ == old(self)@.select(index as nat),
            final(self).wf(),
            warning == if TurnoutView::past_end(index as nat, old(self)@.points.len()) {
                Some(ValidationWarning::CurrentPointReset)
            } else {
                None
            },
    {
        if index >= self.points.len() {
            self.current_point = 0;
            Some(ValidationWarning::CurrentPointReset)
        } else {
            self.current_point = index;
            None
        }
    }

    /// Replaces the list of points. An active index that is past the end of
    /// the new list gives the first point and a warning.
    pub fn set_points(&mut self, points: Vec<RailId>) -> (warning: Option<ValidationWarning>)
        ensures
            final(self)@ == old(self)@.with_points(points@),
            final(self).wf(),
            warning == if TurnoutView::past_end(old(self)@.current_point, points@.len()) {
                Some(ValidationWarning::CurrentPointReset)
            } else {
                None
            },
    {
        self.points = points;
        if self.current_point >= self.points.len() {
            self.current_point = 0;
            Some(ValidationWarning::CurrentPointReset)
        } else {
            None
        }
    }

    /// Appends `rail` and returns its index. The active point stays.
    pub fn add_point(&mut self, rail: RailId) -> (index: usize)
        requires
            old(self).wf(),
        ensures
            final(self).wf(),
            index == old(self)@.points.len(),
            final(self)@ == (TurnoutView {
                points: old(self)@.points.push(rail),
                current_point: old(self)@.current_point,
            }),
    {
        let index: usize = self.points.len();
        self.points.push(rail);
        index
    }

    /// Takes the point `index` out. An index past the end is refused and
    /// nothing changes. Otherwise the active point is set back to the first,
    /// with a warning, when the removal is at or after it or when it would
    /// come to lie past the end.
    pub fn remove_point(&mut self, index: usize) -> (r: Result<
        Option<ValidationWarning>,
        RailError,
    >)
        requires
            old(self).wf(),
        ensures
            final(self).wf(),
            r is Ok <==> index < old(self)@.points.len(),
            r matches Err(e) ==> e == RailError::IndexOutOfRange && final(self)@ == old(self)@,
            r matches Ok(warning) ==> final(self)@ == old(self)@.without_point(index as int)
                && warning == if old(self)@.removal_resets(index as int) {
                Some(ValidationWarning::CurrentPointReset)
            } else {
                None
            },
    {
        if index >= self.points.len() {
            return Err(RailError::IndexOutOfRange);
        }
        self.points.remove(index);
        if self.current_point <= index || self.current_point >= self.points.len() {
            self.current_point = 0;
            Ok(Some(ValidationWarning::CurrentPointReset))
        } else {
            Ok(None)
        }
    }
}

} // verus!
