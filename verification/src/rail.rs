//! Rails and the network that holds them.
//!
//! A rail names its neighbours by their ids and owns none of them. Links may
//! form cycles, point one way only, or name a rail that has left the network:
//! every reader looks the neighbour up and copes when it is not there.

use vstd::prelude::*;
use crate::distance::MAX_DISTANCE;
use crate::error::RailError;

verus! {

/// The identity of a rail within its network.
#[derive(Clone, Copy, Debug, PartialEq, Eq, Hash, Structural)]
pub struct RailId(pub usize);

/// What the engine reads of a baked curve: how many points define it and how
/// long it is.
#[derive(Clone, Copy, Debug, PartialEq, Eq)]
pub struct BakedCurve {
    point_count: usize,
    baked_length: i64,
}

/// The model of a `BakedCurve`.
pub struct CurveView {
    pub point_count: nat,
    pub baked_length: int,
}

impl CurveView {
    /// A curve can be sampled when at least two points define it.
    pub open spec fn samplable(self) -> bool {
        self.point_count >= 2
    }
}

impl View for BakedCurve {
    type V = CurveView;

    closed spec fn view(&self) -> CurveView {
        CurveView { point_count: self.point_count as nat, baked_length: self.baked_length as int }
    }
}

impl BakedCurve {
    /// The length is a finite distance and not negative.
    pub closed spec fn wf(&self) -> bool {
        0 <= self.baked_length <= MAX_DISTANCE
    }

    /// Every well-formed curve has a length in `[0, MAX_DISTANCE]`.
    pub proof fn lemma_length_bounds(&self)
        requires
            self.wf(),
        ensures
            0 <= self@.baked_length <= MAX_DISTANCE,
    {
    }

    /// A curve of `point_count` points and of length `baked_length`. A length
    /// that is negative or not finite is refused.
    pub fn new(point_count: usize, baked_length: i64) -> (r: Result<BakedCurve, RailError>)
        ensures
            r is Ok <==> 0 <= baked_length <= MAX_DISTANCE,
            r matches Ok(curve) ==> curve.wf() && curve@ == (CurveView {
                point_count: point_count as nat,
                baked_length: baked_length as int,
            }),
            r matches Err(e) ==> e == RailError::InvariantViolation,
    {
        if 0 <= baked_length && baked_length <= MAX_DISTANCE {
            Ok(BakedCurve { point_count, baked_length })
        } else {
            Err(RailError::InvariantViolation)
        }
    }

    /// The number of points that define the curve.
    pub fn get_point_count(&self) -> (r: usize)
        ensures
            r == self@.point_count,
    {
        self.point_count
    }

    /// The length of the curve.
    pub fn get_baked_length(&self) -> (r: i64)
        ensures
            r == self@.baked_length,
    {
        self.baked_length
    }
}

/// One rail: its identity, its two links and its curve, if it has one.
#[derive(Clone, Copy, Debug, PartialEq, Eq)]
pub struct Rail2D {
    id: RailId,
    north_link: Option<RailId>,
    south_link: Option<RailId>,
    curve: Option<BakedCurve>,
}

/// The model of a `Rail2D`.
pub struct RailView {
    pub id: RailId,
    pub north_link: Option<RailId>,
    pub south_link: Option<RailId>,
    pub curve: Option<CurveView>,
}

impl RailView {
    /// The rail has a curve that can be sampled.
    pub open spec fn curve_valid(self) -> bool {
        self.curve matches Some(curve) && curve.samplable()
    }

    /// The length of the rail's curve, or 0 where it has none.
    pub open spec fn length(self) -> int {
        match self.curve {
            Some(curve) => curve.baked_length,
            None => 0,
        }
    }

    /// One of this rail's links names `id`.
    pub open spec fn links_to(self, id: RailId) -> bool {
        self.north_link == Some(id) || self.south_link == Some(id)
    }

    /// `neighbor` is a rail of `network` and one of its links names this rail.
    pub open spec fn answered_by(self, network: Map<RailId, RailView>, neighbor: RailId) -> bool {
        network.contains_key(neighbor) && network[neighbor].links_to(self.id)
    }

    /// `link` is either unset, or names a rail of `network` that links back to
    /// this one.
    pub open spec fn reciprocated(self, network: Map<RailId, RailView>, link: Option<RailId>) -> bool {
        link matches Some(neighbor) ==> self.answered_by(network, neighbor)
    }

    /// Both links are reciprocated.
    pub open spec fn mutually_connected(self, network: Map<RailId, RailView>) -> bool {
        self.reciprocated(network, self.north_link) && self.reciprocated(network, self.south_link)
    }

    /// A rail is mutually connected exactly when every rail that one of its
    /// links names is in the network and links back to it. A rail without
    /// links is mutually connected, and one link that is not answered is
    /// enough to make it not so.
    pub proof fn lemma_mutually_connected(self, network: Map<RailId, RailView>)
        ensures
            self.mutually_connected(network) <==> (forall|neighbor: RailId|
                (self.north_link == Some(neighbor) || self.south_link == Some(neighbor))
                    ==> #[trigger] self.answered_by(network, neighbor)),
            self.north_link is None && self.south_link is None ==> self.mutually_connected(network),
    {
        if self.mutually_connected(network) {
            assert forall|neighbor: RailId|
                (self.north_link == Some(neighbor) || self.south_link == Some(
                    neighbor,
                )) implies #[trigger] self.answered_by(network, neighbor) by {}
        }
        if forall|neighbor: RailId|
            (self.north_link == Some(neighbor) || self.south_link == Some(neighbor))
                ==> #[trigger] self.answered_by(network, neighbor) {
            if let Some(north) = self.north_link {
                assert(self.answered_by(network, north));
            }
            if let Some(south) = self.south_link {
                assert(self.answered_by(network, south));
            }
        }
    }

    /// The messages that describe what is wrong with this rail, in order.
    pub open spec fn configuration_warnings(self, network: Map<RailId, RailView>) -> Seq<Seq<char>> {
        let geometry = if self.curve_valid() {
            Seq::<Seq<char>>::empty()
        } else {
            seq!["geometry invalid"@]
        };
        let links = if self.mutually_connected(network) {
            Seq::<Seq<char>>::empty()
        } else {
            seq!["links not mutually connected"@]
        };
        geometry + links
    }
}

impl View for Rail2D {
    type V = RailView;

    closed spec fn view(&self) -> RailView {
        RailView {
            id: self.id,
            north_link: self.north_link,
            south_link: self.south_link,
            curve: match self.curve {
                Some(curve) => Some(curve@),
                None => None,
            },
        }
    }
}

/// `messages` holds the texts `texts`, in order.
pub open spec fn have_texts(messages: Seq<String>, texts: Seq<Seq<char>>) -> bool {
    &&& messages.len() == texts.len()
    &&& forall|i: int| 0 <= i < messages.len() ==> (#[trigger] messages[i])@ == texts[i]
}

/// Tells whether `link` is set and names `id`.
fn names(link: Option<RailId>, id: RailId) -> (r: bool)
    ensures
        r == (link == Some(id)),
{
    match link {
        Some(target) => target.0 == id.0,
        None => false,
    }
}

impl Rail2D {
    /// The curve, where there is one, is well formed.
    pub closed spec fn wf(&self) -> bool {
        self.curve matches Some(curve) ==> curve.wf()
    }

    /// Every curve of a well-formed rail has a length in `[0, MAX_DISTANCE]`.
    pub proof fn lemma_length_bounds(&self)
        requires
            self.wf(),
        ensures
            0 <= self@.length() <= MAX_DISTANCE,
    {
    }

    /// A rail with the identity `id`, without links and without a curve.
    pub fn init(id: RailId) -> (r: Rail2D)
        ensures
            r.wf(),
            r@ == (RailView { id, north_link: None, south_link: None, curve: None }),
    {
        Rail2D { id, north_link: None, south_link: None, curve: None }
    }

    /// The rail's identity.
    pub fn get_id(&self) -> (r: RailId)
        ensures
            r == self@.id,
    {
        self.id
    }

    /// The link that is followed past the far end of the curve.
    pub fn get_north_link(&self) -> (r: Option<RailId>)
        ensures
            r == self@.north_link,
    {
        self.north_link
    }

    /// The link that is followed before the near end of the curve.
    pub fn get_south_link(&self) -> (r: Option<RailId>)
        ensures
            r == self@.south_link,
    {
        self.south_link
    }

    /// The rail's curve.
    pub fn get_curve(&self) -> (r: Option<BakedCurve>)
        ensures
            match r {
                Some(curve) => self@.curve == Some(curve@) && (self.wf() ==> curve.wf()),
                None => self@.curve is None,
            },
    {
        self.curve
    }

    /// Sets or clears the north link. Nothing is asked of the target.
    pub fn set_north_link(&mut self, link: Option<RailId>)
        ensures
            final(self)@ == (RailView { north_link: link, ..old(self)@ }),
            old(self).wf() ==> final(self).wf(),
    {
        self.north_link = link;
    }

    /// Sets or clears the south link. Nothing is asked of the target.
    pub fn set_south_link(&mut self, link: Option<RailId>)
        ensures
            final(self)@ == (RailView { south_link: link, ..old(self)@ }),
            old(self).wf() ==> final(self).wf(),
    {
        self.south_link = link;
    }

    /// Attaches or detaches the curve.
    pub fn set_curve(&mut self, curve: Option<BakedCurve>)
        requires
            curve matches Some(c) ==> c.wf(),
        ensures
            final(self).wf(),
            final(self)@ == (RailView {
                curve: match curve {
                    Some(c) => Some(c@),
                    None => None,
                },
                ..old(self)@
            }),
    {
        self.curve = curve;
    }

    /// The length of the rail's curve, or 0 where it has none.
    pub fn length(&self) -> (r: i64)
        requires
            self.wf(),
        ensures
            r == self@.length(),
            0 <= r <= MAX_DISTANCE,
    {
        match self.curve {
            Some(curve) => curve.baked_length,
            None => 0,
        }
    }

    /// Tells whether the rail has a curve of at least two points.
    pub fn is_curve_valid(&self) -> (r: bool)
        ensures
            r == self@.curve_valid(),
    {
        match self.curve {
            Some(curve) => curve.point_count >= 2,
            None => false,
        }
    }

    /// Tells whether one of `neighbor`'s links names this rail.
    pub fn check_for_self_in_neighbor_link(&self, neighbor: &Rail2D) -> (r: bool)
        ensures
            r == neighbor@.links_to(self@.id),
    {
        names(neighbor.north_link, self.id) || names(neighbor.south_link, self.id)
    }

    /// Tells whether `link` is unset or names a rail of `network` that links
    /// back to this one.
    fn is_reciprocated(&self, network: &RailNetwork, link: Option<RailId>) -> (r: bool)
        requires
            network.wf(),
        ensures
            r == self@.reciprocated(network@, link),
    {
        match link {
            Some(neighbor_id) => match network.get_rail(neighbor_id) {
                Some(neighbor) => self.check_for_self_in_neighbor_link(neighbor),
                None => false,
            },
            None => true,
        }
    }

    /// Tells whether every link that is set is answered: the neighbour is in
    /// `network` and one of its links names this rail.
    pub fn is_mutually_connected(&self, network: &RailNetwork) -> (r: bool)
        requires
            network.wf(),
        ensures
            r == self@.mutually_connected(network@),
    {
        let north: bool = self.is_reciprocated(network, self.north_link);
        let south: bool = self.is_reciprocated(network, self.south_link);
        north && south
    }

    /// The messages that describe what is wrong with this rail: one where the
    /// curve cannot be sampled, then one where a link is not answered.
    pub fn get_configuration_warnings(&self, network: &RailNetwork) -> (r: Vec<String>)
        requires
            network.wf(),
        ensures
            have_texts(r@, self@.configuration_warnings(network@)),
    {
        let mut warnings: Vec<String> = Vec::new();
        if !self.is_curve_valid() {
            warnings.push("geometry invalid".to_owned());
        }
        if !self.is_mutually_connected(network) {
            warnings.push("links not mutually connected".to_owned());
        }
        warnings
    }
}

/// All the rails of a scene, each under its id. Ids are handed out in order
/// and never used twice, so a link to a rail that was removed stays dangling.
pub struct RailNetwork {
    slots: Vec<Option<Rail2D>>,
}

impl View for RailNetwork {
    type V = Map<RailId, RailView>;

    closed spec fn view(&self) -> Map<RailId, RailView> {
        Map::new(
            |id: RailId| id.0 < self.slots.len() && self.slots[id.0 as int] is Some,
            |id: RailId| self.slots[id.0 as int].unwrap()@,
        )
    }
}

impl RailNetwork {
    /// How many ids have been handed out so far.
    pub closed spec fn issued(&self) -> nat {
        self.slots.len() as nat
    }

    /// Each rail is well formed and stands under its own id.
    pub closed spec fn wf(&self) -> bool {
        forall|i: int|
            0 <= i < self.slots.len() ==> (#[trigger] self.slots[i] matches Some(rail) ==> rail.wf()
                && rail.id == RailId(i as usize))
    }

    /// In a well-formed network each rail carries the id it stands under, no
    /// id at or past `issued` is taken, and every curve has a length in
    /// `[0, MAX_DISTANCE]`.
    pub proof fn lemma_wf(&self)
        requires
            self.wf(),
        ensures
            forall|id: RailId| #[trigger]
                self@.contains_key(id) ==> self@[id].id == id && id.0 < self.issued() && 0
                    <= self@[id].length() <= MAX_DISTANCE,
    {
        assert forall|id: RailId| #[trigger] self@.contains_key(id) implies self@[id].id == id
            && id.0 < self.issued() && 0 <= self@[id].length() <= MAX_DISTANCE by {
            let rail = self.slots[id.0 as int].unwrap();
            assert(self.slots[id.0 as int] matches Some(r) && r == rail);
            rail.lemma_length_bounds();
        }
    }

    /// A network without rails.
    pub fn new() -> (r: RailNetwork)
        ensures
            r.wf(),
            r@ == Map::<RailId, RailView>::empty(),
            r.issued() == 0,
    {
        let r = RailNetwork { slots: Vec::new() };
        assert(r@ =~= Map::<RailId, RailView>::empty());
        r
    }

    /// Adds a rail without links and returns its id, which no rail has had
    /// before.
    pub fn add_rail(&mut self, curve: Option<BakedCurve>) -> (id: RailId)
        requires
            old(self).wf(),
            curve matches Some(c) ==> c.wf(),
        ensures
            final(self).wf(),
            id.0 == old(self).issued(),
            final(self).issued() == old(self).issued() + 1,
            !old(self)@.contains_key(id),
            final(self)@ == old(self)@.insert(
                id,
                RailView {
                    id,
                    north_link: None,
                    south_link: None,
                    curve: match curve {
                        Some(c) => Some(c@),
                        None => None,
                    },
                },
            ),
    {
        let id = RailId(self.slots.len());
        let mut rail = Rail2D::init(id);
        rail.set_curve(curve);
        self.slots.push(Some(rail));
        assert(final(self)@ =~= old(self)@.insert(id, rail@));
        id
    }

    /// Takes the rail `id` out of the network and returns it, if it was there.
    /// Links that name it are left as they are.
    pub fn remove_rail(&mut self, id: RailId) -> (r: Option<Rail2D>)
        requires
            old(self).wf(),
        ensures
            final(self).wf(),
            final(self).issued() == old(self).issued(),
            final(self)@ == old(self)@.remove(id),
            match r {
                Some(rail) => old(self)@.contains_key(id) && rail@ == old(self)@[id] && rail.wf(),
                None => !old(self)@.contains_key(id),
            },
    {
        if id.0 < self.slots.len() {
            let r = self.slots[id.0];
            self.slots[id.0] = None;
            assert(final(self)@ =~= old(self)@.remove(id));
            r
        } else {
            assert(final(self)@ =~= old(self)@.remove(id));
            None
        }
    }

    /// Tells whether the rail `id` is in the network.
    pub fn contains(&self, id: RailId) -> (r: bool)
        ensures
            r == self@.contains_key(id),
    {
        id.0 < self.slots.len() && self.slots[id.0].is_some()
    }

    /// The rail `id`, if it is in the network.
    pub fn get_rail(&self, id: RailId) -> (r: Option<&Rail2D>)
        requires
            self.wf(),
        ensures
            match r {
                Some(rail) => self@.contains_key(id) && rail@ == self@[id] && rail.wf(),
                None => !self@.contains_key(id),
            },
    {
        if id.0 < self.slots.len() {
            self.slots[id.0].as_ref()
        } else {
            None
        }
    }

    /// Puts `rail` in the place of the rail that stands under its id.
    fn replace(&mut self, rail: Rail2D)
        requires
            old(self).wf(),
            rail.wf(),
            old(self)@.contains_key(rail@.id),
        ensures
            final(self).wf(),
            final(self).issued() == old(self).issued(),
            final(self)@ == old(self)@.insert(rail@.id, rail@),
    {
        let index: usize = rail.id.0;
        self.slots[index] = Some(rail);
        assert(final(self)@ =~= old(self)@.insert(rail@.id, rail@));
    }

    /// Sets or clears the north link of the rail `id`. Whether the target
    /// exists or links back is not looked at. Returns whether `id` was found.
    pub fn set_north_link(&mut self, id: RailId, link: Option<RailId>) -> (found: bool)
        requires
            old(self).wf(),
        ensures
            final(self).wf(),
            final(self).issued() == old(self).issued(),
            found == old(self)@.contains_key(id),
            found ==> final(self)@ == old(self)@.insert(
                id,
                RailView { north_link: link, ..old(self)@[id] },
            ),
            !found ==> final(self)@ == old(self)@,
    {
        match self.get_rail(id) {
            Some(current) => {
                let mut rail: Rail2D = *current;
                rail.set_north_link(link);
                self.replace(rail);
                true
            },
            None => false,
        }
    }

    /// Sets or clears the south link of the rail `id`. Whether the target
    /// exists or links back is not looked at. Returns whether `id` was found.
    pub fn set_south_link(&mut self, id: RailId, link: Option<RailId>) -> (found: bool)
        requires
            old(self).wf(),
        ensures
            final(self).wf(),
            final(self).issued() == old(self).issued(),
            found == old(self)@.contains_key(id),
            found ==> final(self)@ == old(self)@.insert(
                id,
                RailView { south_link: link, ..old(self)@[id] },
            ),
            !found ==> final(self)@ == old(self)@,
    {
        match self.get_rail(id) {
            Some(current) => {
                let mut rail: Rail2D = *current;
                rail.set_south_link(link);
                self.replace(rail);
                true
            },
            None => false,
        }
    }

    /// Attaches a curve to the rail `id`, or detaches it. Returns whether `id`
    /// was found.
    pub fn set_curve(&mut self, id: RailId, curve: Option<BakedCurve>) -> (found: bool)
        requires
            old(self).wf(),
            curve matches Some(c) ==> c.wf(),
        ensures
            final(self).wf(),
            final(self).issued() == old(self).issued(),
            found == old(self)@.contains_key(id),
            found ==> final(self)@ == old(self)@.insert(
                id,
                RailView {
                    curve: match curve {
                        Some(c) => Some(c@),
                        None => None,
                    },
                    ..old(self)@[id]
                },
            ),
            !found ==> final(self)@ == old(self)@,
    {
        match self.get_rail(id) {
            Some(current) => {
                let mut rail: Rail2D = *current;
                rail.set_curve(curve);
                self.replace(rail);
                true
            },
            None => false,
        }
    }
}

} // verus!
