//! The partial counterpart of a cycle: an ordered list of half-edges under
//! construction, and the build step that links them into a closed loop.

use vstd::prelude::*;
use crate::math::Point2;
use crate::objects::{Curve, Cycle, HalfEdge, Surface, SurfaceVertex};
use crate::partial::objects::{
    check_curve, curve_err, curve_ok, curve_path_of, he_ge_ok, he_v_err, he_v_ok,
    merge_options, position_on_path, pv_wrt, resolved_path, resolved_surface,
    spec_he_with_surface, spec_merge_options, PartialHalfEdge, PartialVertex,
};
use crate::partial::{MaybePartial, PartialObject, ValidationError};
use crate::storage::{Handle, Objects};

verus! {

broadcast use crate::storage::lemma_spec_handle, crate::storage::lemma_spec_objects;

/// The curve of a maybe-partial half-edge, as far as it is known.
pub open spec fn he_curve(m: MaybePartial<HalfEdge>) -> MaybePartial<Curve> {
    match m {
        MaybePartial::Full(h) => MaybePartial::Full(h.value().curve),
        MaybePartial::Partial(p) => p.curve,
    }
}

/// The surface a sequence of half-edges is defined in: the surface of the
/// first half-edge's curve, as far as it is known.
pub open spec fn spec_cycle_surface(s: Seq<MaybePartial<HalfEdge>>) -> Option<Handle<Surface>> {
    if s.len() == 0 {
        None
    } else {
        resolved_surface(he_curve(s[0]))
    }
}

/// The given surface pushed into every half-edge of the sequence, where it
/// is still partial; `None` leaves the sequence unchanged.
pub open spec fn spec_apply_surface(
    s: Seq<MaybePartial<HalfEdge>>,
    surface: Option<Handle<Surface>>,
) -> Seq<MaybePartial<HalfEdge>> {
    match surface {
        None => s,
        Some(sf) => Seq::new(
            s.len(),
            |i: int|
                match s[i] {
                    MaybePartial::Full(h) => MaybePartial::Full(h),
                    MaybePartial::Partial(p) => MaybePartial::Partial(spec_he_with_surface(p, sf)),
                },
        ),
    }
}

/// The surface that merging the surfaces of the given half-edges onto `init`
/// yields: the first present value wins.
pub open spec fn spec_joined_surface(
    init: Option<Handle<Surface>>,
    s: Seq<MaybePartial<HalfEdge>>,
) -> Option<Handle<Surface>>
    decreases s.len(),
{
    if s.len() == 0 {
        init
    } else {
        spec_joined_surface(
            spec_merge_options(init, resolved_surface(he_curve(s[0]))),
            s.drop_first(),
        )
    }
}

/// Whether every half-edge in the sequence satisfies the machine-limit
/// preconditions of building.
pub open spec fn cycle_build_req(s: Seq<MaybePartial<HalfEdge>>) -> bool {
    forall|i: int|
        0 <= i < s.len() ==> (#[trigger] s[i] matches MaybePartial::Partial(p)
            ==> p.build_req())
}

/// Whether two consecutive half-edges of a built cycle share a surface
/// vertex by identity: the front vertex of the first resolves to the same
/// surface form as the back vertex of the second.
pub open spec fn edge_links(a: Handle<HalfEdge>, b: Handle<HalfEdge>) -> bool {
    a.value().vertices[1].value().surface_form.spec_id()
        == b.value().vertices[0].value().surface_form.spec_id()
}

/// A partial cycle.
#[derive(Debug)]
pub struct PartialCycle {
    half_edges: Vec<MaybePartial<HalfEdge>>,
}

impl PartialCycle {
    /// The half-edges collected so far, as a spec value.
    pub closed spec fn spec_half_edges(&self) -> Seq<MaybePartial<HalfEdge>> {
        self.half_edges@
    }

    /// Access the surface that the cycle is defined in, as far as it is
    /// known: the surface of the first half-edge's curve.
    pub fn surface(&self) -> (r: Option<Handle<Surface>>)
        ensures
            r == spec_cycle_surface(self.spec_half_edges()),
    {
        if self.half_edges.len() == 0 {
            None
        } else {
            let he = self.half_edges[0];
            he.curve().surface()
        }
    }

    /// Access the half-edges that make up the cycle.
    pub fn half_edges(&self) -> (r: &Vec<MaybePartial<HalfEdge>>)
        ensures
            r@ == self.spec_half_edges(),
    {
        &self.half_edges
    }

    /// Update the partial cycle with the given surface, pushing it into
    /// every half-edge that is still partial.
    pub fn with_surface(self, surface: Option<Handle<Surface>>) -> (r: Self)
        ensures
            r.spec_half_edges() == spec_apply_surface(self.spec_half_edges(), surface),
    {
        match surface {
            None => self,
            Some(sf) => {
                let mut out: Vec<MaybePartial<HalfEdge>> = Vec::new();
                let n = self.half_edges.len();
                let mut i: usize = 0;
                while i < n
                    invariant
                        n == self.half_edges.len(),
                        0 <= i <= n,
                        out@.len() == i,
                        forall|k: int|
                            0 <= k < i ==> out@[k] == spec_apply_surface(
                                self.spec_half_edges(),
                                Some(sf),
                            )[k],
                    decreases n - i,
                {
                    let he = self.half_edges[i];
                    let updated = match he {
                        MaybePartial::Full(h) => MaybePartial::Full(h),
                        MaybePartial::Partial(p) => MaybePartial::Partial(
                            p.with_surface(Some(sf)),
                        ),
                    };
                    out.push(updated);
                    i = i + 1;
                }
                proof {
                    assert(out@ =~= spec_apply_surface(self.spec_half_edges(), Some(sf)));
                }
                PartialCycle { half_edges: out }
            },
        }
    }

    /// Update the partial cycle with the given half-edges, appending them
    /// and spreading the first surface that any of them knows to all.
    pub fn with_half_edges(self, half_edges: Vec<MaybePartial<HalfEdge>>) -> (r: Self)
        ensures
            r.spec_half_edges() == spec_apply_surface(
                self.spec_half_edges() + half_edges@,
                spec_joined_surface(spec_cycle_surface(self.spec_half_edges()), half_edges@),
            ),
    {
        let mut surface = self.surface();
        let mut combined = self.half_edges;
        let n = half_edges.len();
        let ghost base = combined@;
        let mut i: usize = 0;
        while i < n
            invariant
                n == half_edges.len(),
                0 <= i <= n,
                combined@ == base + half_edges@.take(i as int),
                surface == spec_joined_surface(
                    spec_cycle_surface(base),
                    half_edges@.take(i as int),
                ),
            decreases n - i,
        {
            let he = half_edges[i];
            proof {
                assert(half_edges@.take(i + 1).drop_last() =~= half_edges@.take(i as int));
                assert(half_edges@.take(i + 1).last() == half_edges@[i as int]);
                lemma_joined_surface_step(
                    spec_cycle_surface(base),
                    half_edges@.take(i + 1),
                );
            }
            surface = merge_options(surface, he.curve().surface());
            combined.push(he);
            proof {
                assert(combined@ =~= base + half_edges@.take(i + 1));
            }
            i = i + 1;
        }
        proof {
            assert(half_edges@.take(n as int) =~= half_edges@);
        }
        let cycle = PartialCycle { half_edges: combined };
        cycle.with_surface(surface)
    }

    /// Merge this partial cycle with another.
    ///
    /// At most one side may carry half-edges: two independently collected
    /// half-edge lists cannot be reconciled, so that case violates the
    /// algebra's precondition.  The side that carries half-edges wins; two
    /// empty cycles merge into an empty cycle.
    pub fn merge_with(self, other: Self) -> (r: Self)
        requires
            self.spec_half_edges().len() == 0 || other.spec_half_edges().len() == 0,
        ensures
            self.spec_half_edges().len() > 0 ==> r.spec_half_edges() == self.spec_half_edges(),
            self.spec_half_edges().len() == 0 ==> r.spec_half_edges() == other.spec_half_edges(),
    {
        if self.half_edges.len() > 0 {
            self
        } else {
            other
        }
    }
}

/// Unfolding step for `spec_joined_surface` from the right.
proof fn lemma_joined_surface_step(init: Option<Handle<Surface>>, s: Seq<MaybePartial<HalfEdge>>)
    requires
        s.len() > 0,
    ensures
        spec_joined_surface(init, s) == spec_merge_options(
            spec_joined_surface(init, s.drop_last()),
            resolved_surface(he_curve(s.last())),
        ),
    decreases s.len(),
{
    if s.len() == 1 {
        assert(s.drop_first().len() == 0);
        assert(s.drop_last().len() == 0);
        assert(s[0] == s.last());
    } else {
        assert(s.drop_first().drop_last() =~= s.drop_last().drop_first());
        assert(s.drop_first().last() == s.last());
        assert(s.drop_last()[0] == s[0]);
        lemma_joined_surface_step(
            spec_merge_options(init, resolved_surface(he_curve(s[0]))),
            s.drop_first(),
        );
    }
}

impl Default for PartialCycle {
    /// An empty partial cycle.
    fn default() -> (r: Self)
        ensures
            r.spec_half_edges().len() == 0,
    {
        PartialCycle { half_edges: Vec::new() }
    }
}

} // verus!

verus! {

/// Upper bound on the identities one half-edge build can consume.
proof fn lemma_he_build_ids_bound(p: PartialHalfEdge)
    ensures
        p.build_ids() <= 15,
{
}

/// What the cycle build carries from one half-edge to the next: a
/// description of the previous front vertex's surface form.  The first
/// component is its identity when it is an already-existing handle, and
/// `None` when this very build creates it freshly; the second is its
/// surface position.
pub open spec fn seed_carried(last: MaybePartial<HalfEdge>) -> (Option<u64>, Point2) {
    match last {
        MaybePartial::Full(h) => (
            Some(h.value().vertices[1].value().surface_form.spec_id()),
            h.value().vertices[1].value().surface_form.value().position,
        ),
        MaybePartial::Partial(p) => match p.vertices[1] {
            MaybePartial::Full(v) => (
                Some(v.value().surface_form.spec_id()),
                v.value().surface_form.value().position,
            ),
            MaybePartial::Partial(pv) => match pv.surface_form {
                MaybePartial::Full(sv) => (Some(sv.spec_id()), sv.value().position),
                MaybePartial::Partial(psv) => (None, psv.position.unwrap()),
            },
        },
    }
}

/// Whether the linkage seed — the surface form of the last half-edge's
/// front vertex — can be resolved.
pub open spec fn seed_ok(last: MaybePartial<HalfEdge>) -> bool {
    match last {
        MaybePartial::Full(_) => true,
        MaybePartial::Partial(p) => match p.vertices[1] {
            MaybePartial::Full(_) => true,
            MaybePartial::Partial(pv) => match pv.surface_form {
                MaybePartial::Full(_) => true,
                MaybePartial::Partial(psv) => psv.build_ok(),
            },
        },
    }
}

/// The error that resolving the linkage seed reports when it cannot be
/// resolved.
pub open spec fn seed_err(last: MaybePartial<HalfEdge>) -> ValidationError {
    match last {
        MaybePartial::Full(_) => ValidationError::Mismatch,
        MaybePartial::Partial(p) => match p.vertices[1] {
            MaybePartial::Full(_) => ValidationError::Mismatch,
            MaybePartial::Partial(pv) => match pv.surface_form {
                MaybePartial::Full(_) => ValidationError::Mismatch,
                MaybePartial::Partial(psv) => psv.build_err(),
            },
        },
    }
}

/// Whether a still-partial vertex can be wired to the carried surface form:
/// it must have a position, and where the curve's path determines a surface
/// position, the carried one must agree with it.
pub open spec fn back_link_ok(pv: PartialVertex, c: MaybePartial<Curve>, cpos: Point2) -> bool {
    &&& pv.position is Some
    &&& (match pv_wrt(pv, c).expected_surface_pos() {
        Some(e) => cpos == e,
        None => true,
    })
}

/// The error that wiring a still-partial vertex to the carried surface form
/// reports when it cannot be wired.
pub open spec fn back_link_err(pv: PartialVertex) -> ValidationError {
    if pv.position is None {
        ValidationError::MissingPosition
    } else {
        ValidationError::Mismatch
    }
}

/// Whether one half-edge of the cycle builds, given the carried surface
/// form.  An already-resolved back vertex can only match a previously
/// existing surface form by identity; one that this very build would create
/// freshly is a mismatch.  The last half-edge's front vertex is wired to
/// the seed instead of being resolved on its own.
pub open spec fn step_ok(
    m: MaybePartial<HalfEdge>,
    c: (Option<u64>, Point2),
    is_last: bool,
    sc: (Option<u64>, Point2),
) -> bool {
    match m {
        MaybePartial::Full(h) => c.0 == Some(
            h.value().vertices[0].value().surface_form.spec_id(),
        ),
        MaybePartial::Partial(p) => {
            &&& curve_ok(p.curve)
            &&& (match p.vertices[0] {
                MaybePartial::Full(v) => c.0 == Some(v.value().surface_form.spec_id()),
                MaybePartial::Partial(pv) => back_link_ok(pv, p.curve, c.1),
            })
            &&& (if is_last {
                match p.vertices[1] {
                    MaybePartial::Full(_) => true,
                    MaybePartial::Partial(pv) => back_link_ok(pv, p.curve, sc.1),
                }
            } else {
                he_v_ok(p.vertices[1], p.curve)
            })
            &&& (p.global_form matches MaybePartial::Partial(pge) ==> he_ge_ok(pge))
        },
    }
}

/// The error that building one half-edge of the cycle reports when it
/// cannot be built, in the order the checks run: curve, back vertex, front
/// vertex, global form.
pub open spec fn step_err(
    m: MaybePartial<HalfEdge>,
    c: (Option<u64>, Point2),
    is_last: bool,
    sc: (Option<u64>, Point2),
) -> ValidationError {
    match m {
        MaybePartial::Full(_) => ValidationError::Mismatch,
        MaybePartial::Partial(p) => {
            if !curve_ok(p.curve) {
                curve_err(p.curve)
            } else if !(match p.vertices[0] {
                MaybePartial::Full(v) => c.0 == Some(v.value().surface_form.spec_id()),
                MaybePartial::Partial(pv) => back_link_ok(pv, p.curve, c.1),
            }) {
                match p.vertices[0] {
                    MaybePartial::Full(_) => ValidationError::Mismatch,
                    MaybePartial::Partial(pv) => back_link_err(pv),
                }
            } else if !(if is_last {
                match p.vertices[1] {
                    MaybePartial::Full(_) => true,
                    MaybePartial::Partial(pv) => back_link_ok(pv, p.curve, sc.1),
                }
            } else {
                he_v_ok(p.vertices[1], p.curve)
            }) {
                if is_last {
                    match p.vertices[1] {
                        MaybePartial::Full(_) => ValidationError::Mismatch,
                        MaybePartial::Partial(pv) => back_link_err(pv),
                    }
                } else {
                    he_v_err(p.vertices[1], p.curve)
                }
            } else {
                ValidationError::MissingPosition
            }
        },
    }
}

/// The carried surface form after one half-edge has been built: the last
/// half-edge hands the seed back, closing the loop; otherwise the front
/// vertex's surface form, freshly created when it was still partial.
pub open spec fn step_carried(
    m: MaybePartial<HalfEdge>,
    is_last: bool,
    sc: (Option<u64>, Point2),
) -> (Option<u64>, Point2) {
    if is_last {
        sc
    } else {
        match m {
            MaybePartial::Full(h) => (
                Some(h.value().vertices[1].value().surface_form.spec_id()),
                h.value().vertices[1].value().surface_form.value().position,
            ),
            MaybePartial::Partial(p) => match p.vertices[1] {
                MaybePartial::Full(v) => (
                    Some(v.value().surface_form.spec_id()),
                    v.value().surface_form.value().position,
                ),
                MaybePartial::Partial(pv) => match pv.surface_form {
                    MaybePartial::Full(sv) => (Some(sv.spec_id()), sv.value().position),
                    MaybePartial::Partial(psv) => (
                        None,
                        spec_merge_options(
                            psv.position,
                            pv_wrt(pv, p.curve).expected_surface_pos(),
                        ).unwrap(),
                    ),
                },
            },
        }
    }
}

/// Whether every half-edge from position `i` on builds, threading the
/// carried surface form.
pub open spec fn fold_ok(
    s: Seq<MaybePartial<HalfEdge>>,
    i: int,
    c: (Option<u64>, Point2),
    sc: (Option<u64>, Point2),
) -> bool
    decreases s.len() - i,
{
    if i < 0 || i >= s.len() {
        true
    } else {
        step_ok(s[i], c, i == s.len() - 1, sc) && fold_ok(
            s,
            i + 1,
            step_carried(s[i], i == s.len() - 1, sc),
            sc,
        )
    }
}

/// The error of the first half-edge from position `i` on that does not
/// build.
pub open spec fn fold_err(
    s: Seq<MaybePartial<HalfEdge>>,
    i: int,
    c: (Option<u64>, Point2),
    sc: (Option<u64>, Point2),
) -> ValidationError
    decreases s.len() - i,
{
    if i < 0 || i >= s.len() {
        ValidationError::Mismatch
    } else if !step_ok(s[i], c, i == s.len() - 1, sc) {
        step_err(s[i], c, i == s.len() - 1, sc)
    } else {
        fold_err(s, i + 1, step_carried(s[i], i == s.len() - 1, sc), sc)
    }
}

/// Whether building a cycle from the given half-edges succeeds: the
/// linkage seed resolves, and every half-edge builds with its back vertex
/// wired to the previous front vertex's surface form.
pub open spec fn cycle_build_ok(s: Seq<MaybePartial<HalfEdge>>) -> bool {
    &&& seed_ok(s[s.len() - 1])
    &&& fold_ok(s, 0, seed_carried(s[s.len() - 1]), seed_carried(s[s.len() - 1]))
}

/// The error that building a cycle from the given half-edges reports when
/// it fails: the seed's error, or the first failing half-edge's.
pub open spec fn cycle_build_err(s: Seq<MaybePartial<HalfEdge>>) -> ValidationError {
    if !seed_ok(s[s.len() - 1]) {
        seed_err(s[s.len() - 1])
    } else {
        fold_err(s, 0, seed_carried(s[s.len() - 1]), seed_carried(s[s.len() - 1]))
    }
}

/// How a built half-edge relates to the input it was built from: a full
/// input is taken over unchanged; for a partial input, the built half-edge
/// carries the input's resolved curve geometry, its already-resolved
/// vertices and global form by identity, and its vertices' curve positions.
pub open spec fn built_matches(input: MaybePartial<HalfEdge>, b: Handle<HalfEdge>) -> bool {
    match input {
        MaybePartial::Full(h) => b == h,
        MaybePartial::Partial(p) => {
            &&& b.value().curve.value().path == resolved_path(p.curve).unwrap()
            &&& b.value().curve.value().surface == resolved_surface(p.curve).unwrap()
            &&& (p.vertices[0] matches MaybePartial::Full(v) ==> b.value().vertices[0] == v)
            &&& (p.vertices[1] matches MaybePartial::Full(v) ==> b.value().vertices[1] == v)
            &&& (p.vertices[0] matches MaybePartial::Partial(pv) ==> (pv.position matches Some(t)
                ==> b.value().vertices[0].value().position == t))
            &&& (p.vertices[1] matches MaybePartial::Partial(pv) ==> (pv.position matches Some(t)
                ==> b.value().vertices[1].value().position == t))
            &&& (p.global_form matches MaybePartial::Full(g) ==> b.value().global_form == g)
        },
    }
}

} // verus!

verus! {

impl PartialCycle {
    /// Build a full cycle from the partial cycle.
    ///
    /// Linkage is seeded from the last half-edge's front vertex: its surface
    /// form is resolved first, and the fold then carries the previous front
    /// vertex along, wiring it into each half-edge's back vertex before that
    /// half-edge is built.  A back vertex that is already resolved must
    /// already carry the carried surface form by identity — in particular,
    /// it can never match one that this very build creates freshly — and a
    /// disagreement is reported as a validation error rather than silently
    /// producing an unclosed cycle.
    ///
    /// The build validates everything first and inserts only afterwards: it
    /// succeeds exactly when [`cycle_build_ok`] holds of the half-edge
    /// list, it fails with exactly [`cycle_build_err`], and a failed build
    /// leaves the store unmodified.  On success, consecutive half-edges of
    /// the returned cycle share a surface vertex by identity, wrapping
    /// around from the last to the first, and each built half-edge matches
    /// the input it was built from ([`built_matches`]).
    pub fn build(self, objects: &mut Objects) -> (r: Result<Handle<Cycle>, ValidationError>)
        requires
            self.spec_half_edges().len() > 0,
            cycle_build_req(self.spec_half_edges()),
            old(objects).id_count() + 16 * self.spec_half_edges().len() + 16 < u64::MAX,
        ensures
            r is Ok <==> cycle_build_ok(self.spec_half_edges()),
            r matches Err(e) ==> e == cycle_build_err(self.spec_half_edges()) && *final(objects)
                == *old(objects),
            r matches Ok(c) ==> {
                let built = c.value().spec_half_edges();
                let n = self.spec_half_edges().len() as int;
                &&& built.len() == n
                &&& (forall|i: int|
                    0 <= i < n ==> edge_links(
                        #[trigger] built[i],
                        built[
                            if i + 1 == n {
                                0int
                            } else {
                                i + 1
                            }
                        ],
                    ))
                &&& (forall|i: int|
                    0 <= i < n ==> built_matches(#[trigger] self.spec_half_edges()[i], built[i]))
            },
    {
        let ghost s = self.spec_half_edges();
        let n = self.half_edges.len();
        let last = self.half_edges[n - 1];
        let front = last.front();
        let sfm = front.surface_form();
        proof {
            assert(s[n - 1] matches MaybePartial::Partial(p) ==> p.build_req());
        }
        // Phase one: validate.  Nothing is inserted here, so a failure
        // leaves the store untouched.
        let seed_c: (Option<u64>, Point2) = match &sfm {
            MaybePartial::Full(h) => (Some(h.id()), h.get().position()),
            MaybePartial::Partial(psv) => {
                proof {
                    assert(psv.build_req());
                }
                match psv.check() {
                    Ok(_) => {},
                    Err(e) => {
                        proof {
                            assert(!seed_ok(s[n - 1]));
                            assert(e == seed_err(s[n - 1]));
                        }
                        return Err(e);
                    },
                }
                match psv.position {
                    Some(p) => (None, p),
                    None => {
                        proof {
                            assert(false);
                        }
                        return Err(ValidationError::MissingPosition);
                    },
                }
            },
        };
        proof {
            assert(seed_ok(s[n - 1]));
            assert(seed_c == seed_carried(s[n - 1]));
        }
        let ghost sc = seed_c;
        let mut carried: (Option<u64>, Point2) = seed_c;
        let mut i: usize = 0;
        while i < n
            invariant
                n == s.len(),
                n > 0,
                s == self.spec_half_edges(),
                cycle_build_req(s),
                0 <= i <= n,
                sc == seed_c,
                sc == seed_carried(s[n - 1]),
                seed_ok(s[n - 1]),
                fold_ok(s, 0, sc, sc) == fold_ok(s, i as int, carried, sc),
                fold_err(s, 0, sc, sc) == fold_err(s, i as int, carried, sc),
                *objects == *old(objects),
            decreases n - i,
        {
            let he0 = self.half_edges[i];
            let is_last = i + 1 == n;
            let ghost gi = i as int;
            proof {
                assert(s[gi] matches MaybePartial::Partial(p) ==> p.build_req());
            }
            match he0 {
                MaybePartial::Full(h) => {
                    let ok = match carried.0 {
                        Some(id) => h.get().back().get().surface_form().id() == id,
                        None => false,
                    };
                    if !ok {
                        proof {
                            assert(!step_ok(s[gi], carried, is_last, sc));
                        }
                        return Err(ValidationError::Mismatch);
                    }
                },
                MaybePartial::Partial(p) => {
                    match check_curve(&p.curve) {
                        Ok(_) => {},
                        Err(e) => {
                            proof {
                                assert(!step_ok(s[gi], carried, is_last, sc));
                                assert(e == step_err(s[gi], carried, is_last, sc));
                            }
                            return Err(e);
                        },
                    }
                    let vs = p.vertices();
                    match vs[0] {
                        MaybePartial::Full(v) => {
                            let ok = match carried.0 {
                                Some(id) => v.get().surface_form().id() == id,
                                None => false,
                            };
                            if !ok {
                                proof {
                                    assert(!step_ok(s[gi], carried, is_last, sc));
                                    assert(step_err(s[gi], carried, is_last, sc)
                                        == ValidationError::Mismatch);
                                }
                                return Err(ValidationError::Mismatch);
                            }
                        },
                        MaybePartial::Partial(pv) => {
                            proof {
                                assert(pv_wrt(pv, p.curve).build_req());
                            }
                            let t = match pv.position {
                                Some(t) => t,
                                None => {
                                    proof {
                                        assert(!back_link_ok(pv, p.curve, carried.1));
                                        assert(!step_ok(s[gi], carried, is_last, sc));
                                        assert(step_err(s[gi], carried, is_last, sc)
                                            == ValidationError::MissingPosition);
                                    }
                                    return Err(ValidationError::MissingPosition);
                                },
                            };
                            let expected = match curve_path_of(&p.curve) {
                                Some(path) => position_on_path(&path, t),
                                None => None,
                            };
                            proof {
                                assert(expected == pv_wrt(pv, p.curve).expected_surface_pos());
                            }
                            match expected {
                                Some(e) => {
                                    if !(carried.1 == e) {
                                        proof {
                                            assert(!back_link_ok(pv, p.curve, carried.1));
                                            assert(!step_ok(s[gi], carried, is_last, sc));
                                            assert(step_err(s[gi], carried, is_last, sc)
                                                == ValidationError::Mismatch);
                                        }
                                        return Err(ValidationError::Mismatch);
                                    }
                                },
                                None => {},
                            }
                        },
                    }
                    if is_last {
                        match vs[1] {
                            MaybePartial::Full(_) => {},
                            MaybePartial::Partial(pv) => {
                                proof {
                                    assert(pv_wrt(pv, p.curve).build_req());
                                }
                                let t = match pv.position {
                                    Some(t) => t,
                                    None => {
                                        proof {
                                            assert(!step_ok(s[gi], carried, is_last, sc));
                                            assert(step_err(s[gi], carried, is_last, sc)
                                                == ValidationError::MissingPosition);
                                        }
                                        return Err(ValidationError::MissingPosition);
                                    },
                                };
                                let expected = match curve_path_of(&p.curve) {
                                    Some(path) => position_on_path(&path, t),
                                    None => None,
                                };
                                proof {
                                    assert(expected == pv_wrt(
                                        pv,
                                        p.curve,
                                    ).expected_surface_pos());
                                }
                                match expected {
                                    Some(e) => {
                                        if !(seed_c.1 == e) {
                                            proof {
                                                assert(sc.1 != e);
                                                assert(pv_wrt(pv, p.curve).expected_surface_pos()
                                                    == Some(e));
                                                assert(!back_link_ok(pv, p.curve, sc.1));
                                                assert(!step_ok(s[gi], carried, is_last, sc));
                                                assert(step_err(s[gi], carried, is_last, sc)
                                                    == ValidationError::Mismatch);
                                            }
                                            return Err(ValidationError::Mismatch);
                                        }
                                    },
                                    None => {},
                                }
                            },
                        }
                    } else {
                        match vs[1] {
                            MaybePartial::Full(_) => {},
                            MaybePartial::Partial(pv) => {
                                let pvc = PartialVertex {
                                    position: pv.position,
                                    curve: p.curve,
                                    surface_form: pv.surface_form,
                                };
                                proof {
                                    assert(pvc == pv_wrt(pv, p.curve));
                                    assert(pvc.build_req());
                                }
                                match pvc.check() {
                                    Ok(_) => {},
                                    Err(e) => {
                                        proof {
                                            assert(!he_v_ok(p.vertices[1], p.curve));
                                            assert(!step_ok(s[gi], carried, is_last, sc));
                                            assert(e == he_v_err(p.vertices[1], p.curve));
                                            assert(e == step_err(s[gi], carried, is_last, sc));
                                        }
                                        return Err(e);
                                    },
                                }
                            },
                        }
                    }
                    match p.global_form {
                        MaybePartial::Partial(pge) => match pge.vertices {
                            Some(gvs) => {
                                match gvs[0] {
                                    MaybePartial::Partial(pgv) => {
                                        if pgv.position.is_none() {
                                            proof {
                                                assert(!step_ok(s[gi], carried, is_last, sc));
                                                assert(step_err(s[gi], carried, is_last, sc)
                                                    == ValidationError::MissingPosition);
                                            }
                                            return Err(ValidationError::MissingPosition);
                                        }
                                    },
                                    MaybePartial::Full(_) => {},
                                }
                                match gvs[1] {
                                    MaybePartial::Partial(pgv) => {
                                        if pgv.position.is_none() {
                                            proof {
                                                assert(!step_ok(s[gi], carried, is_last, sc));
                                                assert(step_err(s[gi], carried, is_last, sc)
                                                    == ValidationError::MissingPosition);
                                            }
                                            return Err(ValidationError::MissingPosition);
                                        }
                                    },
                                    MaybePartial::Full(_) => {},
                                }
                            },
                            None => {},
                        },
                        MaybePartial::Full(_) => {},
                    }
                },
            }
            proof {
                assert(step_ok(s[gi], carried, is_last, sc));
            }
            let next: (Option<u64>, Point2) = if is_last {
                seed_c
            } else {
                match he0 {
                    MaybePartial::Full(h) => {
                        let sf = *h.get().front().get().surface_form();
                        (Some(sf.id()), sf.get().position())
                    },
                    MaybePartial::Partial(p) => {
                        let vs = p.vertices();
                        match vs[1] {
                            MaybePartial::Full(v) => {
                                let sf = *v.get().surface_form();
                                (Some(sf.id()), sf.get().position())
                            },
                            MaybePartial::Partial(pv) => match pv.surface_form {
                                MaybePartial::Full(sv) => (Some(sv.id()), sv.get().position()),
                                MaybePartial::Partial(psv) => {
                                    let t = match pv.position {
                                        Some(t) => t,
                                        None => {
                                            proof {
                                                assert(false);
                                            }
                                            0
                                        },
                                    };
                                    proof {
                                        assert(pv_wrt(pv, p.curve).build_req());
                                    }
                                    let expected = match curve_path_of(&p.curve) {
                                        Some(path) => position_on_path(&path, t),
                                        None => None,
                                    };
                                    proof {
                                        assert(expected == pv_wrt(
                                            pv,
                                            p.curve,
                                        ).expected_surface_pos());
                                    }
                                    match merge_options(psv.position, expected) {
                                        Some(fp) => (None, fp),
                                        None => {
                                            proof {
                                                assert(false);
                                            }
                                            (None, Point2 { u: 0, v: 0 })
                                        },
                                    }
                                },
                            },
                        }
                    },
                }
            };
            proof {
                assert(next == step_carried(s[gi], is_last, sc));
            }
            carried = next;
            i = i + 1;
        }
        proof {
            assert(fold_ok(s, n as int, carried, sc));
            assert(cycle_build_ok(s));
        }
        // Phase two: commit.  Every step below is known to succeed.
        let seed = match sfm.into_full(objects) {
            Ok(h) => h,
            Err(e) => {
                proof {
                    assert(false);
                }
                return Err(e);
            },
        };
        proof {
            assert(seed.value().position == sc.1);
            assert(sc.0 matches Some(id) ==> seed.spec_id() == id);
            assert(seed_of(s[n - 1], seed));
        }
        let mut built: Vec<Handle<HalfEdge>> = Vec::new();
        let mut prev: Handle<SurfaceVertex> = seed;
        let ghost mut gc = sc;
        let mut i: usize = 0;
        while i < n
            invariant
                n == s.len(),
                n > 0,
                s == self.spec_half_edges(),
                cycle_build_req(s),
                0 <= i <= n,
                built@.len() == i,
                objects.id_count() >= old(objects).id_count(),
                objects.id_count() + 16 * (n - i) < u64::MAX,
                sc == seed_carried(s[n - 1]),
                fold_ok(s, i as int, gc, sc),
                prev.value().position == gc.1,
                gc.0 matches Some(id) ==> prev.spec_id() == id,
                seed.value().position == sc.1,
                sc.0 matches Some(id) ==> seed.spec_id() == id,
                forall|k: int| 0 <= k < i - 1 ==> edge_links(#[trigger] built@[k], built@[k + 1]),
                i > 0 ==> built@[0].value().vertices[0].value().surface_form.spec_id()
                    == seed.spec_id(),
                i > 0 ==> prev == built@[i - 1].value().vertices[1].value().surface_form,
                i == 0 ==> prev == seed,
                i == n ==> built@[i - 1].value().vertices[1].value().surface_form == seed,
                forall|k: int| 0 <= k < i ==> built_matches(#[trigger] s[k], built@[k]),
                seed_of(s[n - 1], seed),
            decreases n - i,
        {
            let he0 = self.half_edges[i];
            let is_last = i + 1 == n;
            let ghost gi = i as int;
            proof {
                assert(s[gi] matches MaybePartial::Partial(p) ==> p.build_req());
                assert(step_ok(s[gi], gc, is_last, sc));
            }
            let he = if is_last {
                match he0 {
                    MaybePartial::Full(h) => MaybePartial::Full(h),
                    MaybePartial::Partial(p) => {
                        let vs = p.vertices();
                        let front2 = match vs[1] {
                            MaybePartial::Full(v) => MaybePartial::Full(v),
                            MaybePartial::Partial(pv) => MaybePartial::Partial(
                                pv.with_surface_form(Some(MaybePartial::Full(seed))),
                            ),
                        };
                        MaybePartial::Partial(p.with_front_vertex(Some(front2)))
                    },
                }
            } else {
                he0
            };
            let linked = match he {
                MaybePartial::Full(h) => {
                    if !(h.get().back().get().surface_form().id() == prev.id()) {
                        proof {
                            assert(false);
                        }
                        return Err(ValidationError::Mismatch);
                    }
                    MaybePartial::Full(h)
                },
                MaybePartial::Partial(p) => {
                    let vs = p.vertices();
                    let back2 = match vs[0] {
                        MaybePartial::Full(v) => {
                            if !(v.get().surface_form().id() == prev.id()) {
                                proof {
                                    assert(false);
                                }
                                return Err(ValidationError::Mismatch);
                            }
                            MaybePartial::Full(v)
                        },
                        MaybePartial::Partial(pv) => MaybePartial::Partial(
                            pv.with_surface_form(Some(MaybePartial::Full(prev))),
                        ),
                    };
                    MaybePartial::Partial(p.with_back_vertex(Some(back2)))
                },
            };
            let built_h = match linked {
                MaybePartial::Full(h) => h,
                MaybePartial::Partial(p2) => {
                    proof {
                        assert(p2.build_req());
                        assert(he_v_ok(p2.vertices[0], p2.curve));
                        assert(he_v_ok(p2.vertices[1], p2.curve));
                        assert(p2.build_ok());
                        lemma_he_build_ids_bound(p2);
                    }
                    match MaybePartial::Partial(p2).into_full(objects) {
                        Ok(h) => h,
                        Err(e) => {
                            proof {
                                assert(false);
                            }
                            return Err(e);
                        },
                    }
                },
            };
            proof {
                assert(built_h.value().vertices[0].value().surface_form.spec_id()
                    == prev.spec_id());
                if is_last {
                    assert(built_h.value().vertices[1].value().surface_form == seed);
                }
                assert(built_matches(s[gi], built_h));
            }
            let newprev = *built_h.get().front().get().surface_form();
            proof {
                gc = step_carried(s[gi], is_last, sc);
                assert(newprev.value().position == gc.1);
                assert(gc.0 matches Some(id) ==> newprev.spec_id() == id);
            }
            built.push(built_h);
            prev = newprev;
            i = i + 1;
        }
        let cycle = Cycle::new(built);
        let ch = objects.insert(cycle);
        proof {
            let bs = ch.value().spec_half_edges();
            assert forall|k: int|
                0 <= k < n implies edge_links(
                #[trigger] bs[k],
                bs[
                    if k + 1 == n {
                        0int
                    } else {
                        k + 1
                    }
                ],
            ) by {
                if k + 1 == n {
                    assert(bs[k].value().vertices[1].value().surface_form == seed);
                    assert(bs[0].value().vertices[0].value().surface_form.spec_id()
                        == seed.spec_id());
                }
            }
        }
        Ok(ch)
    }
}

/// How the seed handle relates to the last half-edge it was resolved from:
/// it is the surface form that the last half-edge's front vertex resolves
/// to.
pub open spec fn seed_of(last: MaybePartial<HalfEdge>, seed: Handle<SurfaceVertex>) -> bool {
    match last {
        MaybePartial::Full(h) => seed == h.value().vertices[1].value().surface_form,
        MaybePartial::Partial(p) => match p.vertices[1] {
            MaybePartial::Full(v) => seed == v.value().surface_form,
            MaybePartial::Partial(pv) => match pv.surface_form {
                MaybePartial::Full(sv) => seed == sv,
                MaybePartial::Partial(_) => true,
            },
        },
    }
}

} // verus!
