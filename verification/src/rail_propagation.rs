//! The rail propagation engine: the recursive walk over the celestial
//! parent/child tree that advances every on-rails body analytically and
//! shifts the velocity of physics-simulated descendants whose rail
//! ancestors' trajectories changed shape this tick.
//!
//! The walk is a pure function from the tree before the tick to the tree
//! after it.  A node's behaviour this tick is a [`TickMotion`]: `Idle` nodes
//! (rail-eligible bodies with no rail yet) are left untouched and their
//! subtrees are not descended into; `Rail` nodes carry their relative state
//! vectors at the previous and the current tick — computed here for surface
//! attachments, and by the external orbital-mechanics library for orbit
//! descriptions — and are re-based on their parent's fresh root state;
//! `Physics` nodes (loaded vessels owned by the physics backend) keep their
//! position but receive the velocity correction accumulated along their rail
//! ancestors, the sum of each ancestor's change in relative velocity since
//! the previous tick.

use vstd::prelude::*;

use crate::frames::{
    spec_vec_add, spec_vec_sub, vec_add, vec_sub, vec_within, RootSpaceLinearVelocity,
    RootSpacePosition, Vec2Fx,
};
use crate::rails::{
    evaluate_surface, spec_surface_relative_sv, RailMode, RelativeStateVectors, SurfaceAttachment,
};

verus! {

/// Largest magnitude of a relative-state-vector component accepted by the
/// walk (about `2^31` meters); bounds the growth of root positions down the
/// tree.
pub const REL_SV_MAX: i64 = 0x80_0000_0000_0000;

/// Largest magnitude of a physics-owned node's velocity components.
pub const NODE_VEL_MAX: i64 = 0x1000_0000_0000_0000;

/// Budget from which each tree level draws `REL_SV_MAX` (twice for the
/// accumulated shift): `2^61`.
pub const COORD_BUDGET: i64 = 0x2000_0000_0000_0000;

/// Deepest tree the walk accepts.
pub const MAX_TREE_HEIGHT: u64 = 32;

/// How a node moves during the current tick.
#[derive(Clone, Copy, Debug, PartialEq, Eq, Structural)]
pub enum TickMotion {
    /// A rail-eligible body whose rail mode is still unclassified: left
    /// untouched, and its subtree is not visited.
    Idle,
    /// An on-rails body, with its state relative to its parent at the
    /// previous tick and at the current tick.
    Rail { old_rel: RelativeStateVectors, new_rel: RelativeStateVectors },
    /// A loaded, physics-simulated vessel: its position is owned by the
    /// physics backend this tick, and its velocity receives the accumulated
    /// shift.
    Physics,
}

/// A node of the celestial tree as seen by one tick of the walk.
pub struct RailNode {
    pub motion: TickMotion,
    pub pos: RootSpacePosition,
    pub vel: RootSpaceLinearVelocity,
    pub children: Vec<RailNode>,
}

/// The tick motion of a body, given its persistent rail mode, whether it is
/// physics-loaded, and — for orbit rails — the externally evaluated relative
/// state vectors at the previous and current tick.
pub open spec fn spec_tick_motion(
    rail: RailMode,
    loaded: bool,
    orbit_old: RelativeStateVectors,
    orbit_new: RelativeStateVectors,
) -> TickMotion {
    match rail {
        RailMode::NoRail => if loaded {
            TickMotion::Physics
        } else {
            TickMotion::Idle
        },
        RailMode::Orbit(_) => TickMotion::Rail { old_rel: orbit_old, new_rel: orbit_new },
        RailMode::Surface(a) => TickMotion::Rail {
            old_rel: spec_surface_relative_sv(a),
            new_rel: spec_surface_relative_sv(a),
        },
    }
}

/// Converts a rail mode into this tick's motion.  A surface attachment is
/// evaluated here (it is static relative to its parent, so both samples
/// coincide and its relative velocity is zero); an orbit rail takes the two
/// samples `orbit_old` and `orbit_new` that the caller evaluated from the
/// orbit description at the previous and the current tick; a body without a
/// rail is physics-owned if loaded and idle otherwise.
pub fn convert_rail_to_relative_sv(
    rail: &RailMode,
    loaded: bool,
    orbit_old: RelativeStateVectors,
    orbit_new: RelativeStateVectors,
) -> (r: TickMotion)
    requires
        (spec_as_attachment_radius(*rail) >= 0),
    ensures
        r == spec_tick_motion(*rail, loaded, orbit_old, orbit_new),
{
    match rail {
        RailMode::NoRail => if loaded {
            TickMotion::Physics
        } else {
            TickMotion::Idle
        },
        RailMode::Orbit(_) => TickMotion::Rail { old_rel: orbit_old, new_rel: orbit_new },
        RailMode::Surface(a) => {
            let rel = evaluate_surface(*a);
            TickMotion::Rail { old_rel: rel, new_rel: rel }
        },
    }
}

/// The radius of a surface attachment, or zero for the other variants; used
/// to state the nonnegative-radius requirement uniformly.
pub open spec fn spec_as_attachment_radius(rail: RailMode) -> int {
    match rail {
        RailMode::Surface(a) => a.radius as int,
        _ => 0,
    }
}

/// Deep structural equality of two trees.
pub open spec fn tree_eq(a: RailNode, b: RailNode) -> bool
    decreases a,
{
    &&& b.motion == a.motion
    &&& b.pos == a.pos
    &&& b.vel == a.vel
    &&& b.children@.len() == a.children@.len()
    &&& forall|j: int|
        0 <= j < a.children@.len() ==> tree_eq(#[trigger] a.children@[j], b.children@[j])
}

/// The height of a tree (a leaf has height one).
pub open spec fn height(n: RailNode) -> nat
    decreases n, 1int,
{
    1 + children_height(n.children@, 0)
}

/// The greatest height among the nodes of `s` from index `i` on.
pub open spec fn children_height(s: Seq<RailNode>, i: int) -> nat
    decreases s, s.len() - i, 0int,
{
    if i < 0 || i >= s.len() {
        0
    } else {
        let h = height(s[i]);
        let rest = children_height(s, i + 1);
        if h >= rest {
            h
        } else {
            rest
        }
    }
}

/// Every child is strictly lower than its parent.
pub proof fn lemma_child_height(s: Seq<RailNode>, i: int, j: int)
    requires
        0 <= i <= j < s.len(),
    ensures
        height(s[j]) <= children_height(s, i),
    decreases j - i,
{
    if i < j {
        lemma_child_height(s, i + 1, j);
    }
}

/// Well-formedness of a tree for one tick of the walk: every rail node's
/// relative state vectors and every physics node's velocity are bounded.
pub open spec fn node_bounded(n: RailNode) -> bool
    decreases n,
{
    &&& match n.motion {
        TickMotion::Idle => true,
        TickMotion::Rail { old_rel, new_rel } => {
            &&& vec_within(old_rel.position, REL_SV_MAX as int)
            &&& vec_within(old_rel.velocity, REL_SV_MAX as int)
            &&& vec_within(new_rel.position, REL_SV_MAX as int)
            &&& vec_within(new_rel.velocity, REL_SV_MAX as int)
        },
        TickMotion::Physics => vec_within(n.vel.0, NODE_VEL_MAX as int),
    }
    &&& forall|j: int|
        0 <= j < n.children@.len() ==> node_bounded(#[trigger] n.children@[j])
}

/// The root-state headroom consumed by `h` levels of relative offsets.
pub open spec fn lvl(h: nat) -> int {
    h * (REL_SV_MAX as int)
}

/// The walk's arithmetic budget: the parent state and the accumulated shift
/// leave enough headroom for `h` further levels of relative offsets.
pub open spec fn budget_ok(pp: Vec2Fx, pv: Vec2Fx, shift: Vec2Fx, h: nat) -> bool {
    &&& vec_within(pp, COORD_BUDGET - lvl(h))
    &&& vec_within(pv, COORD_BUDGET - lvl(h))
    &&& vec_within(shift, COORD_BUDGET - 2 * lvl(h))
}

/// Monotonicity and one-step unfolding of the headroom consumption.
proof fn lemma_lvl(h: nat, hc: nat)
    requires
        hc <= h,
    ensures
        0 <= lvl(hc) <= lvl(h),
        h >= 1 ==> lvl(h) == lvl((h - 1) as nat) + REL_SV_MAX,
{
    assert(0 <= hc * (REL_SV_MAX as int) <= h * (REL_SV_MAX as int)) by (nonlinear_arith)
        requires
            hc <= h,
            REL_SV_MAX >= 1,
    ;
    if h >= 1 {
        assert(h * (REL_SV_MAX as int) == (h - 1) * (REL_SV_MAX as int) + REL_SV_MAX)
            by (nonlinear_arith);
    }
}

/// The correctness relation of the walk: `output` is `input` propagated under
/// the given parent root state and accumulated velocity shift.
///
/// An idle node is untouched; a physics node keeps its position and subtree
/// and has the accumulated shift added to its velocity; a rail node takes
/// root state `parent + new_rel`, and its children are propagated under that
/// fresh state with the shift grown by this node's change in relative
/// velocity since the previous tick.
pub open spec fn propagated(
    input: RailNode,
    pp: Vec2Fx,
    pv: Vec2Fx,
    shift: Vec2Fx,
    output: RailNode,
) -> bool
    decreases input,
{
    match input.motion {
        TickMotion::Idle => tree_eq(input, output),
        TickMotion::Physics => {
            &&& output.motion == input.motion
            &&& output.pos == input.pos
            &&& output.vel.0 == spec_vec_add(input.vel.0, shift)
            &&& output.children@.len() == input.children@.len()
            &&& forall|j: int|
                0 <= j < input.children@.len() ==> tree_eq(
                    #[trigger] input.children@[j],
                    output.children@[j],
                )
        },
        TickMotion::Rail { old_rel, new_rel } => {
            let new_pos = spec_vec_add(pp, new_rel.position);
            let new_vel = spec_vec_add(pv, new_rel.velocity);
            let child_shift = spec_vec_add(
                shift,
                spec_vec_sub(new_rel.velocity, old_rel.velocity),
            );
            &&& output.motion == input.motion
            &&& output.pos.0 == new_pos
            &&& output.vel.0 == new_vel
            &&& output.children@.len() == input.children@.len()
            &&& forall|j: int|
                0 <= j < input.children@.len() ==> propagated(
                    #[trigger] input.children@[j],
                    new_pos,
                    new_vel,
                    child_shift,
                    output.children@[j],
                )
        },
    }
}

/// Rebuilds a tree unchanged.
fn copy_tree(n: &RailNode) -> (r: RailNode)
    ensures
        tree_eq(*n, r),
    decreases *n,
{
    let mut out_children: Vec<RailNode> = Vec::new();
    let mut i: usize = 0;
    let len = n.children.len();
    while i < len
        invariant
            len == n.children@.len(),
            i <= len,
            out_children@.len() == i,
            forall|j: int|
                0 <= j < i ==> tree_eq(#[trigger] n.children@[j], out_children@[j]),
        decreases len - i,
    {
        let c = copy_tree(&n.children[i]);
        out_children.push(c);
        i = i + 1;
    }
    RailNode { motion: n.motion, pos: n.pos, vel: n.vel, children: out_children }
}

/// One step of the walk: propagates `node` under the given parent root state
/// and accumulated velocity shift, returning the node as it stands after the
/// tick.
pub fn propagate(node: &RailNode, parent_pos: Vec2Fx, parent_vel: Vec2Fx, accum_shift: Vec2Fx) -> (r:
    RailNode)
    requires
        node_bounded(*node),
        height(*node) <= MAX_TREE_HEIGHT,
        budget_ok(parent_pos, parent_vel, accum_shift, height(*node)),
    ensures
        propagated(*node, parent_pos, parent_vel, accum_shift, r),
    decreases *node,
{
    match node.motion {
        TickMotion::Idle => copy_tree(node),
        TickMotion::Physics => {
            proof {
                lemma_lvl(height(*node), 0);
            }
            let new_vel = vec_add(node.vel.0, accum_shift);
            let mut out_children: Vec<RailNode> = Vec::new();
            let mut i: usize = 0;
            let len = node.children.len();
            while i < len
                invariant
                    len == node.children@.len(),
                    i <= len,
                    out_children@.len() == i,
                    forall|j: int|
                        0 <= j < i ==> tree_eq(#[trigger] node.children@[j], out_children@[j]),
                decreases len - i,
            {
                let c = copy_tree(&node.children[i]);
                out_children.push(c);
                i = i + 1;
            }
            RailNode {
                motion: node.motion,
                pos: node.pos,
                vel: RootSpaceLinearVelocity(new_vel),
                children: out_children,
            }
        },
        TickMotion::Rail { old_rel, new_rel } => {
            proof {
                lemma_lvl(height(*node), (height(*node) - 1) as nat);
            }
            let new_pos = vec_add(parent_pos, new_rel.position);
            let new_vel = vec_add(parent_vel, new_rel.velocity);
            let delta = vec_sub(new_rel.velocity, old_rel.velocity);
            let child_shift = vec_add(accum_shift, delta);
            let mut out_children: Vec<RailNode> = Vec::new();
            let mut i: usize = 0;
            let len = node.children.len();
            while i < len
                invariant
                    len == node.children@.len(),
                    i <= len,
                    out_children@.len() == i,
                    node_bounded(*node),
                    height(*node) <= MAX_TREE_HEIGHT,
                    node.motion == (TickMotion::Rail { old_rel, new_rel }),
                    budget_ok(parent_pos, parent_vel, accum_shift, height(*node)),
                    new_pos == spec_vec_add(parent_pos, new_rel.position),
                    new_vel == spec_vec_add(parent_vel, new_rel.velocity),
                    child_shift == spec_vec_add(
                        accum_shift,
                        spec_vec_sub(new_rel.velocity, old_rel.velocity),
                    ),
                    forall|j: int|
                        0 <= j < i ==> propagated(
                            #[trigger] node.children@[j],
                            new_pos,
                            new_vel,
                            child_shift,
                            out_children@[j],
                        ),
                decreases len - i,
            {
                proof {
                    lemma_child_height(node.children@, 0, i as int);
                    lemma_lvl(height(*node), (height(*node) - 1) as nat);
                    lemma_lvl(
                        (height(*node) - 1) as nat,
                        height(node.children@[i as int]),
                    );
                }
                let c = propagate(&node.children[i], new_pos, new_vel, child_shift);
                out_children.push(c);
                i = i + 1;
            }
            RailNode {
                motion: node.motion,
                pos: RootSpacePosition(new_pos),
                vel: RootSpaceLinearVelocity(new_vel),
                children: out_children,
            }
        },
    }
}

/// The correctness relation of the forest driver: a tree root is never
/// itself rail-evaluated; its state is untouched and each of its children is
/// propagated from a zero parent state vector with a zero accumulated shift.
pub open spec fn root_propagated(root: RailNode, output: RailNode) -> bool {
    let zero = Vec2Fx { x: 0, y: 0 };
    &&& output.motion == root.motion
    &&& output.pos == root.pos
    &&& output.vel == root.vel
    &&& output.children@.len() == root.children@.len()
    &&& forall|j: int|
        0 <= j < root.children@.len() ==> propagated(
            #[trigger] root.children@[j],
            zero,
            zero,
            zero,
            output.children@[j],
        )
}

/// Advances a whole forest by one tick: every tree root's children are
/// propagated with a zero parent state vector and a zero accumulated shift.
pub fn write_rail_to_sv(roots: &Vec<RailNode>) -> (r: Vec<RailNode>)
    requires
        forall|i: int|
            0 <= i < roots@.len() ==> node_bounded(#[trigger] roots@[i]) && height(roots@[i])
                <= MAX_TREE_HEIGHT,
    ensures
        r@.len() == roots@.len(),
        forall|i: int| 0 <= i < roots@.len() ==> root_propagated(roots@[i], #[trigger] r@[i]),
{
    let zero = Vec2Fx { x: 0, y: 0 };
    let mut out: Vec<RailNode> = Vec::new();
    let n = roots.len();
    let mut i: usize = 0;
    while i < n
        invariant
            n == roots@.len(),
            i <= n,
            out@.len() == i,
            zero == (Vec2Fx { x: 0, y: 0 }),
            forall|k: int|
                0 <= k < roots@.len() ==> node_bounded(#[trigger] roots@[k]) && height(roots@[k])
                    <= MAX_TREE_HEIGHT,
            forall|k: int| 0 <= k < i ==> root_propagated(roots@[k], #[trigger] out@[k]),
        decreases n - i,
    {
        let mut out_children: Vec<RailNode> = Vec::new();
        let clen = roots[i].children.len();
        let mut j: usize = 0;
        while j < clen
            invariant
                0 <= i < roots@.len(),
                node_bounded(roots@[i as int]),
                height(roots@[i as int]) <= MAX_TREE_HEIGHT,
                clen == roots@[i as int].children@.len(),
                j <= clen,
                out_children@.len() == j,
                zero == (Vec2Fx { x: 0, y: 0 }),
                forall|k: int|
                    0 <= k < j ==> propagated(
                        #[trigger] roots@[i as int].children@[k],
                        Vec2Fx { x: 0, y: 0 },
                        Vec2Fx { x: 0, y: 0 },
                        Vec2Fx { x: 0, y: 0 },
                        out_children@[k],
                    ),
            decreases clen - j,
        {
            proof {
                let ghost child = roots@[i as int].children@[j as int];
                lemma_child_height(roots@[i as int].children@, 0, j as int);
                assert(height(roots@[i as int]) == 1 + children_height(
                    roots@[i as int].children@,
                    0,
                ));
                lemma_lvl(32nat, height(child));
                assert(32nat * (REL_SV_MAX as int) == 0x1000_0000_0000_0000) by (nonlinear_arith)
                    requires
                        REL_SV_MAX == 0x80_0000_0000_0000,
                ;
                assert(node_bounded(child));
            }
            let c = propagate(&roots[i].children[j], zero, zero, zero);
            out_children.push(c);
            j = j + 1;
        }
        let new_root = RailNode {
            motion: roots[i].motion,
            pos: roots[i].pos,
            vel: roots[i].vel,
            children: out_children,
        };
        out.push(new_root);
        i = i + 1;
    }
    out
}

/// The state of one loaded vessel as seen by the classification pass.
#[derive(Clone, Copy, Debug, PartialEq, Eq, Structural)]
pub struct VesselData {
    pub pos: RootSpacePosition,
    pub vel: RootSpaceLinearVelocity,
    pub rail_mode: RailMode,
    /// Index of the parent celestial body, if it exists.
    pub parent: Option<usize>,
    /// Whether the physics backend reports an active contact between the
    /// vessel and its parent.
    pub contact: bool,
}

/// The state of a candidate parent body for classification.
#[derive(Clone, Copy, Debug, PartialEq, Eq, Structural)]
pub struct ParentData {
    pub pos: RootSpacePosition,
    pub vel: RootSpaceLinearVelocity,
    /// The parent's mass in whole kilograms.
    pub mass: u64,
}

/// The classification image of one vessel: a vessel not yet on a rail and
/// with a valid parent has its rail mode become
/// [`crate::rails::spec_classify`] of its state relative to that parent at
/// the given time; anything else is left unchanged.
pub open spec fn spec_write_sv_to_rail_vessel(
    v: VesselData,
    parents: Seq<ParentData>,
    time: i64,
) -> VesselData {
    match v.parent {
        Some(pi) => if v.rail_mode == RailMode::NoRail && pi < parents.len() {
            let p = parents[pi as int];
            let rel_pos = spec_vec_sub(v.pos.0, p.pos.0);
            let rel_vel = spec_vec_sub(v.vel.0, p.vel.0);
            let mu = ((p.mass * crate::gravity::GRAV_G_NUM) / (
            crate::gravity::GRAV_G_DEN as int)) as u64;
            VesselData {
                rail_mode: crate::rails::spec_classify(rel_pos, rel_vel, mu, v.contact, time),
                ..v
            }
        } else {
            v
        },
        None => v,
    }
}

/// Magnitude bounds under which the classification pass operates.
pub open spec fn classify_inputs_ok(vessels: Seq<VesselData>, parents: Seq<ParentData>) -> bool {
    &&& forall|i: int|
        0 <= i < vessels.len() ==> vec_within(
            (#[trigger] vessels[i]).pos.0,
            0x2000_0000_0000_0000,
        ) && vec_within(vessels[i].vel.0, 0x2000_0000_0000_0000)
    &&& forall|i: int|
        0 <= i < parents.len() ==> vec_within(
            (#[trigger] parents[i]).pos.0,
            0x2000_0000_0000_0000,
        ) && vec_within(parents[i].vel.0, 0x2000_0000_0000_0000)
}

/// Classification pass, run once per tick before the propagation: every
/// loaded vessel handed in (the caller selects the loaded, non-active ones)
/// that has a celestial parent and is not yet on a rail has its state
/// vectors written onto one — a surface attachment if it is in contact with
/// its parent, an orbit description fitted at the given elapsed time
/// otherwise — so that the next tick's propagation has a rail to evaluate.
pub fn write_sv_to_rail(
    vessels: &mut Vec<VesselData>,
    parents: &Vec<ParentData>,
    time: i64,
)
    requires
        classify_inputs_ok(old(vessels)@, parents@),
    ensures
        final(vessels)@.len() == old(vessels)@.len(),
        forall|i: int|
            0 <= i < final(vessels)@.len() ==> final(vessels)@[i] == spec_write_sv_to_rail_vessel(
                #[trigger] old(vessels)@[i],
                parents@,
                time,
            ),
{
    let n = vessels.len();
    let mut i: usize = 0;
    while i < n
        invariant
            n == vessels@.len(),
            vessels@.len() == old(vessels)@.len(),
            i <= n,
            classify_inputs_ok(old(vessels)@, parents@),
            forall|j: int|
                0 <= j < i ==> vessels@[j] == spec_write_sv_to_rail_vessel(
                    #[trigger] old(vessels)@[j],
                    parents@,
                    time,
                ),
            forall|j: int| i <= j < n ==> vessels@[j] == old(vessels)@[j],
        decreases n - i,
    {
        let v = vessels[i];
        let nv = match v.parent {
            Some(pi) => if v.rail_mode.is_none() && pi < parents.len() {
                let p = parents[pi];
                let rel_pos = vec_sub(v.pos.0, p.pos.0);
                let rel_vel = vec_sub(v.vel.0, p.vel.0);
                let mu = crate::gravity::mu_of_mass(p.mass);
                let mode = crate::rails::classify(rel_pos, rel_vel, mu, v.contact, time);
                VesselData { rail_mode: mode, ..v }
            } else {
                v
            },
            None => v,
        };
        vessels.set(i, nv);
        i = i + 1;
    }
}

/// Shift conservation across a purely-rail chain: a rail child whose new
/// relative velocity is zero — a surface attachment, by
/// [`spec_surface_relative_sv`] — ends the tick with exactly its rail
/// parent's new root velocity: the ancestor's own velocity change is
/// inherited in full and nothing else is added.
pub proof fn lemma_shift_conservation(
    body: RailNode,
    out: RailNode,
    pp: Vec2Fx,
    pv: Vec2Fx,
    shift: Vec2Fx,
    j: int,
    body_old: RelativeStateVectors,
    body_new: RelativeStateVectors,
    child_old: RelativeStateVectors,
    child_new: RelativeStateVectors,
)
    requires
        propagated(body, pp, pv, shift, out),
        body.motion == (TickMotion::Rail { old_rel: body_old, new_rel: body_new }),
        0 <= j < body.children@.len(),
        body.children@[j].motion == (TickMotion::Rail { old_rel: child_old, new_rel: child_new }),
        child_new.velocity == (Vec2Fx { x: 0, y: 0 }),
    ensures
        out.children@[j].vel.0 == out.vel.0,
{
    assert(propagated(
        body.children@[j],
        spec_vec_add(pp, body_new.position),
        spec_vec_add(pv, body_new.velocity),
        spec_vec_add(shift, spec_vec_sub(body_new.velocity, body_old.velocity)),
        out.children@[j],
    ));
}

/// Shift conservation over a whole three-level rail tree (tree root, an
/// orbiting body under it, and a surface-attached lander under that): after
/// one tick of [`write_rail_to_sv`], the lander's root velocity equals the
/// orbiting body's rail-predicted root velocity plus zero.
pub proof fn lemma_shift_conservation_tree(
    root: RailNode,
    out: RailNode,
    j: int,
    k: int,
    body_old: RelativeStateVectors,
    body_new: RelativeStateVectors,
    child_old: RelativeStateVectors,
    child_new: RelativeStateVectors,
)
    requires
        root_propagated(root, out),
        0 <= j < root.children@.len(),
        root.children@[j].motion == (TickMotion::Rail { old_rel: body_old, new_rel: body_new }),
        0 <= k < root.children@[j].children@.len(),
        root.children@[j].children@[k].motion == (TickMotion::Rail {
            old_rel: child_old,
            new_rel: child_new,
        }),
        child_new.velocity == (Vec2Fx { x: 0, y: 0 }),
    ensures
        out.children@[j].children@[k].vel.0 == out.children@[j].vel.0,
{
    let zero = Vec2Fx { x: 0, y: 0 };
    lemma_shift_conservation(
        root.children@[j],
        out.children@[j],
        zero,
        zero,
        zero,
        k,
        body_old,
        body_new,
        child_old,
        child_new,
    );
}

} // verus!
