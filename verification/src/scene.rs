//! The scene graph as the unit system sees it: an arena of named nodes
//! with parent links, walked to find enemy spawn markers and the
//! animation players wired up under each unit.

use vstd::prelude::*;

use crate::math::SCALE;
use crate::rng::GameRng;
use crate::units::{UnitData, UnitEntity};
use crate::vec3::Vec3Fix;
use crate::Health;

verus! {

/// Marker on a scene root whose subtree holds enemy spawn points, removed
/// once they are processed.
pub struct EnemySpawns;

/// A unit's animation-player node, found lazily once the unit's subtree
/// has loaded: the index of that node in the arena.
#[derive(Clone, Copy, PartialEq, Eq, Structural, Debug)]
pub struct ChildAnimEntity(pub usize);

/// One node of a loaded scene: its name, world translation, parent link
/// and whether an animation player sits on it.
pub struct SceneNode {
    pub name: String,
    pub translation: Vec3Fix,
    /// The parent's index, always below this node's own.
    pub parent: Option<usize>,
    pub has_animation_player: bool,
}

/// A well-formed arena: every parent link points strictly downward.
pub open spec fn arena_wf(s: Seq<SceneNode>) -> bool {
    forall|i: int|
        0 <= i < s.len() ==> ((#[trigger] s[i].parent).is_some() ==> s[i].parent->0 < i)
}

/// Whether node `i` sits somewhere below `root`: its parent chain passes
/// through `root`.
pub open spec fn is_descendant_of(s: Seq<SceneNode>, i: int, root: int) -> bool
    decreases (if i >= 0 {
        i
    } else {
        0
    }),
{
    if 0 <= i < s.len() {
        match s[i].parent {
            Some(p) => p == root || (if p < i {
                is_descendant_of(s, p as int, root)
            } else {
                false
            }),
            None => false,
        }
    } else {
        false
    }
}

/// Walk the parent chain of `i` and report whether it passes `root`.
pub fn is_descendant(nodes: &Vec<SceneNode>, i: usize, root: usize) -> (r: bool)
    requires
        arena_wf(nodes@),
        i < nodes@.len(),
    ensures
        r == is_descendant_of(nodes@, i as int, root as int),
{
    let mut cur = i;
    loop
        invariant
            arena_wf(nodes@),
            cur < nodes@.len(),
            is_descendant_of(nodes@, i as int, root as int) == is_descendant_of(
                nodes@,
                cur as int,
                root as int,
            ),
        decreases cur,
    {
        match nodes[cur].parent {
            Some(p) => {
                if p == root {
                    return true;
                }
                cur = p;
            },
            None => {
                return false;
            },
        }
    }
}

/// Every descendant of `root`, in ascending index order.
pub fn all_children(nodes: &Vec<SceneNode>, root: usize) -> (r: Vec<usize>)
    requires
        arena_wf(nodes@),
    ensures
        forall|k: int|
            0 <= k < r@.len() ==> #[trigger] r@[k] < nodes@.len() && is_descendant_of(
                nodes@,
                r@[k] as int,
                root as int,
            ),
        forall|j: int|
            0 <= j < nodes@.len() && is_descendant_of(nodes@, j, root as int) ==> exists|k: int|
                0 <= k < r@.len() && #[trigger] r@[k] == j,
        forall|k1: int, k2: int| 0 <= k1 < k2 < r@.len() ==> r@[k1] < r@[k2],
{
    let n = nodes.len();
    let mut out: Vec<usize> = Vec::new();
    let mut j: usize = 0;
    while j < n
        invariant
            n == nodes@.len(),
            arena_wf(nodes@),
            0 <= j <= n,
            forall|k: int|
                0 <= k < out@.len() ==> #[trigger] out@[k] < j && is_descendant_of(
                    nodes@,
                    out@[k] as int,
                    root as int,
                ),
            forall|j2: int|
                0 <= j2 < j && is_descendant_of(nodes@, j2, root as int) ==> exists|k: int|
                    0 <= k < out@.len() && #[trigger] out@[k] == j2,
            forall|k1: int, k2: int| 0 <= k1 < k2 < out@.len() ==> out@[k1] < out@[k2],
        decreases n - j,
    {
        if is_descendant(nodes, j, root) {
            let ghost pre = out@;
            out.push(j);
            proof {
                assert(out@[pre.len() as int] == j);
                assert(forall|k: int| 0 <= k < pre.len() ==> out@[k] == pre[k]);
            }
        }
        j = j + 1;
    }
    out
}

/// The lowercase image of a string's characters.
pub uninterp spec fn lower_of(s: Seq<char>) -> Seq<char>;

/// Relies on `str::to_lowercase`: the lowercase mapping depends on the
/// characters alone, and an empty string stays empty.
#[verifier::external_body]
fn to_lowercase(s: &str) -> (r: String)
    ensures
        r@ == lower_of(s@),
        s@.len() == 0 ==> r@.len() == 0,
{
    s.to_lowercase()
}

/// `pat` occurs in `s` starting at position `i`.
pub open spec fn has_sub_at(s: Seq<char>, pat: Seq<char>, i: int) -> bool {
    0 <= i && i + pat.len() <= s.len() && s.subrange(i, i + pat.len() as int) == pat
}

/// `pat` occurs somewhere in `s`.
pub open spec fn contains_seq(s: Seq<char>, pat: Seq<char>) -> bool {
    exists|i: int| has_sub_at(s, pat, i)
}

/// Whether `pat` occurs in `s`, by direct scan.
fn str_contains(s: &str, pat: &str) -> (r: bool)
    ensures
        r == contains_seq(s@, pat@),
{
    let n = s.unicode_len();
    let m = pat.unicode_len();
    if m > n {
        proof {
            assert(forall|i: int| !has_sub_at(s@, pat@, i));
        }
        return false;
    }
    let mut i: usize = 0;
    while i <= n - m
        invariant
            n == s@.len(),
            m == pat@.len(),
            m <= n,
            0 <= i <= n - m + 1,
            forall|i2: int| 0 <= i2 < i ==> !has_sub_at(s@, pat@, i2),
        decreases n - m + 1 - i,
    {
        let mut j: usize = 0;
        let mut all_eq = true;
        while j < m && all_eq
            invariant
                n == s@.len(),
                m == pat@.len(),
                0 <= i <= n - m,
                0 <= j <= m,
                all_eq == (forall|j2: int| 0 <= j2 < j ==> s@[i + j2] == pat@[j2]),
            decreases m - j,
        {
            let sc = s.get_char(i + j);
            let pc = pat.get_char(j);
            if sc != pc {
                all_eq = false;
                proof {
                    assert(!(forall|j2: int| 0 <= j2 < j + 1 ==> s@[i + j2] == pat@[j2]));
                }
            } else {
                proof {
                    assert(forall|j2: int| 0 <= j2 < j + 1 ==> s@[i + j2] == pat@[j2]);
                }
            }
            j = j + 1;
        }
        if all_eq {
            proof {
                assert(s@.subrange(i as int, i + m as int) =~= pat@);
                assert(has_sub_at(s@, pat@, i as int));
            }
            return true;
        }
        proof {
            if has_sub_at(s@, pat@, i as int) {
                let sub = s@.subrange(i as int, i + m as int);
                assert(forall|j2: int| 0 <= j2 < m ==> s@[i + j2] == #[trigger] sub[j2]);
            }
        }
        i = i + 1;
    }
    proof {
        assert(forall|i2: int| i2 > n - m ==> !has_sub_at(s@, pat@, i2));
        assert(forall|i2: int| !has_sub_at(s@, pat@, i2));
        assert(!contains_seq(s@, pat@));
    }
    false
}

/// A node that spawns an enemy: a descendant of the processed root whose
/// lowercase name contains the spawn marker.
pub open spec fn is_spawn_node(s: Seq<SceneNode>, j: int, root: int) -> bool {
    &&& 0 <= j < s.len()
    &&& is_descendant_of(s, j, root)
    &&& contains_seq(lower_of(s[j].name@), spawn_marker())
}

/// The spawn nodes among the first `n` arena entries, in index order.
pub open spec fn spawn_nodes(s: Seq<SceneNode>, root: int, n: int) -> Seq<int>
    decreases (if n >= 0 {
        n
    } else {
        0
    }),
{
    if n <= 0 {
        Seq::empty()
    } else {
        let rest = spawn_nodes(s, root, n - 1);
        if is_spawn_node(s, n - 1, root) {
            rest.push(n - 1)
        } else {
            rest
        }
    }
}

/// Where the unit of a spawn node stands: the node's translation, lifted
/// a twentieth of a unit.
pub open spec fn spawn_point(node: SceneNode) -> Vec3Fix {
    Vec3Fix {
        x: node.translation.x,
        y: (node.translation.y + 50_000) as i64,
        z: node.translation.z,
    }
}

/// The initial facing of a spawned unit: along the world's forward axis.
pub open spec fn initial_facing() -> Vec3Fix {
    Vec3Fix { x: 0i64, y: 0i64, z: -1_000_000i64 }
}

/// Process the spawn markers under `root`: one fresh unit per marked
/// node, at the node's translation lifted a twentieth of a unit, at full
/// health, with entity numbers handed out in order from `first_entity`.
pub fn spawn_enemies(
    nodes: &Vec<SceneNode>,
    root: usize,
    first_entity: u64,
    rng: &mut GameRng,
) -> (r: Vec<UnitEntity>)
    requires
        arena_wf(nodes@),
        forall|j: int|
            0 <= j < nodes@.len() ==> {
                let t = (#[trigger] nodes@[j]).translation;
                &&& -99_000_000_000 <= t.x <= 99_000_000_000
                &&& -99_000_000_000 <= t.y <= 99_000_000_000
                &&& -99_000_000_000 <= t.z <= 99_000_000_000
            },
        first_entity + nodes@.len() <= u64::MAX,
    ensures
        r@.len() == spawn_nodes(nodes@, root as int, nodes@.len() as int).len(),
        forall|k: int|
            0 <= k < r@.len() ==> {
                let j = spawn_nodes(nodes@, root as int, nodes@.len() as int)[k];
                let u = #[trigger] r@[k];
                &&& u.entity == first_entity + k
                &&& u.pos == spawn_point(nodes@[j])
                &&& u.facing == initial_facing()
                &&& u.data.freshly_spawned(spawn_point(nodes@[j]))
                &&& u.health.0 == SCALE
                &&& u.wf()
            },
{
    let n = nodes.len();
    let mut out: Vec<UnitEntity> = Vec::new();
    let mut j: usize = 0;
    while j < n
        invariant
            n == nodes@.len(),
            arena_wf(nodes@),
            forall|j2: int|
                0 <= j2 < nodes@.len() ==> {
                    let t = (#[trigger] nodes@[j2]).translation;
                    &&& -99_000_000_000 <= t.x <= 99_000_000_000
                    &&& -99_000_000_000 <= t.y <= 99_000_000_000
                    &&& -99_000_000_000 <= t.z <= 99_000_000_000
                },
            first_entity + nodes@.len() <= u64::MAX,
            0 <= j <= n,
            out@.len() == spawn_nodes(nodes@, root as int, j as int).len(),
            out@.len() <= j,
            forall|k: int|
                0 <= k < out@.len() ==> {
                    let j2 = spawn_nodes(nodes@, root as int, j as int)[k];
                    let u = #[trigger] out@[k];
                    &&& u.entity == first_entity + k
                    &&& u.pos == spawn_point(nodes@[j2])
                    &&& u.facing == initial_facing()
                    &&& u.data.freshly_spawned(spawn_point(nodes@[j2]))
                    &&& u.health.0 == SCALE
                    &&& u.wf()
                },
        decreases n - j,
    {
        let is_desc = is_descendant(nodes, j, root);
        let marks = name_marks_spawn(nodes[j].name.as_str());
        if is_desc && marks {
            let t = nodes[j].translation;
            let pos = Vec3Fix { x: t.x, y: t.y + 50_000, z: t.z };
            let data = UnitData::fresh(pos, rng);
            let entity = first_entity + (out.len() as u64);
            let unit = UnitEntity {
                entity,
                pos,
                facing: Vec3Fix { x: 0, y: 0, z: -1_000_000 },
                data,
                health: Health(SCALE),
            };
            let ghost pre = out@;
            out.push(unit);
            proof {
                assert(out@[pre.len() as int] == unit);
                assert(forall|k: int| 0 <= k < pre.len() ==> out@[k] == pre[k]);
                assert(spawn_nodes(nodes@, root as int, j + 1).last() == j as int);
                assert(spawn_nodes(nodes@, root as int, j + 1).drop_last() == spawn_nodes(
                    nodes@,
                    root as int,
                    j as int,
                ));
            }
        }
        j = j + 1;
    }
    out
}

/// Find the animation player under a unit's subtree: the lowest-indexed
/// descendant of `root` that carries one, if any.
pub fn setup_anim_player_refs(nodes: &Vec<SceneNode>, root: usize) -> (r: Option<ChildAnimEntity>)
    requires
        arena_wf(nodes@),
    ensures
        r.is_some() ==> {
            let j = (r->0).0 as int;
            &&& 0 <= j < nodes@.len()
            &&& is_descendant_of(nodes@, j, root as int)
            &&& nodes@[j].has_animation_player
            &&& forall|j2: int|
                0 <= j2 < j && is_descendant_of(nodes@, j2, root as int) ==> !(
                #[trigger] nodes@[j2]).has_animation_player
        },
        r.is_none() ==> forall|j: int|
            0 <= j < nodes@.len() && is_descendant_of(nodes@, j, root as int) ==> !(
            #[trigger] nodes@[j]).has_animation_player,
{
    let n = nodes.len();
    let mut j: usize = 0;
    while j < n
        invariant
            n == nodes@.len(),
            arena_wf(nodes@),
            0 <= j <= n,
            forall|j2: int|
                0 <= j2 < j && is_descendant_of(nodes@, j2, root as int) ==> !(
                #[trigger] nodes@[j2]).has_animation_player,
        decreases n - j,
    {
        if nodes[j].has_animation_player {
            if is_descendant(nodes, j, root) {
                return Some(ChildAnimEntity(j));
            }
        }
        j = j + 1;
    }
    None
}

/// The marker substring that names an enemy spawn point.
pub open spec fn spawn_marker() -> Seq<char> {
    seq!['e', 'n', 'e', 'm', 'y', 's', 'p', 'a', 'w', 'n']
}

/// Whether a node's name marks an enemy spawn point: its lowercase image
/// contains the marker.
pub fn name_marks_spawn(name: &str) -> (r: bool)
    ensures
        r == contains_seq(lower_of(name@), spawn_marker()),
{
    let lowered = to_lowercase(name);
    let r = str_contains(lowered.as_str(), "enemyspawn");
    proof {
        reveal_strlit("enemyspawn");
        assert("enemyspawn"@ =~= spawn_marker());
    }
    r
}

} // verus!
