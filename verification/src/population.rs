//! The growth front: four direction-indexed collections of tips, and the
//! branch transition that replaces every tip by its descendants.
//!
//! The branching rules are cumulative.  Tier 1 is always on and turns every
//! tip 90 degrees in a fixed rotational sense; tier 2 adds the opposite
//! 90-degree turn; tier 3 adds straight-through continuation; tier 4 adds
//! full reversal.  Each enabled rule contributes a full copy of the source
//! collection's positions into its destination collection, so a tip leaves
//! exactly `rules` descendants, all at the tip's position but each with its
//! own new direction.

use vstd::prelude::*;

use crate::geometry::VirtualPoint;

verus! {

/// One of the four cardinal growth directions.
#[derive(Clone, Copy, PartialEq, Eq, Structural, Debug)]
pub enum Direction {
    Up,
    Down,
    Left,
    Right,
}

/// The entire current growth front, partitioned by direction.  Order within
/// a collection is insertion order; it fixes the rasterization order but
/// carries no other meaning.
pub struct Population {
    pub down: Vec<VirtualPoint>,
    pub up: Vec<VirtualPoint>,
    pub right: Vec<VirtualPoint>,
    pub left: Vec<VirtualPoint>,
}

/// Ghost image of a population: the four tip sequences.
#[verifier::ext_equal]
pub struct PopModel {
    pub down: Seq<VirtualPoint>,
    pub up: Seq<VirtualPoint>,
    pub right: Seq<VirtualPoint>,
    pub left: Seq<VirtualPoint>,
}

impl View for Population {
    type V = PopModel;

    open spec fn view(&self) -> PopModel {
        PopModel { down: self.down@, up: self.up@, right: self.right@, left: self.left@ }
    }
}

/// Total number of tips across the four directions.
pub open spec fn total_tips(m: PopModel) -> int {
    m.down.len() + m.up.len() + m.right.len() + m.left.len() as int
}

/// The branch transition on the ghost image: every destination collection is
/// the concatenation of full copies of the source collections selected by
/// the enabled rule tiers, tier by tier.
pub open spec fn spec_transition(m: PopModel, rules: u8) -> PopModel {
    PopModel {
        down: m.left + (if rules >= 2 {
            m.right
        } else {
            Seq::empty()
        }) + (if rules >= 3 {
            m.down
        } else {
            Seq::empty()
        }) + (if rules >= 4 {
            m.up
        } else {
            Seq::empty()
        }),
        up: m.right + (if rules >= 2 {
            m.left
        } else {
            Seq::empty()
        }) + (if rules >= 3 {
            m.up
        } else {
            Seq::empty()
        }) + (if rules >= 4 {
            m.down
        } else {
            Seq::empty()
        }),
        right: m.up + (if rules >= 2 {
            m.down
        } else {
            Seq::empty()
        }) + (if rules >= 3 {
            m.right
        } else {
            Seq::empty()
        }) + (if rules >= 4 {
            m.left
        } else {
            Seq::empty()
        }),
        left: m.down + (if rules >= 2 {
            m.up
        } else {
            Seq::empty()
        }) + (if rules >= 3 {
            m.left
        } else {
            Seq::empty()
        }) + (if rules >= 4 {
            m.right
        } else {
            Seq::empty()
        }),
    }
}

/// The ghost image after `n` branch transitions.
pub open spec fn spec_transitions(m: PopModel, rules: u8, n: nat) -> PopModel
    decreases n,
{
    if n == 0 {
        m
    } else {
        spec_transition(spec_transitions(m, rules, (n - 1) as nat), rules)
    }
}

/// Every tip of the sequence lies within `b` of the origin on both axes.
pub open spec fn seq_within(s: Seq<VirtualPoint>, b: int) -> bool {
    forall|i: int| 0 <= i < s.len() ==> crate::geometry::in_coord_range(#[trigger] s[i], b)
}

/// Every tip of every direction lies within `b` of the origin on both axes.
pub open spec fn within(m: PopModel, b: int) -> bool {
    &&& seq_within(m.down, b)
    &&& seq_within(m.up, b)
    &&& seq_within(m.right, b)
    &&& seq_within(m.left, b)
}

/// Concatenation keeps a coordinate bound.
pub proof fn lemma_seq_within_concat(x: Seq<VirtualPoint>, y: Seq<VirtualPoint>, b: int)
    requires
        seq_within(x, b),
        seq_within(y, b),
    ensures
        seq_within(x + y, b),
{
    assert forall|i: int| 0 <= i < (x + y).len() implies crate::geometry::in_coord_range(
        #[trigger] (x + y)[i],
        b,
    ) by {
        if i < x.len() {
            assert((x + y)[i] == x[i]);
        } else {
            assert((x + y)[i] == y[i - x.len()]);
        }
    }
}

/// A coordinate bound may be weakened.
pub proof fn lemma_within_weaken(m: PopModel, b1: int, b2: int)
    requires
        within(m, b1),
        b1 <= b2,
    ensures
        within(m, b2),
{
}

/// The branch transition only redistributes existing positions, so it keeps
/// any coordinate bound on the front.
pub proof fn lemma_transition_within(m: PopModel, rules: u8, b: int)
    requires
        within(m, b),
    ensures
        within(spec_transition(m, rules), b),
{
    let e = Seq::<VirtualPoint>::empty();
    assert(seq_within(e, b));
    lemma_tiered_within(m.left, m.right, m.down, m.up, rules, b);
    lemma_tiered_within(m.right, m.left, m.up, m.down, rules, b);
    lemma_tiered_within(m.up, m.down, m.right, m.left, rules, b);
    lemma_tiered_within(m.down, m.up, m.left, m.right, rules, b);
}

/// Helper for [`lemma_transition_within`]: the tiered concatenation shape
/// keeps a coordinate bound of its four sources.
proof fn lemma_tiered_within(
    s1: Seq<VirtualPoint>,
    s2: Seq<VirtualPoint>,
    s3: Seq<VirtualPoint>,
    s4: Seq<VirtualPoint>,
    rules: u8,
    b: int,
)
    requires
        seq_within(s1, b),
        seq_within(s2, b),
        seq_within(s3, b),
        seq_within(s4, b),
    ensures
        seq_within(tiered(s1, s2, s3, s4, rules), b),
{
    let e = Seq::<VirtualPoint>::empty();
    assert(seq_within(e, b));
    let t2 = if rules >= 2 {
        s2
    } else {
        e
    };
    let t3 = if rules >= 3 {
        s3
    } else {
        e
    };
    let t4 = if rules >= 4 {
        s4
    } else {
        e
    };
    lemma_seq_within_concat(s1, t2, b);
    lemma_seq_within_concat(s1 + t2, t3, b);
    lemma_seq_within_concat(s1 + t2 + t3, t4, b);
}

/// Each branch transition multiplies the population size by exactly the
/// number of enabled rules: every tip produces one descendant per enabled
/// tier.  With one rule the front keeps its size; with two it doubles.
pub proof fn lemma_transition_total(m: PopModel, rules: u8)
    requires
        1 <= rules <= 4,
    ensures
        total_tips(spec_transition(m, rules)) == rules * total_tips(m),
{
    let t = spec_transition(m, rules);
    if rules == 1 {
        assert(total_tips(t) == 1 * total_tips(m));
    } else if rules == 2 {
        assert(total_tips(t) == 2 * total_tips(m));
    } else if rules == 3 {
        assert(total_tips(t) == 3 * total_tips(m));
    } else {
        assert(total_tips(t) == 4 * total_tips(m));
    }
}

/// After `n` transitions the population size is `rules^n` times the
/// starting size.  From the single seed tip, one active rule keeps the
/// front at exactly one tip forever, and two active rules give `2^n` tips.
pub proof fn lemma_transitions_total(m: PopModel, rules: u8, n: nat)
    requires
        1 <= rules <= 4,
    ensures
        total_tips(spec_transitions(m, rules, n)) == vstd::arithmetic::power::pow(
            rules as int,
            n,
        ) * total_tips(m),
    decreases n,
{
    if n == 0 {
        vstd::arithmetic::power::lemma_pow0(rules as int);
        vstd::arithmetic::mul::lemma_mul_basics(total_tips(m));
    } else {
        let prev = spec_transitions(m, rules, (n - 1) as nat);
        lemma_transitions_total(m, rules, (n - 1) as nat);
        lemma_transition_total(prev, rules);
        let pw = vstd::arithmetic::power::pow(rules as int, (n - 1) as nat);
        assert(vstd::arithmetic::power::pow(rules as int, n) == rules as int * pw) by {
            reveal_with_fuel(vstd::arithmetic::power::pow, 2);
        }
        assert(total_tips(spec_transitions(m, rules, n)) == rules as int * (pw * total_tips(m)));
        assert(rules as int * (pw * total_tips(m)) == (rules as int * pw) * total_tips(m)) by {
            vstd::arithmetic::mul::lemma_mul_is_associative(rules as int, pw, total_tips(m));
        }
    }
}

/// Raising the rule tier never loses descendants: with `ra <= rb`, each
/// destination collection under tier `ra` is a prefix of the one under tier
/// `rb`, so no rule ever decreases the descendant count of a fixed tier.
pub proof fn lemma_rules_cumulative(m: PopModel, ra: u8, rb: u8)
    requires
        1 <= ra <= rb <= 4,
    ensures
        spec_transition(m, ra).down.is_prefix_of(spec_transition(m, rb).down),
        spec_transition(m, ra).up.is_prefix_of(spec_transition(m, rb).up),
        spec_transition(m, ra).right.is_prefix_of(spec_transition(m, rb).right),
        spec_transition(m, ra).left.is_prefix_of(spec_transition(m, rb).left),
        total_tips(spec_transition(m, ra)) <= total_tips(spec_transition(m, rb)),
{
    let ta = spec_transition(m, ra);
    let tb = spec_transition(m, rb);
    assert(ta.down.is_prefix_of(tb.down) && ta.up.is_prefix_of(tb.up) && ta.right.is_prefix_of(
        tb.right,
    ) && ta.left.is_prefix_of(tb.left)) by {
        lemma_prefix_shape(m.left, m.right, m.down, m.up, ra, rb);
        lemma_prefix_shape(m.right, m.left, m.up, m.down, ra, rb);
        lemma_prefix_shape(m.up, m.down, m.right, m.left, ra, rb);
        lemma_prefix_shape(m.down, m.up, m.left, m.right, ra, rb);
    }
}

/// Helper: one destination collection of the transition, as the abstract
/// shape `s1 + [tier>=2] s2 + [tier>=3] s3 + [tier>=4] s4`, grows by
/// concatenation as the tier rises.
proof fn lemma_prefix_shape(
    s1: Seq<VirtualPoint>,
    s2: Seq<VirtualPoint>,
    s3: Seq<VirtualPoint>,
    s4: Seq<VirtualPoint>,
    ra: u8,
    rb: u8,
)
    requires
        1 <= ra <= rb <= 4,
    ensures
        (tiered(s1, s2, s3, s4, ra)).is_prefix_of(tiered(s1, s2, s3, s4, rb)),
{
    let a = tiered(s1, s2, s3, s4, ra);
    let b = tiered(s1, s2, s3, s4, rb);
    if ra == rb {
        assert(a =~= b);
    } else if ra == 1 {
        if rb == 2 {
            assert(b =~= a + s2);
        } else if rb == 3 {
            assert(b =~= a + (s2 + s3));
        } else {
            assert(b =~= a + (s2 + s3 + s4));
        }
    } else if ra == 2 {
        if rb == 3 {
            assert(b =~= a + s3);
        } else {
            assert(b =~= a + (s3 + s4));
        }
    } else {
        assert(b =~= a + s4);
    }
    assert(a.is_prefix_of(b)) by {
        assert(a =~= b.subrange(0, a.len() as int));
    }
}

/// The common shape of each destination collection of [`spec_transition`].
pub open spec fn tiered(
    s1: Seq<VirtualPoint>,
    s2: Seq<VirtualPoint>,
    s3: Seq<VirtualPoint>,
    s4: Seq<VirtualPoint>,
    rules: u8,
) -> Seq<VirtualPoint> {
    s1 + (if rules >= 2 {
        s2
    } else {
        Seq::empty()
    }) + (if rules >= 3 {
        s3
    } else {
        Seq::empty()
    }) + (if rules >= 4 {
        s4
    } else {
        Seq::empty()
    })
}

/// Appends a copy of every point of `src` to `dst`, in order.
pub(crate) fn append_points(dst: &mut Vec<VirtualPoint>, src: &Vec<VirtualPoint>)
    ensures
        final(dst)@ == old(dst)@ + src@,
{
    let ghost dst0 = old(dst)@;
    let mut i: usize = 0;
    while i < src.len()
        invariant
            i <= src@.len(),
            dst@ == dst0 + src@.take(i as int),
        decreases src@.len() - i,
    {
        dst.push(src[i]);
        proof {
            assert(src@.take(i + 1) =~= src@.take(i as int).push(src@[i as int]));
            assert(dst0 + src@.take(i + 1) =~= (dst0 + src@.take(i as int)).push(
                src@[i as int],
            ));
        }
        i = i + 1;
    }
    proof {
        assert(src@.take(src@.len() as int) =~= src@);
    }
}

impl Population {
    /// A front consisting of a single seed tip moving in direction `d`.
    pub fn single(seed: VirtualPoint, d: Direction) -> (p: Population)
        ensures
            p@ == (PopModel {
                down: if d is Down {
                    seq![seed]
                } else {
                    Seq::empty()
                },
                up: if d is Up {
                    seq![seed]
                } else {
                    Seq::empty()
                },
                right: if d is Right {
                    seq![seed]
                } else {
                    Seq::empty()
                },
                left: if d is Left {
                    seq![seed]
                } else {
                    Seq::empty()
                },
            }),
    {
        let mut p = Population { down: Vec::new(), up: Vec::new(), right: Vec::new(), left: Vec::new() };
        match d {
            Direction::Down => p.down.push(seed),
            Direction::Up => p.up.push(seed),
            Direction::Right => p.right.push(seed),
            Direction::Left => p.left.push(seed),
        }
        proof {
            assert(p@ =~= (PopModel {
                down: if d is Down {
                    seq![seed]
                } else {
                    Seq::empty()
                },
                up: if d is Up {
                    seq![seed]
                } else {
                    Seq::empty()
                },
                right: if d is Right {
                    seq![seed]
                } else {
                    Seq::empty()
                },
                left: if d is Left {
                    seq![seed]
                } else {
                    Seq::empty()
                },
            }));
        }
        p
    }

    /// Number of tips currently moving in direction `d`.
    pub fn len_of(&self, d: Direction) -> (n: usize)
        ensures
            n == self.tips(d).len(),
    {
        match d {
            Direction::Down => self.down.len(),
            Direction::Up => self.up.len(),
            Direction::Right => self.right.len(),
            Direction::Left => self.left.len(),
        }
    }

    /// The sequence of tips moving in direction `d`.
    pub open spec fn tips(&self, d: Direction) -> Seq<VirtualPoint> {
        match d {
            Direction::Down => self.down@,
            Direction::Up => self.up@,
            Direction::Right => self.right@,
            Direction::Left => self.left@,
        }
    }

    /// The `i`-th tip moving in direction `d`, if there is one.
    pub fn tip_at(&self, d: Direction, i: usize) -> (t: Option<VirtualPoint>)
        ensures
            i < self.tips(d).len() ==> t == Some(self.tips(d)[i as int]),
            i >= self.tips(d).len() ==> t is None,
    {
        let v: &Vec<VirtualPoint> = match d {
            Direction::Down => &self.down,
            Direction::Up => &self.up,
            Direction::Right => &self.right,
            Direction::Left => &self.left,
        };
        if i < v.len() {
            Some(v[i])
        } else {
            None
        }
    }

    /// Performs one branch transition: replaces all four collections at once
    /// by the redistribution that [`spec_transition`] describes.
    pub fn branch_transition(&mut self, rules: u8)
        requires
            1 <= rules <= 4,
        ensures
            final(self)@ == spec_transition(old(self)@, rules),
    {
        let mut down: Vec<VirtualPoint> = Vec::new();
        let mut up: Vec<VirtualPoint> = Vec::new();
        let mut right: Vec<VirtualPoint> = Vec::new();
        let mut left: Vec<VirtualPoint> = Vec::new();

        append_points(&mut down, &self.left);
        append_points(&mut up, &self.right);
        append_points(&mut left, &self.down);
        append_points(&mut right, &self.up);

        if rules >= 2 {
            append_points(&mut down, &self.right);
            append_points(&mut up, &self.left);
            append_points(&mut right, &self.down);
            append_points(&mut left, &self.up);

            if rules >= 3 {
                append_points(&mut down, &self.down);
                append_points(&mut up, &self.up);
                append_points(&mut right, &self.right);
                append_points(&mut left, &self.left);
            }
            if rules >= 4 {
                append_points(&mut right, &self.left);
                append_points(&mut left, &self.right);
                append_points(&mut down, &self.up);
                append_points(&mut up, &self.down);
            }
        }
        proof {
            let t = spec_transition(self@, rules);
            assert(down@ =~= t.down);
            assert(up@ =~= t.up);
            assert(right@ =~= t.right);
            assert(left@ =~= t.left);
        }
        self.down = down;
        self.up = up;
        self.right = right;
        self.left = left;
    }
}

} // verus!
