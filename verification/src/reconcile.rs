//! The instance reconciler: from an ordered stream of inbound samples it
//! keeps, per distinct color key, only the newest sample. A sample whose
//! color lies outside the palette is skipped silently. Remote shapes
//! carry zero velocity: they are repositioned only by newer samples.

use vstd::prelude::*;
use crate::motion::{MovingShapeObject, Vec2};
use crate::shapes::{Color, ShapeKind, ShapeType, parse_color_spec};

verus! {

/// The zero-velocity shape one remote sample stands for.
pub open spec fn remote_shape_spec(kind: ShapeKind, c: Color, s: ShapeType) -> MovingShapeObject {
    MovingShapeObject {
        kind,
        color: c,
        position: Vec2 { x: s.x as i64, y: s.y as i64 },
        size: s.shapesize as i64,
        velocity: Vec2 { x: 0, y: 0 },
    }
}

/// The first position holding color `c`, if any.
pub open spec fn find_color(shapes: Seq<MovingShapeObject>, c: Color) -> Option<int>
    decreases shapes.len(),
{
    if shapes.len() == 0 {
        None
    } else if shapes[0].color == c {
        Some(0int)
    } else {
        match find_color(shapes.skip(1), c) {
            Some(i) => Some(i + 1),
            None => None,
        }
    }
}

/// What reconciliation yields: one shape per distinct valid color, in
/// order of each color's first appearance, each holding the newest
/// sample for that color.
pub open spec fn reconcile_spec(kind: ShapeKind, samples: Seq<ShapeType>) -> Seq<
    MovingShapeObject,
>
    decreases samples.len(),
{
    if samples.len() == 0 {
        Seq::empty()
    } else {
        let prefix = reconcile_spec(kind, samples.drop_last());
        let s = samples.last();
        match parse_color_spec(s.color@) {
            None => prefix,
            Some(c) => match find_color(prefix, c) {
                Some(i) => prefix.update(i, remote_shape_spec(kind, c, s)),
                None => prefix.push(remote_shape_spec(kind, c, s)),
            },
        }
    }
}

/// What `find_color` returns is the first position with that color; a
/// `None` means the color is absent.
pub proof fn lemma_find_color_props(shapes: Seq<MovingShapeObject>, c: Color)
    ensures
        match find_color(shapes, c) {
            Some(i) => {
                &&& 0 <= i < shapes.len()
                &&& shapes[i].color == c
                &&& forall|j: int| 0 <= j < i ==> shapes[j].color != c
            },
            None => forall|j: int| 0 <= j < shapes.len() ==> shapes[j].color != c,
        },
    decreases shapes.len(),
{
    if shapes.len() == 0 {
    } else if shapes[0].color == c {
    } else {
        lemma_find_color_props(shapes.skip(1), c);
        match find_color(shapes.skip(1), c) {
            Some(i) => {
                assert(shapes.skip(1)[i] == shapes[i + 1]);
                assert forall|j: int| 0 <= j < i + 1 implies shapes[j].color != c by {
                    if j > 0 {
                        assert(shapes.skip(1)[j - 1] == shapes[j]);
                    }
                }
            },
            None => {
                assert forall|j: int| 0 <= j < shapes.len() implies shapes[j].color != c by {
                    if j > 0 {
                        assert(shapes.skip(1)[j - 1] == shapes[j]);
                    }
                }
            },
        }
    }
}

/// The first position with color `c` determines `find_color` exactly.
pub proof fn lemma_find_color_at(shapes: Seq<MovingShapeObject>, c: Color, i: int)
    requires
        0 <= i < shapes.len(),
        shapes[i].color == c,
        forall|j: int| 0 <= j < i ==> shapes[j].color != c,
    ensures
        find_color(shapes, c) == Some(i),
    decreases shapes.len(),
{
    if shapes[0].color == c {
        assert(i == 0);
    } else {
        assert(i > 0);
        assert(shapes.skip(1)[i - 1] == shapes[i]);
        assert forall|j: int| 0 <= j < i - 1 implies shapes.skip(1)[j].color != c by {
            assert(shapes.skip(1)[j] == shapes[j + 1]);
        }
        lemma_find_color_at(shapes.skip(1), c, i - 1);
    }
}

fn find_color_exec(shapes: &Vec<MovingShapeObject>, c: Color) -> (r: Option<usize>)
    ensures
        match find_color(shapes@, c) {
            Some(i) => r matches Some(j) && j as int == i,
            None => r is None,
        },
{
    let mut i: usize = 0;
    while i < shapes.len()
        invariant
            i <= shapes@.len(),
            forall|j: int| 0 <= j < i ==> shapes@[j].color != c,
        decreases shapes@.len() - i,
    {
        if shapes[i].color == c {
            proof {
                lemma_find_color_at(shapes@, c, i as int);
            }
            return Some(i);
        }
        i += 1;
    }
    proof {
        lemma_find_color_props(shapes@, c);
    }
    None
}

/// Runs the reconciler over the samples drained from one topic, oldest
/// first: the result holds at most one shape per color, always the
/// newest sample, converted with zero velocity; malformed samples are
/// skipped without disturbing the other keys.
pub fn reconcile(kind: ShapeKind, samples: &Vec<ShapeType>) -> (r: Vec<MovingShapeObject>)
    ensures
        r@ == reconcile_spec(kind, samples@),
{
    let mut out: Vec<MovingShapeObject> = Vec::new();
    let mut i: usize = 0;
    while i < samples.len()
        invariant
            i <= samples@.len(),
            out@ == reconcile_spec(kind, samples@.take(i as int)),
        decreases samples@.len() - i,
    {
        match MovingShapeObject::from_shape_type(kind, &samples[i], Vec2 { x: 0, y: 0 }) {
            Err(_) => {},
            Ok(shape) => {
                proof {
                    lemma_find_color_props(out@, shape.color);
                }
                match find_color_exec(&out, shape.color) {
                    Some(j) => {
                        out[j] = shape;
                    },
                    None => {
                        out.push(shape);
                    },
                }
            },
        }
        proof {
            assert(samples@.take(i + 1 as int).drop_last() =~= samples@.take(i as int));
            assert(samples@.take(i + 1 as int).last() == samples@[i as int]);
        }
        i += 1;
    }
    proof {
        assert(samples@.take(samples@.len() as int) =~= samples@);
    }
    out
}

/// The newest valid sample for key `c`, scanning from the most recent.
pub open spec fn newest_for_key(samples: Seq<ShapeType>, c: Color) -> Option<ShapeType>
    decreases samples.len(),
{
    if samples.len() == 0 {
        None
    } else if parse_color_spec(samples.last().color@) == Some(c) {
        Some(samples.last())
    } else {
        newest_for_key(samples.drop_last(), c)
    }
}

/// At most one shape per distinct key: any two positions of the
/// reconciled list hold different colors.
pub proof fn lemma_reconcile_distinct_keys(
    kind: ShapeKind,
    samples: Seq<ShapeType>,
    i: int,
    j: int,
)
    requires
        0 <= i < j < reconcile_spec(kind, samples).len(),
    ensures
        reconcile_spec(kind, samples)[i].color != reconcile_spec(kind, samples)[j].color,
    decreases samples.len(),
{
    let result = reconcile_spec(kind, samples);
    let prefix = reconcile_spec(kind, samples.drop_last());
    let s = samples.last();
    match parse_color_spec(s.color@) {
        None => {
            lemma_reconcile_distinct_keys(kind, samples.drop_last(), i, j);
        },
        Some(c) => {
            lemma_find_color_props(prefix, c);
            match find_color(prefix, c) {
                Some(k) => {
                    if i != k && j != k {
                        lemma_reconcile_distinct_keys(kind, samples.drop_last(), i, j);
                    } else {
                        // The updated position keeps color c; the other
                        // position held a different color already.
                        let other = if i == k {
                            j
                        } else {
                            i
                        };
                        if prefix[other].color == c {
                            // Impossible: k is the only position with c.
                            if other < k {
                                assert(false);
                            } else {
                                lemma_reconcile_distinct_keys(
                                    kind,
                                    samples.drop_last(),
                                    if k < other {
                                        k
                                    } else {
                                        other
                                    },
                                    if k < other {
                                        other
                                    } else {
                                        k
                                    },
                                );
                            }
                        }
                    }
                },
                None => {
                    if j < prefix.len() {
                        lemma_reconcile_distinct_keys(kind, samples.drop_last(), i, j);
                    } else {
                        // j is the pushed shape, whose color is absent
                        // from the prefix.
                        assert(result[j].color == c);
                        assert(result[i] == prefix[i]);
                    }
                },
            }
        },
    }
}

/// The reconciled list carries, for every key it holds, exactly the
/// newest valid sample of that key; a key it does not hold has no valid
/// sample in the stream.
pub proof fn lemma_reconcile_newest_per_key(kind: ShapeKind, samples: Seq<ShapeType>, c: Color)
    ensures
        match find_color(reconcile_spec(kind, samples), c) {
            Some(i) => {
                &&& newest_for_key(samples, c) is Some
                &&& reconcile_spec(kind, samples)[i] == remote_shape_spec(
                    kind,
                    c,
                    newest_for_key(samples, c)->Some_0,
                )
            },
            None => newest_for_key(samples, c) is None,
        },
    decreases samples.len(),
{
    let result = reconcile_spec(kind, samples);
    if samples.len() == 0 {
        lemma_find_color_props(result, c);
    } else {
        let prefix = reconcile_spec(kind, samples.drop_last());
        let s = samples.last();
        lemma_reconcile_newest_per_key(kind, samples.drop_last(), c);
        lemma_find_color_props(prefix, c);
        match parse_color_spec(s.color@) {
            None => {},
            Some(c2) => {
                lemma_find_color_props(prefix, c2);
                let updated = remote_shape_spec(kind, c2, s);
                match find_color(prefix, c2) {
                    Some(k) => {
                        assert(result == prefix.update(k, updated));
                        if c2 == c {
                            lemma_find_color_at(result, c, k);
                        } else {
                            match find_color(prefix, c) {
                                Some(j) => {
                                    assert(j != k);
                                    assert(result[j] == prefix[j]);
                                    assert(forall|m: int|
                                        0 <= m < j ==> (#[trigger] result[m]).color
                                            == prefix[m].color);
                                    lemma_find_color_at(result, c, j);
                                },
                                None => {
                                    assert(forall|m: int|
                                        0 <= m < result.len() ==> (#[trigger] result[m]).color
                                            != c);
                                    lemma_find_color_props(result, c);
                                },
                            }
                        }
                    },
                    None => {
                        assert(result == prefix.push(updated));
                        if c2 == c {
                            lemma_find_color_at(result, c, prefix.len() as int);
                        } else {
                            match find_color(prefix, c) {
                                Some(j) => {
                                    assert(result[j] == prefix[j]);
                                    assert(forall|m: int|
                                        0 <= m < j ==> (#[trigger] result[m]).color
                                            == prefix[m].color);
                                    lemma_find_color_at(result, c, j);
                                },
                                None => {
                                    assert(forall|m: int|
                                        0 <= m < result.len() ==> (#[trigger] result[m]).color
                                            != c);
                                    lemma_find_color_props(result, c);
                                },
                            }
                        }
                    },
                }
            },
        }
    }
}

/// Feeding one sample twice reconciles to exactly what feeding it once
/// does: one shape, the sample's shape.
pub proof fn lemma_reconcile_idempotent(kind: ShapeKind, s: ShapeType)
    ensures
        reconcile_spec(kind, seq![s, s]) == reconcile_spec(kind, seq![s]),
{
    assert(seq![s, s].drop_last() =~= seq![s]);
    assert(seq![s].drop_last() =~= Seq::<ShapeType>::empty());
    assert(reconcile_spec(kind, Seq::<ShapeType>::empty()) == Seq::<MovingShapeObject>::empty());
    match parse_color_spec(s.color@) {
        None => {},
        Some(c) => {
            assert(reconcile_spec(kind, seq![s]) =~= seq![remote_shape_spec(kind, c, s)]);
            assert(find_color(seq![remote_shape_spec(kind, c, s)], c) == Some(0int));
            assert(reconcile_spec(kind, seq![s, s]) =~= seq![remote_shape_spec(kind, c, s)]);
        },
    }
}

/// Newest wins: two samples for the same key, in order `a` then `b`,
/// reconcile to `b`'s shape alone, exactly as if only `b` had arrived.
pub proof fn lemma_reconcile_newest_wins(kind: ShapeKind, a: ShapeType, b: ShapeType)
    requires
        a.color@ == b.color@,
    ensures
        reconcile_spec(kind, seq![a, b]) == reconcile_spec(kind, seq![b]),
{
    assert(seq![a, b].drop_last() =~= seq![a]);
    assert(seq![a].drop_last() =~= Seq::<ShapeType>::empty());
    assert(seq![b].drop_last() =~= Seq::<ShapeType>::empty());
    assert(reconcile_spec(kind, Seq::<ShapeType>::empty()) == Seq::<MovingShapeObject>::empty());
    match parse_color_spec(b.color@) {
        None => {
            assert(reconcile_spec(kind, seq![a]) == Seq::<MovingShapeObject>::empty());
            assert(reconcile_spec(kind, seq![b]) == Seq::<MovingShapeObject>::empty());
        },
        Some(c) => {
            assert(reconcile_spec(kind, seq![a]) =~= seq![remote_shape_spec(kind, c, a)]);
            assert(find_color(seq![remote_shape_spec(kind, c, a)], c) == Some(0int));
            assert(reconcile_spec(kind, seq![a, b]) =~= seq![remote_shape_spec(kind, c, b)]);
            assert(reconcile_spec(kind, seq![b]) =~= seq![remote_shape_spec(kind, c, b)]);
        },
    }
}

} // verus!
