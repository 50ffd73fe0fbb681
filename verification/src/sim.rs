//! The demo's coordination core: the publish registry, the subscribed
//! topics, and the once-per-frame step that reconciles inbound samples,
//! advances every local shape, and emits the combined render list.
//!
//! The cadences are fixed: a background scheduler pass every
//! `PUBLISH_PERIOD_MS`, and a repaint requested every
//! `FRAME_INTERVAL_MS` whether or not input arrives. Both contexts
//! share the registry under one lock held by the caller; everything
//! here is single-threaded logic over plain values.

use vstd::prelude::*;
use crate::motion::{DT_LIMIT_MS, MovingShapeObject, Vec2, moved_shape, valid_rect};
use crate::reconcile::{reconcile, reconcile_spec};
use crate::registry::{PublishRegistry, ShapeWriter};
use crate::shapes::{Color, Reliability, ShapeKind, ShapeType};

verus! {

/// The background scheduler's fixed send period, in milliseconds.
pub const PUBLISH_PERIOD_MS: u64 = 25;

/// The bounded repaint delay guaranteeing a minimum frame rate.
pub const FRAME_INTERVAL_MS: u64 = 40;

/// How many samples per instance the inbound channels retain.
pub const HISTORY_DEPTH: u32 = 1;

pub const AREA_WIDTH: i64 = 235;

pub const AREA_HEIGHT: i64 = 265;

pub const INITIAL_X: i64 = 100;

pub const INITIAL_Y: i64 = 80;

pub const INITIAL_SIZE: i64 = 30;

pub const INITIAL_VEL_X: i64 = 30;

pub const INITIAL_VEL_Y: i64 = 20;

/// The fixed logical simulation area every frame is computed in.
pub open spec fn area_rect() -> Vec2 {
    Vec2 { x: AREA_WIDTH, y: AREA_HEIGHT }
}

/// One subscribed topic: the shape kind the topic name denotes, and the
/// delivery mode its input channel was created with.
#[derive(Clone, Copy, Debug, PartialEq, Eq, Structural)]
pub struct InboundTopic {
    pub kind: ShapeKind,
    pub reliability: Reliability,
}

/// The shape a user publish action starts with.
pub open spec fn initial_shape_spec(kind: ShapeKind, color: Color) -> MovingShapeObject {
    MovingShapeObject {
        kind,
        color,
        position: Vec2 { x: INITIAL_X, y: INITIAL_Y },
        size: INITIAL_SIZE,
        velocity: Vec2 { x: INITIAL_VEL_X, y: INITIAL_VEL_Y },
    }
}

/// The elapsed time one frame advances by: never negative, capped at
/// the integrator's limit.
pub open spec fn frame_dt(last_ms: u64, now_ms: u64) -> int {
    if now_ms < last_ms {
        0
    } else if now_ms - last_ms > DT_LIMIT_MS {
        DT_LIMIT_MS as int
    } else {
        now_ms - last_ms
    }
}

/// The remote half of a render list: each topic's drained samples
/// reconciled, concatenated in topic order.
pub open spec fn remote_render_spec(
    topics: Seq<InboundTopic>,
    samples: Seq<Vec<ShapeType>>,
) -> Seq<MovingShapeObject>
    decreases topics.len(),
{
    if topics.len() == 0 || samples.len() == 0 {
        Seq::empty()
    } else {
        remote_render_spec(topics.drop_last(), samples.drop_last()) + reconcile_spec(
            topics.last().kind,
            samples.last()@,
        )
    }
}

/// The local half of a render list: every registry shape after one
/// integrator step.
pub open spec fn advanced_shapes(
    entries: Seq<ShapeWriter>,
    rect: Vec2,
    dt_ms: int,
) -> Seq<MovingShapeObject> {
    Seq::new(entries.len(), |i: int| moved_shape(entries[i].shape, rect, dt_ms))
}

/// The coordination state shared by the foreground render loop and the
/// background publish scheduler; the caller guards it with one lock.
pub struct Simulation {
    pub registry: PublishRegistry,
    pub topics: Vec<InboundTopic>,
    pub last_time_ms: u64,
}

impl Simulation {
    pub open spec fn well_formed(&self) -> bool {
        self.registry.well_formed()
    }

    /// Runtime check of `well_formed`, for callers outside the verified
    /// world that must test it before relying on a contract.
    pub fn is_well_formed(&self) -> (b: bool)
        ensures
            b == self.well_formed(),
    {
        self.registry.is_well_formed()
    }

    pub fn new() -> (r: Simulation)
        ensures
            r.registry@ == Seq::<ShapeWriter>::empty(),
            r.topics@ == Seq::<InboundTopic>::empty(),
            r.last_time_ms == 0,
            r.well_formed(),
    {
        Simulation { registry: PublishRegistry::new(), topics: Vec::new(), last_time_ms: 0 }
    }

    /// The user asked to publish: pair a fresh output-channel handle
    /// with the initial shape of that kind and color, and append the
    /// entry; nothing else moves.
    pub fn publish(&mut self, handle: u64, kind: ShapeKind, color: Color)
        requires
            old(self).well_formed(),
        ensures
            final(self).registry@ == old(self).registry@.push(
                (ShapeWriter { handle, shape: initial_shape_spec(kind, color) }),
            ),
            final(self).topics@ == old(self).topics@,
            final(self).last_time_ms == old(self).last_time_ms,
            final(self).well_formed(),
    {
        let shape = MovingShapeObject {
            kind,
            color,
            position: Vec2 { x: INITIAL_X, y: INITIAL_Y },
            size: INITIAL_SIZE,
            velocity: Vec2 { x: INITIAL_VEL_X, y: INITIAL_VEL_Y },
        };
        self.registry.append(ShapeWriter { handle, shape });
    }

    /// The user asked to subscribe: remember the topic; the caller
    /// creates the matching input channel at the same index.
    pub fn subscribe(&mut self, kind: ShapeKind, reliability: Reliability)
        requires
            old(self).well_formed(),
        ensures
            final(self).topics@ == old(self).topics@.push(
                (InboundTopic { kind, reliability }),
            ),
            final(self).registry@ == old(self).registry@,
            final(self).last_time_ms == old(self).last_time_ms,
            final(self).well_formed(),
    {
        self.topics.push(InboundTopic { kind, reliability });
    }

    /// One display frame: reconcile the samples drained from each
    /// subscribed topic (one vector per topic, in topic order), advance
    /// every local shape by the time elapsed since the previous frame,
    /// and return remote shapes followed by the advanced local shapes.
    pub fn frame(&mut self, now_ms: u64, inbound: Vec<Vec<ShapeType>>) -> (r: Vec<
        MovingShapeObject,
    >)
        requires
            old(self).well_formed(),
            inbound@.len() == old(self).topics@.len(),
        ensures
            final(self).topics@ == old(self).topics@,
            final(self).last_time_ms == now_ms,
            final(self).well_formed(),
            final(self).registry@.len() == old(self).registry@.len(),
            forall|i: int|
                0 <= i < old(self).registry@.len() ==> {
                    &&& (#[trigger] final(self).registry@[i]).handle == old(self).registry@[i].handle
                    &&& final(self).registry@[i].shape == moved_shape(
                        old(self).registry@[i].shape,
                        area_rect(),
                        frame_dt(old(self).last_time_ms, now_ms),
                    )
                },
            r@ == remote_render_spec(old(self).topics@, inbound@) + advanced_shapes(
                old(self).registry@,
                area_rect(),
                frame_dt(old(self).last_time_ms, now_ms),
            ),
    {
        let dt_ms: u64 = if now_ms < self.last_time_ms {
            0
        } else if now_ms - self.last_time_ms > DT_LIMIT_MS {
            DT_LIMIT_MS
        } else {
            now_ms - self.last_time_ms
        };
        assert(dt_ms as int == frame_dt(self.last_time_ms, now_ms));
        self.last_time_ms = now_ms;

        let mut render: Vec<MovingShapeObject> = Vec::new();
        let mut t: usize = 0;
        while t < self.topics.len()
            invariant
                t <= self.topics@.len(),
                inbound@.len() == self.topics@.len(),
                self.topics@ == old(self).topics@,
                self.registry == old(self).registry,
                render@ == remote_render_spec(
                    self.topics@.take(t as int),
                    inbound@.take(t as int),
                ),
            decreases self.topics@.len() - t,
        {
            let mut part = reconcile(self.topics[t].kind, &inbound[t]);
            render.append(&mut part);
            proof {
                assert(self.topics@.take(t + 1 as int).drop_last() =~= self.topics@.take(t as int));
                assert(inbound@.take(t + 1 as int).drop_last() =~= inbound@.take(t as int));
                assert(self.topics@.take(t + 1 as int).last() == self.topics@[t as int]);
                assert(inbound@.take(t + 1 as int).last() == inbound@[t as int]);
            }
            t += 1;
        }
        proof {
            assert(self.topics@.take(self.topics@.len() as int) =~= self.topics@);
            assert(inbound@.take(self.topics@.len() as int) =~= inbound@);
        }

        let rect = Vec2 { x: AREA_WIDTH, y: AREA_HEIGHT };
        assert(valid_rect(rect));
        self.registry.advance_all(rect, dt_ms);
        let mut locals = self.registry.shapes();
        render.append(&mut locals);
        proof {
            assert(self.registry@.map_values(|w: ShapeWriter| w.shape) =~= advanced_shapes(
                old(self).registry@,
                area_rect(),
                dt_ms as int,
            ));
        }
        render
    }
}

} // verus!
