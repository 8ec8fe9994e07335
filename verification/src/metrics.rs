use vstd::prelude::*;

verus! {

/// The kind of inbound query; metrics are labeled by it.
#[derive(Clone, Copy, PartialEq, Eq, Structural, Debug)]
pub enum QueryKind {
    Ongoing,
    EventDetail,
}

/// The process-wide metrics model: one request counter and one list of
/// latency observations (in milliseconds) per query kind. The core only
/// ever writes through this sink; an outside exporter may mirror it.
pub struct MetricsSink {
    pub ongoing_requests: u64,
    pub event_requests: u64,
    pub ongoing_latency_ms: Vec<u64>,
    pub event_latency_ms: Vec<u64>,
}

/// One request of the kind was counted, saturating rather than failing,
/// and nothing else in the sink moved.
pub open spec fn spec_counted(pre: MetricsSink, post: MetricsSink, kind: QueryKind) -> bool {
    &&& post.ongoing_requests == if kind is Ongoing {
        if pre.ongoing_requests < u64::MAX {
            pre.ongoing_requests + 1
        } else {
            pre.ongoing_requests as int
        }
    } else {
        pre.ongoing_requests as int
    }
    &&& post.event_requests == if kind is EventDetail {
        if pre.event_requests < u64::MAX {
            pre.event_requests + 1
        } else {
            pre.event_requests as int
        }
    } else {
        pre.event_requests as int
    }
    &&& post.ongoing_latency_ms == pre.ongoing_latency_ms
    &&& post.event_latency_ms == pre.event_latency_ms
}

/// A fresh sink with both counters registered at zero and no observations.
pub fn init_metrics() -> (r: MetricsSink)
    ensures
        r.ongoing_requests == 0,
        r.event_requests == 0,
        r.ongoing_latency_ms@ == Seq::<u64>::empty(),
        r.event_latency_ms@ == Seq::<u64>::empty(),
{
    MetricsSink {
        ongoing_requests: 0,
        event_requests: 0,
        ongoing_latency_ms: Vec::new(),
        event_latency_ms: Vec::new(),
    }
}

impl MetricsSink {
    /// Count one request of the kind. Recording is fire-and-forget: the
    /// counter saturates rather than fail, and never blocks a response.
    pub fn increment_counter(&mut self, kind: QueryKind)
        ensures
            spec_counted(*old(self), *final(self), kind),
    {
        match kind {
            QueryKind::Ongoing => {
                if self.ongoing_requests < u64::MAX {
                    self.ongoing_requests = self.ongoing_requests + 1;
                }
            },
            QueryKind::EventDetail => {
                if self.event_requests < u64::MAX {
                    self.event_requests = self.event_requests + 1;
                }
            },
        }
    }

    /// Record one latency observation, in milliseconds, for the kind.
    pub fn observe_latency(&mut self, kind: QueryKind, elapsed_ms: u64)
        ensures
            kind is Ongoing ==> final(self).ongoing_latency_ms@ == old(
                self,
            ).ongoing_latency_ms@.push(elapsed_ms) && final(self).event_latency_ms == old(
                self,
            ).event_latency_ms,
            kind is EventDetail ==> final(self).event_latency_ms@ == old(
                self,
            ).event_latency_ms@.push(elapsed_ms) && final(self).ongoing_latency_ms == old(
                self,
            ).ongoing_latency_ms,
            final(self).ongoing_requests == old(self).ongoing_requests,
            final(self).event_requests == old(self).event_requests,
    {
        match kind {
            QueryKind::Ongoing => self.ongoing_latency_ms.push(elapsed_ms),
            QueryKind::EventDetail => self.event_latency_ms.push(elapsed_ms),
        }
    }
}

} // verus!
