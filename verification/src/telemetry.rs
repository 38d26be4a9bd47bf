//! Performance telemetry: span timing and an explicitly constructed event
//! sink with batching and sampling. Time and randomness are handed in as
//! plain values; shipping a drained batch is the caller's business.

use vstd::prelude::*;
use crate::classify::opt_view;

verus! {

/// Sink configuration. The sample rate is carried in basis points
/// (ten-thousandths): 10000 keeps every event.
#[derive(Clone, Debug)]
pub struct TelemetryConfig {
    pub endpoint: String,
    pub auth_token: Option<String>,
    pub batch_size: usize,
    pub flush_interval_secs: u64,
    pub sample_rate_bp: u32,
}

/// One telemetry event.
#[derive(Clone, Debug)]
pub struct TelemetryEvent {
    pub timestamp: String,
    pub service: String,
    pub version: String,
    pub event_type: String,
    pub span_name: String,
    pub duration_ms: u64,
    pub namespace: Option<String>,
    pub endpoint: Option<String>,
    pub status: Option<String>,
    pub error: Option<String>,
    pub items_count: Option<u64>,
    pub extra: Vec<(String, String)>,
}

#[verifier::ext_equal]
pub struct EventRow {
    pub timestamp: Seq<char>,
    pub service: Seq<char>,
    pub version: Seq<char>,
    pub event_type: Seq<char>,
    pub span_name: Seq<char>,
    pub duration_ms: int,
    pub namespace: Option<Seq<char>>,
    pub endpoint: Option<Seq<char>>,
    pub status: Option<Seq<char>>,
    pub error: Option<Seq<char>>,
    pub items_count: Option<int>,
    pub extra: Seq<(Seq<char>, Seq<char>)>,
}

pub open spec fn event_row_of(e: TelemetryEvent) -> EventRow {
    EventRow {
        timestamp: e.timestamp@,
        service: e.service@,
        version: e.version@,
        event_type: e.event_type@,
        span_name: e.span_name@,
        duration_ms: e.duration_ms as int,
        namespace: opt_view(e.namespace),
        endpoint: opt_view(e.endpoint),
        status: opt_view(e.status),
        error: opt_view(e.error),
        items_count: match e.items_count {
            Some(v) => Some(v as int),
            None => None,
        },
        extra: e.extra@.map_values(|kv: (String, String)| (kv.0@, kv.1@)),
    }
}

/// Elapsed milliseconds, zero under clock skew.
pub open spec fn spec_elapsed(start: int, now: int) -> int {
    if now > start {
        now - start
    } else {
        0
    }
}

// ---------------------------------------------------------------------------
// Span timing
// ---------------------------------------------------------------------------

/// Times one named span of work.
#[derive(Clone, Debug)]
pub struct SpanTimer {
    pub span_name: String,
    pub start_ms: u64,
    pub namespace: Option<String>,
    pub endpoint: Option<String>,
}

/// The event a finished span yields.
pub open spec fn spec_span_event(
    t: SpanTimer,
    status: Seq<char>,
    error: Option<Seq<char>>,
    items_count: Option<int>,
    now_ms: int,
    timestamp: Seq<char>,
) -> EventRow {
    EventRow {
        timestamp,
        service: "kusanagi"@,
        version: "0.1.0"@,
        event_type: "apm"@,
        span_name: t.span_name@,
        duration_ms: spec_elapsed(t.start_ms as int, now_ms),
        namespace: opt_view(t.namespace),
        endpoint: opt_view(t.endpoint),
        status: Some(status),
        error,
        items_count,
        extra: Seq::<(Seq<char>, Seq<char>)>::empty(),
    }
}

impl SpanTimer {
    /// Starts timing a span at `now_ms`.
    pub fn new(span_name: &str, now_ms: u64) -> (t: SpanTimer)
        ensures
            t.span_name@ == span_name@,
            t.start_ms == now_ms,
            t.namespace is None,
            t.endpoint is None,
    {
        SpanTimer {
            span_name: String::from_str(span_name),
            start_ms: now_ms,
            namespace: None,
            endpoint: None,
        }
    }

    /// Tags the span with a namespace.
    pub fn with_namespace(self, ns: Option<&str>) -> (t: SpanTimer)
        ensures
            t.span_name == self.span_name,
            t.start_ms == self.start_ms,
            t.endpoint == self.endpoint,
            match ns {
                Some(v) => t.namespace is Some && t.namespace->0@ == v@,
                None => t.namespace is None,
            },
    {
        SpanTimer {
            namespace: match ns {
                Some(v) => Some(String::from_str(v)),
                None => None,
            },
            ..self
        }
    }

    /// Tags the span with the endpoint it served.
    pub fn with_endpoint(self, endpoint: &str) -> (t: SpanTimer)
        ensures
            t.span_name == self.span_name,
            t.start_ms == self.start_ms,
            t.namespace == self.namespace,
            t.endpoint is Some && t.endpoint->0@ == endpoint@,
    {
        SpanTimer { endpoint: Some(String::from_str(endpoint)), ..self }
    }

    /// Closes the span with a status and an optional item count, yielding
    /// the event to queue.
    pub fn record(self, status: &str, items_count: Option<u64>, now_ms: u64, timestamp: &str)
        -> (e: TelemetryEvent)
        ensures
            event_row_of(e) == spec_span_event(
                self,
                status@,
                None,
                match items_count {
                    Some(v) => Some(v as int),
                    None => None,
                },
                now_ms as int,
                timestamp@,
            ),
    {
        TelemetryEvent {
            timestamp: String::from_str(timestamp),
            service: String::from_str("kusanagi"),
            version: String::from_str("0.1.0"),
            event_type: String::from_str("apm"),
            span_name: self.span_name,
            duration_ms: elapsed_ms(self.start_ms, now_ms),
            namespace: self.namespace,
            endpoint: self.endpoint,
            status: Some(String::from_str(status)),
            error: None,
            items_count,
            extra: Vec::new(),
        }
    }

    /// Closes the span as failed, yielding the event to queue.
    pub fn record_error(self, error: &str, now_ms: u64, timestamp: &str) -> (e: TelemetryEvent)
        ensures
            event_row_of(e) == spec_span_event(
                self,
                "error"@,
                Some(error@),
                None,
                now_ms as int,
                timestamp@,
            ),
    {
        TelemetryEvent {
            timestamp: String::from_str(timestamp),
            service: String::from_str("kusanagi"),
            version: String::from_str("0.1.0"),
            event_type: String::from_str("apm"),
            span_name: self.span_name,
            duration_ms: elapsed_ms(self.start_ms, now_ms),
            namespace: self.namespace,
            endpoint: self.endpoint,
            status: Some(String::from_str("error")),
            error: Some(String::from_str(error)),
            items_count: None,
            extra: Vec::new(),
        }
    }
}

fn elapsed_ms(start: u64, now: u64) -> (d: u64)
    ensures
        d as int == spec_elapsed(start as int, now as int),
{
    if now > start {
        now - start
    } else {
        0
    }
}

/// Starts a new span timer at `now_ms`.
pub fn start_span(name: &str, now_ms: u64) -> (t: SpanTimer)
    ensures
        t.span_name@ == name@,
        t.start_ms == now_ms,
        t.namespace is None,
        t.endpoint is None,
{
    SpanTimer::new(name, now_ms)
}

// ---------------------------------------------------------------------------
// The sink
// ---------------------------------------------------------------------------

/// An explicitly constructed telemetry sink: an on/off switch and a
/// bounded batch of queued events.
#[derive(Debug)]
pub struct TelemetrySink {
    pub enabled: bool,
    pub config: TelemetryConfig,
    pub queue: Vec<TelemetryEvent>,
}

pub open spec fn queue_rows(q: Seq<TelemetryEvent>) -> Seq<EventRow> {
    q.map_values(|e: TelemetryEvent| event_row_of(e))
}

impl TelemetrySink {
    /// A fresh sink: enabled, nothing queued.
    pub fn new(config: TelemetryConfig) -> (s: TelemetrySink)
        ensures
            s.enabled,
            s.config == config,
            s.queue@.len() == 0,
    {
        TelemetrySink { enabled: true, config, queue: Vec::new() }
    }

    /// Whether events are currently recorded.
    pub fn is_enabled(&self) -> (r: bool)
        ensures
            r == self.enabled,
    {
        self.enabled
    }

    /// Switches recording on or off; queued events stay put.
    pub fn set_enabled(&mut self, enabled: bool)
        ensures
            final(self).enabled == enabled,
            final(self).config == old(self).config,
            final(self).queue == old(self).queue,
    {
        self.enabled = enabled;
    }

    /// Queues one event. `draw_bp` is a random draw in basis points from
    /// the caller; when the configured sample rate is below 10000 and the
    /// draw falls at or above it, the event is sampled away. A full batch
    /// is drained and handed back for shipping.
    pub fn queue_event(&mut self, event: TelemetryEvent, draw_bp: u32) -> (flush: Option<
        Vec<TelemetryEvent>,
    >)
        ensures
            final(self).enabled == old(self).enabled,
            final(self).config == old(self).config,
            (!old(self).enabled || (old(self).config.sample_rate_bp < 10000 && draw_bp
                >= old(self).config.sample_rate_bp)) ==> final(self).queue == old(self).queue
                && flush is None,
            (old(self).enabled && !(old(self).config.sample_rate_bp < 10000 && draw_bp
                >= old(self).config.sample_rate_bp)) ==> {
                let grown = queue_rows(old(self).queue@).push(event_row_of(event));
                if old(self).queue@.len() + 1 >= old(self).config.batch_size {
                    &&& flush is Some
                    &&& queue_rows(flush->0@) == grown
                    &&& final(self).queue@.len() == 0
                } else {
                    &&& flush is None
                    &&& queue_rows(final(self).queue@) == grown
                }
            },
    {
        if !self.enabled {
            return None;
        }
        if self.config.sample_rate_bp < 10000 && draw_bp >= self.config.sample_rate_bp {
            return None;
        }
        let ghost before = self.queue@;
        self.queue.push(event);
        proof {
            assert(queue_rows(self.queue@) =~= queue_rows(before).push(
                event_row_of(self.queue@.last()),
            ));
        }
        if self.queue.len() >= self.config.batch_size {
            let mut drained: Vec<TelemetryEvent> = Vec::new();
            core::mem::swap(&mut drained, &mut self.queue);
            Some(drained)
        } else {
            None
        }
    }

    /// Drains everything queued, for a forced flush.
    pub fn force_flush(&mut self) -> (drained: Vec<TelemetryEvent>)
        ensures
            final(self).enabled == old(self).enabled,
            final(self).config == old(self).config,
            final(self).queue@.len() == 0,
            drained == old(self).queue,
    {
        let mut drained: Vec<TelemetryEvent> = Vec::new();
        core::mem::swap(&mut drained, &mut self.queue);
        drained
    }
}

} // verus!
