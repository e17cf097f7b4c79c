//! The decisions of the reconnecting server-sent-event subscription: the
//! stream URLs, the query and resume header of each connection attempt, which
//! events a session subscription passes on, and the reaction of the
//! subscription loop to each thing that happens on the stream.

use std::time::Duration;
use backon::{BackoffBuilder, ExponentialBackoff, ExponentialBuilder};
use vstd::prelude::*;
use vstd::string::StringExecFns;
use crate::text::{opt_text, owned};
use crate::types::event::Event;
use crate::types::session::pairs_text;

verus! {

/// Declares `backon::ExponentialBuilder` to the verifier as an opaque type.
#[verifier::external_type_specification]
#[verifier::external_body]
pub struct ExExponentialBuilder(ExponentialBuilder);

/// Declares `backon::ExponentialBackoff` to the verifier as an opaque type.
#[verifier::external_type_specification]
#[verifier::external_body]
pub struct ExExponentialBackoff(ExponentialBackoff);

/// The length of a duration in nanoseconds (`Duration::as_nanos`).
pub uninterp spec fn duration_nanos(d: Duration) -> nat;

/// `Duration::from_millis`: the duration of `ms` milliseconds, that is
/// `ms * 1_000_000` nanoseconds.
#[verifier::external_body]
fn duration_from_millis(ms: u64) -> (d: Duration)
    ensures
        duration_nanos(d) == ms * 1_000_000,
{
    Duration::from_millis(ms)
}

/// The smaller of two natural numbers.
pub open spec fn nat_min(a: nat, b: nat) -> nat {
    if a <= b { a } else { b }
}

/// What the builder chain `ExponentialBuilder::default().with_min_delay(min)
/// .with_max_delay(max).with_jitter().without_max_times()` returns for the
/// two delays.
pub uninterp spec fn jittered_builder(min: Duration, max: Duration) -> ExponentialBuilder;

/// The number of delays that the backoffs built from a builder yield before
/// they are spent: its `max_times`, or `usize::MAX` when it has none.
pub uninterp spec fn builder_max_draws(b: ExponentialBuilder) -> nat;

/// Whether a builder has the factor 2, a maximum delay, and no total-delay
/// limit.
pub uninterp spec fn builder_capped_doubling(b: ExponentialBuilder) -> bool;

/// A builder's minimum delay, in nanoseconds.
pub uninterp spec fn builder_min_nanos(b: ExponentialBuilder) -> nat;

/// A builder's maximum delay, in nanoseconds.
pub uninterp spec fn builder_max_nanos(b: ExponentialBuilder) -> nat;

/// The number of delays a backoff still yields before it is spent
/// (`max_times`, or `usize::MAX` when it has none, less the attempts made
/// so far).
pub uninterp spec fn draws_left(b: ExponentialBackoff) -> nat;

/// Whether a backoff has the factor 2, a maximum delay, and no total-delay
/// limit.
pub uninterp spec fn backoff_capped_doubling(b: ExponentialBackoff) -> bool;

/// A backoff's minimum delay, in nanoseconds.
pub uninterp spec fn backoff_min_nanos(b: ExponentialBackoff) -> nat;

/// A backoff's maximum delay, in nanoseconds.
pub uninterp spec fn backoff_max_nanos(b: ExponentialBackoff) -> nat;

/// A backoff's current base delay (its delay before jitter), in
/// nanoseconds; `None` before the first delay is drawn.
pub uninterp spec fn backoff_base_nanos(b: ExponentialBackoff) -> Option<nat>;

/// backon's doubling of a base delay (`saturating_mul(d, 2.0)`, computed in
/// single precision and saturating at `Duration::MAX`), for a delay of `n`
/// nanoseconds, in nanoseconds.
pub uninterp spec fn doubled_nanos(n: nat) -> nat;

/// The base delay that follows the base `c` below the maximum `max`: doubled
/// and capped at `max` while `c` is below `max`, and `max` from then on.
pub open spec fn grown_base(c: nat, max: nat) -> nat {
    if c < max {
        nat_min(doubled_nanos(c), max)
    } else {
        max
    }
}

/// The base delay of the `k`-th delay of a sequence (counting from 1) with
/// minimum `min` and maximum `max`: `min` first, then grown by `grown_base`.
pub open spec fn scheduled_base(k: nat, min: nat, max: nat) -> nat
    decreases k,
{
    if k <= 1 {
        min
    } else {
        grown_base(scheduled_base((k - 1) as nat, min, max), max)
    }
}

/// The base delay of a sequence after `k` delays were drawn: none before the
/// first, then the `k`-th scheduled base.
pub open spec fn base_after(k: nat, min: nat, max: nat) -> Option<nat> {
    if k == 0 {
        None
    } else {
        Some(scheduled_base(k, min, max))
    }
}

/// The growth of the base delays is capped: from the second delay on, every
/// base is at most the maximum, and once a base reaches the maximum every
/// later base equals it.
pub proof fn lemma_scheduled_base_capped(j: nat, k: nat, min: nat, max: nat)
    requires
        1 <= j <= k,
    ensures
        k >= 2 ==> scheduled_base(k, min, max) <= max,
        scheduled_base(j, min, max) >= max ==> scheduled_base(k + 1, min, max) == max,
    decreases k,
{
    if j < k {
        lemma_scheduled_base_capped(j, (k - 1) as nat, min, max);
    }
}

/// Whether a delay of `d` nanoseconds is a jittered form of the base `c`:
/// at least `c`, and at most twice `c` plus the rounding slack of backon's
/// single-precision jitter (a millionth of `c` and a nanosecond).
pub open spec fn jittered_from(d: nat, c: nat) -> bool {
    c <= d && d <= 2 * c + c / 1_000_000 + 1
}

/// The builder `ExponentialBuilder::default().with_min_delay(min)
/// .with_max_delay(max).with_jitter().without_max_times()`: the default
/// factor 2 and no total-delay limit, first delay `min`, growth capped at
/// `max`, random jitter, and no limit on the number of attempts (a backoff
/// built from it yields `usize::MAX` delays).
#[verifier::external_body]
fn jittered_backoff_builder(min: Duration, max: Duration) -> (b: ExponentialBuilder)
    ensures
        b == jittered_builder(min, max),
        builder_max_draws(b) == usize::MAX,
        builder_capped_doubling(b),
        builder_min_nanos(b) == duration_nanos(min),
        builder_max_nanos(b) == duration_nanos(max),
{
    ExponentialBuilder::default().with_min_delay(min).with_max_delay(max).with_jitter().without_max_times()
}

/// `BackoffBuilder::build` of `ExponentialBuilder`: a fresh backoff with the
/// builder's settings and no base delay yet, which yields as many delays as
/// the builder's `max_times`.
#[verifier::external_body]
fn backoff_build(b: &ExponentialBuilder) -> (r: ExponentialBackoff)
    ensures
        draws_left(r) == builder_max_draws(*b),
        backoff_capped_doubling(r) == builder_capped_doubling(*b),
        backoff_min_nanos(r) == builder_min_nanos(*b),
        backoff_max_nanos(r) == builder_max_nanos(*b),
        backoff_base_nanos(r) is None,
{
    b.build()
}

/// `Iterator::next` of `ExponentialBackoff`, for a backoff with factor 2, a
/// maximum delay and no total-delay limit: `None` once the sequence is
/// spent, with nothing changed; otherwise one attempt is counted, the base
/// delay becomes the minimum on the first draw and, after that, the old base
/// doubled and capped at the maximum while it is below the maximum, and the
/// maximum otherwise, and the delay returned is that base plus a random jitter
/// below it. The delay is also at least the smaller of the minimum and
/// maximum delays. With no total-delay limit the call does not panic. How
/// much the random jitter adds is left unsaid.
#[verifier::external_body]
fn backoff_next(b: &mut ExponentialBackoff) -> (r: Option<Duration>)
    requires
        backoff_capped_doubling(*old(b)),
    ensures
        backoff_capped_doubling(*final(b)),
        backoff_min_nanos(*final(b)) == backoff_min_nanos(*old(b)),
        backoff_max_nanos(*final(b)) == backoff_max_nanos(*old(b)),
        draws_left(*old(b)) > 0 ==> r is Some && draws_left(*final(b)) == draws_left(*old(b)) - 1,
        draws_left(*old(b)) == 0 ==> r is None && draws_left(*final(b)) == 0
            && backoff_base_nanos(*final(b)) == backoff_base_nanos(*old(b)),
        draws_left(*old(b)) > 0 ==> backoff_base_nanos(*final(b)) == Some(
            match backoff_base_nanos(*old(b)) {
                None => backoff_min_nanos(*old(b)),
                Some(c) => if c < backoff_max_nanos(*old(b)) {
                    nat_min(doubled_nanos(c), backoff_max_nanos(*old(b)))
                } else {
                    backoff_max_nanos(*old(b))
                },
            },
        ),
        r matches Some(d) ==> (backoff_base_nanos(*final(b)) matches Some(c)
            && jittered_from(duration_nanos(d), c)),
        r matches Some(d) ==> duration_nanos(d) >= nat_min(backoff_min_nanos(*old(b)), backoff_max_nanos(*old(b))),
    no_unwind
{
    b.next()
}

/// Options for SSE subscription.
#[derive(Clone, Copy, Debug)]
pub struct SseOptions {
    /// Channel capacity (default: 256).
    pub capacity: usize,
    /// Initial backoff interval (default: 250ms).
    pub initial_interval: Duration,
    /// Max backoff interval (default: 30s).
    pub max_interval: Duration,
}

impl Default for SseOptions {
    fn default() -> (r: Self)
        ensures
            r.capacity == 256,
            duration_nanos(r.initial_interval) == 250_000_000,
            duration_nanos(r.max_interval) == 30_000_000_000,
    {
        SseOptions {
            capacity: 256,
            initial_interval: duration_from_millis(250),
            max_interval: duration_from_millis(30_000),
        }
    }
}

/// The directory-scoped stream endpoint below a base URL.
pub open spec fn event_url_text(base: Seq<char>) -> Seq<char> {
    base + "/event"@
}

/// The all-directories stream endpoint below a base URL.
pub open spec fn global_event_url_text(base: Seq<char>) -> Seq<char> {
    base + "/global/event"@
}

/// The stream URLs are the base URL followed by `/event` for the
/// directory-scoped stream and by `/global/event` for the stream of all
/// directories; the base is kept as given.
pub proof fn lemma_stream_urls(base: Seq<char>)
    ensures
        event_url_text(base) == base + "/event"@,
        global_event_url_text(base) == base + "/global/event"@,
        event_url_text(base).subrange(0, base.len() as int) == base,
        global_event_url_text(base).subrange(0, base.len() as int) == base,
{
    assert(event_url_text(base).subrange(0, base.len() as int) =~= base);
    assert(global_event_url_text(base).subrange(0, base.len() as int) =~= base);
}

/// URL of the directory-scoped event stream.
pub fn event_url(base_url: &str) -> (r: String)
    ensures
        r@ == event_url_text(base_url@),
{
    let mut u = owned(base_url);
    u.append("/event");
    u
}

/// URL of the event stream of all directories.
pub fn global_event_url(base_url: &str) -> (r: String)
    ensures
        r@ == global_event_url_text(base_url@),
{
    let mut u = owned(base_url);
    u.append("/global/event");
    u
}

/// The query pairs a stream connection sends: on the directory-scoped
/// stream the directory and then the workspace, each when set; the
/// all-directories stream (`global`) takes neither.
pub open spec fn stream_query(global: bool, directory: Option<String>, workspace: Option<String>) -> Seq<(Seq<char>, Seq<char>)> {
    if global {
        Seq::empty()
    } else {
        (match directory {
            Some(d) => seq![("directory"@, d@)],
            None => Seq::empty(),
        }) + (match workspace {
            Some(w) => seq![("workspace"@, w@)],
            None => Seq::empty(),
        })
    }
}

/// Scoping of a stream connection: the all-directories stream is never
/// scoped, whatever directory and workspace the subscriber has; the
/// directory-scoped stream sends the directory when one is set and then the
/// workspace when one is set, and nothing else.
pub proof fn lemma_stream_scoping(directory: Option<String>, workspace: Option<String>)
    ensures
        stream_query(true, directory, workspace).len() == 0,
        directory matches Some(d) ==> (workspace matches Some(w)
            ==> stream_query(false, directory, workspace) == seq![("directory"@, d@), ("workspace"@, w@)]),
        directory matches Some(d) ==> (workspace is None
            ==> stream_query(false, directory, workspace) == seq![("directory"@, d@)]),
        workspace matches Some(w) ==> (directory is None
            ==> stream_query(false, directory, workspace) == seq![("workspace"@, w@)]),
        (directory is None && workspace is None) ==> stream_query(false, directory, workspace).len() == 0,
{
    if let Some(d) = directory {
        if let Some(w) = workspace {
            assert(stream_query(false, directory, workspace) =~= seq![("directory"@, d@), ("workspace"@, w@)]);
        } else {
            assert(stream_query(false, directory, workspace) =~= seq![("directory"@, d@)]);
        }
    } else if let Some(w) = workspace {
        assert(stream_query(false, directory, workspace) =~= seq![("workspace"@, w@)]);
    }
}

/// What one connection attempt to a stream sends besides its URL.
pub struct ConnectPlan {
    /// Query pairs, in order.
    pub query: Vec<(&'static str, String)>,
    /// Value of the `Last-Event-ID` header, when one is sent.
    pub last_event_id: Option<String>,
}

/// Plans a connection attempt to the all-directories stream (`global`) or
/// to the directory-scoped one: the scoping query pairs, and the id of the
/// last event seen so that the server resumes after it.
pub fn connect_plan(global: bool, directory: &Option<String>, workspace: &Option<String>, last_event_id: Option<String>) -> (r: ConnectPlan)
    ensures
        pairs_text(r.query@) == stream_query(global, *directory, *workspace),
        r.query@.len() == stream_query(global, *directory, *workspace).len(),
        r.last_event_id == last_event_id,
{
    let mut query: Vec<(&'static str, String)> = Vec::new();
    if !global {
        if let Some(d) = directory {
            query.push(("directory", d.clone()));
        }
        if let Some(w) = workspace {
            query.push(("workspace", w.clone()));
        }
    }
    assert(pairs_text(query@) =~= stream_query(global, *directory, *workspace));
    ConnectPlan { query, last_event_id }
}

/// Whether a session subscription passes an event on: exactly when the event
/// names that session.
pub fn event_in_session(event: &Event, session_id: &str) -> (r: bool)
    ensures
        r == (event.spec_session_id() == Some(session_id@)),
{
    match event.session_id() {
        Some(s) => crate::text::str_equal(s, session_id),
        None => false,
    }
}

/// What happened on a subscription, as the loop that drives it reports.
pub enum SseInput {
    /// Cancellation of the subscription was observed.
    Cancelled,
    /// The event source could not be created.
    ConnectFailed,
    /// The event source was created and is being read.
    Connected,
    /// The stream reported that the connection opened.
    Opened,
    /// A message arrived with event id `id`; `wanted` tells whether its data
    /// parsed and the subscription's filter accepted it.
    Message {
        /// The message's event id, empty when it has none.
        id: String,
        /// Whether the data parsed and passed the filter.
        wanted: bool,
    },
    /// Handing an event to the receiver failed: the receiver is gone.
    SendFailed,
    /// The stream reported an error.
    StreamError,
    /// The stream ended.
    StreamEnded,
}

/// What the loop is to do next.
pub enum SseAction {
    /// Close the stream, if one is open, and end the subscription.
    Stop,
    /// Keep reading the stream.
    Listen,
    /// Record `record_id` (when present) as the last event id, then either
    /// hand the parsed event to the receiver (`send`) or drop it, and keep
    /// reading.
    Accept {
        /// Event id to record as the last one seen.
        record_id: Option<String>,
        /// Whether to hand the event to the receiver.
        send: bool,
    },
    /// Close the stream when `close`, wait `delay` when present (ending the
    /// subscription if it is cancelled meanwhile), then connect again.
    Reconnect {
        /// Whether to close the stream first.
        close: bool,
        /// How long to wait before the next attempt.
        delay: Option<Duration>,
    },
}

/// The state of a subscription loop: whether it has stopped, and its
/// reconnection delays.
pub struct SseLoop {
    stopped: bool,
    builder: ExponentialBuilder,
    backoff: ExponentialBackoff,
}

impl SseLoop {
    /// The loop's delays come from a capped doubling builder with no limit on
    /// the number of attempts, and the current delay sequence was built from
    /// that builder: its base delay is the one scheduled for the number of
    /// delays drawn so far.
    #[verifier::type_invariant]
    spec fn well_formed(self) -> bool {
        &&& builder_capped_doubling(self.builder)
        &&& backoff_capped_doubling(self.backoff)
        &&& builder_max_draws(self.builder) == usize::MAX
        &&& draws_left(self.backoff) <= usize::MAX
        &&& backoff_min_nanos(self.backoff) == builder_min_nanos(self.builder)
        &&& backoff_max_nanos(self.backoff) == builder_max_nanos(self.builder)
        &&& backoff_base_nanos(self.backoff) == base_after(
            (usize::MAX - draws_left(self.backoff)) as nat,
            builder_min_nanos(self.builder),
            builder_max_nanos(self.builder),
        )
    }

    /// Whether the loop has stopped.
    pub closed spec fn is_stopped(&self) -> bool {
        self.stopped
    }

    /// The builder that the loop's delay sequences are built from.
    pub closed spec fn schedule(&self) -> ExponentialBuilder {
        self.builder
    }

    /// The first base delay of each sequence, in nanoseconds.
    pub open spec fn min_nanos(&self) -> nat {
        builder_min_nanos(self.schedule())
    }

    /// The cap of the base delays, in nanoseconds.
    pub open spec fn max_nanos(&self) -> nat {
        builder_max_nanos(self.schedule())
    }

    /// How many delays the current delay sequence has yielded since it was
    /// started (at creation, and again at each opened connection).
    pub closed spec fn delays_drawn(&self) -> nat {
        (usize::MAX - draws_left(self.backoff)) as nat
    }

    /// A running loop whose reconnection delays start at `opts.initial_interval`,
    /// double up to `opts.max_interval` and carry a random jitter, with no
    /// limit on the number of attempts short of `usize::MAX` and no limit on
    /// their total. The sequence starts again at each opened connection.
    pub fn new(opts: &SseOptions) -> (r: Self)
        ensures
            !r.is_stopped(),
            r.schedule() == jittered_builder(opts.initial_interval, opts.max_interval),
            r.min_nanos() == duration_nanos(opts.initial_interval),
            r.max_nanos() == duration_nanos(opts.max_interval),
            r.delays_drawn() == 0,
    {
        let builder = jittered_backoff_builder(opts.initial_interval, opts.max_interval);
        let backoff = backoff_build(&builder);
        SseLoop { stopped: false, builder, backoff }
    }

    /// Whether the loop has stopped.
    pub fn stopped(&self) -> (r: bool)
        ensures
            r == self.is_stopped(),
    {
        self.stopped
    }

    /// The loop's reaction to what happened on the stream.
    pub fn step(&mut self, input: SseInput) -> (a: SseAction)
        ensures
            old(self).is_stopped() ==> a is Stop && final(self).is_stopped(),
            final(self).schedule() == old(self).schedule(),
            a matches SseAction::Reconnect { delay, .. } ==> {
                &&& (delay is Some <==> old(self).delays_drawn() < usize::MAX)
                &&& final(self).delays_drawn() == (if old(self).delays_drawn() < usize::MAX {
                    old(self).delays_drawn() + 1
                } else {
                    old(self).delays_drawn()
                })
                &&& (delay matches Some(d) ==> jittered_from(
                    duration_nanos(d),
                    scheduled_base(final(self).delays_drawn(), old(self).min_nanos(), old(self).max_nanos()),
                ))
                &&& (delay matches Some(d) ==> duration_nanos(d) >= nat_min(old(self).min_nanos(), old(self).max_nanos()))
            },
            (!old(self).is_stopped() && input is Opened) ==> final(self).delays_drawn() == 0,
            !(a is Reconnect) && !(!old(self).is_stopped() && input is Opened)
                ==> final(self).delays_drawn() == old(self).delays_drawn(),
            !old(self).is_stopped() ==> match input {
                SseInput::Cancelled => a is Stop && final(self).is_stopped(),
                SseInput::SendFailed => a is Stop && final(self).is_stopped(),
                SseInput::ConnectFailed => a matches SseAction::Reconnect { close, .. } && !close
                    && !final(self).is_stopped(),
                SseInput::StreamEnded => a matches SseAction::Reconnect { close, .. } && !close
                    && !final(self).is_stopped(),
                SseInput::StreamError => a matches SseAction::Reconnect { close, .. } && close
                    && !final(self).is_stopped(),
                SseInput::Connected => a is Listen && !final(self).is_stopped(),
                SseInput::Opened => a is Listen && !final(self).is_stopped(),
                SseInput::Message { id, wanted } => {
                    &&& a matches SseAction::Accept { record_id, send }
                    &&& send == wanted
                    &&& (id@.len() == 0 ==> record_id is None)
                    &&& (id@.len() > 0 ==> opt_text(record_id) == Some(id@))
                    &&& !final(self).is_stopped()
                },
            },
    {
        proof {
            use_type_invariant(&*self);
        }
        if self.stopped {
            return SseAction::Stop;
        }
        match input {
            SseInput::Cancelled | SseInput::SendFailed => {
                self.stopped = true;
                SseAction::Stop
            },
            SseInput::ConnectFailed | SseInput::StreamEnded => {
                let delay = backoff_next(&mut self.backoff);
                SseAction::Reconnect { close: false, delay }
            },
            SseInput::StreamError => {
                let delay = backoff_next(&mut self.backoff);
                SseAction::Reconnect { close: true, delay }
            },
            SseInput::Connected => SseAction::Listen,
            SseInput::Opened => {
                self.backoff = backoff_build(&self.builder);
                SseAction::Listen
            },
            SseInput::Message { id, wanted } => {
                let record_id = if id.as_str().unicode_len() == 0 {
                    None
                } else {
                    Some(id)
                };
                SseAction::Accept { record_id, send: wanted }
            },
        }
    }
}

} // verus!
