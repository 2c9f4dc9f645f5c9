//! One activated component: its isolation wrapper, statistics and logs, and
//! the translation of one call into a line for the component and back.
use vstd::prelude::*;
use vstd::string::StringExecFns;
use vstd::utf8::encode_utf8;

use crate::error::{message_of, WorkerError, WorkerErrorKind};
use crate::isolation::{IsolatedProcessWrapper, WrapperState, begin_spec, finish_spec, heartbeat_spec, plan_for, BootPlan, IsolationController};
use crate::logs::{LogPolicy, LogTracker};
use crate::model::{ComponentId, ComponentLog, ComponentRequest, ComponentResponse, ComponentStatus, StatusColor};
use crate::pipe::{has_newline, NEWLINE};
use crate::stats::{
    ascending, buckets_of, durations, pruned, sum_u32, total_bytes, window_cutoff, StatEvent, StatTracker,
};

verus! {

/// Packet and error counters of one network interface.
#[derive(Clone, Copy, Debug)]
pub struct NetworkCounters {
    pub tx_packets: u64,
    pub rx_packets: u64,
    pub tx_errors: u64,
    pub rx_errors: u64,
}

pub open spec fn total_packets(s: Seq<NetworkCounters>) -> nat
    decreases s.len(),
{
    if s.len() == 0 {
        0
    } else {
        total_packets(s.drop_last()) + s.last().tx_packets as nat + s.last().rx_packets as nat
    }
}

pub open spec fn total_errors(s: Seq<NetworkCounters>) -> nat
    decreases s.len(),
{
    if s.len() == 0 {
        0
    } else {
        total_errors(s.drop_last()) + s.last().tx_errors as nat + s.last().rx_errors as nat
    }
}

proof fn lemma_network_bounds(s: Seq<NetworkCounters>)
    ensures
        total_packets(s) <= s.len() * 2 * 0xFFFF_FFFF_FFFF_FFFF,
        total_errors(s) <= s.len() * 2 * 0xFFFF_FFFF_FFFF_FFFF,
    decreases s.len(),
{
    if s.len() > 0 {
        lemma_network_bounds(s.drop_last());
    }
}

/// The node's network error rate as (errors, packets) summed over all
/// interfaces; `None` when no packet was counted, as the rate is then unknown.
/// The sums are exact for up to 2^32 interfaces.
pub fn network_error_totals(interfaces: &Vec<NetworkCounters>) -> (r: Option<(u128, u128)>)
    requires
        interfaces@.len() <= u32::MAX,
    ensures
        total_packets(interfaces@) == 0 <==> r is None,
        r matches Some((errors, packets)) ==> errors == total_errors(interfaces@) && packets == total_packets(
            interfaces@,
        ),
{
    let mut packets: u128 = 0;
    let mut errors: u128 = 0;
    let mut i: usize = 0;
    while i < interfaces.len()
        invariant
            i <= interfaces@.len(),
            interfaces@.len() <= u32::MAX,
            packets == total_packets(interfaces@.take(i as int)),
            errors == total_errors(interfaces@.take(i as int)),
        decreases interfaces@.len() - i,
    {
        let c = interfaces[i];
        proof {
            let prefix = interfaces@.take(i as int);
            lemma_network_bounds(prefix);
            assert(interfaces@.take(i as int + 1).drop_last() =~= prefix);
            assert(i * 2 * 0xFFFF_FFFF_FFFF_FFFF + 2 * 0xFFFF_FFFF_FFFF_FFFF < 0x1_0000_0000_0000_0000_0000_0000_0000_0000)
                by (nonlinear_arith)
                requires
                    0 <= i < 0x1_0000_0000,
            ;
        }
        packets = packets + c.tx_packets as u128 + c.rx_packets as u128;
        errors = errors + c.tx_errors as u128 + c.rx_errors as u128;
        i = i + 1;
    }
    assert(interfaces@.take(i as int) =~= interfaces@);
    if packets == 0 {
        None
    } else {
        Some((errors, packets))
    }
}

/// An HTTP answer: status code and body.
#[derive(Clone, Debug)]
pub struct HttpReply {
    pub status: u16,
    pub body: String,
}

/// `parts` joined with `/` between each two.
pub open spec fn joined(parts: Seq<Seq<char>>) -> Seq<char>
    decreases parts.len(),
{
    if parts.len() == 0 {
        Seq::empty()
    } else if parts.len() == 1 {
        parts[0]
    } else {
        joined(parts.drop_last()) + "/"@ + parts.last()
    }
}

pub fn join_path(parts: &Vec<String>) -> (r: String)
    ensures
        r@ == joined(parts@.map_values(|s: String| s@)),
{
    let ghost views = parts@.map_values(|s: String| s@);
    let mut res = String::new();
    let mut i: usize = 0;
    while i < parts.len()
        invariant
            i <= parts@.len(),
            views == parts@.map_values(|s: String| s@),
            res@ == joined(views.take(i as int)),
        decreases parts@.len() - i,
    {
        if i > 0 {
            res.append("/");
        }
        res.append(parts[i].as_str());
        proof {
            let next = views.take(i as int + 1);
            assert(next.drop_last() =~= views.take(i as int));
            if i == 0 {
                assert(views.take(0) =~= Seq::<Seq<char>>::empty());
            }
        }
        i = i + 1;
    }
    assert(views.take(i as int) =~= views);
    res
}

/// The request a component receives for one call.
pub fn component_request(
    component_method: &str,
    http_verb: &str,
    additional_path_components: &Vec<String>,
    query: String,
    body: String,
) -> (r: ComponentRequest)
    ensures
        r.called_function@ == component_method@,
        r.http_method@ == http_verb@,
        r.path@ == joined(additional_path_components@.map_values(|s: String| s@)),
        r.request_arguments@ == query@,
        r.request_body@ == body@,
{
    ComponentRequest {
        called_function: String::from_str(component_method),
        http_method: String::from_str(http_verb),
        path: join_path(additional_path_components),
        request_arguments: query,
        request_body: body,
    }
}

pub open spec fn is_ascii_alphanumeric(c: char) -> bool {
    ('0' <= c && c <= '9') || ('a' <= c && c <= 'z') || ('A' <= c && c <= 'Z')
}

/// What percent-encoding `s`, escaping every byte but ASCII letters and digits, gives.
pub uninterp spec fn percent_encoded(s: Seq<char>) -> Seq<char>;

/// Relies on percent_encoding::utf8_percent_encode with NON_ALPHANUMERIC: each
/// byte that is not an ASCII letter or digit becomes `%` and two hex digits, so
/// the result holds ASCII letters, digits and `%` alone.
#[verifier::external_body]
fn percent_encode_text(s: &str) -> (r: String)
    ensures
        r@ == percent_encoded(s@),
        forall|i: int| 0 <= i < r@.len() ==> is_ascii_alphanumeric(#[trigger] r@[i]) || r@[i] == '%',
{
    percent_encoding::utf8_percent_encode(s, percent_encoding::NON_ALPHANUMERIC).to_string()
}

/// What percent-decoding `s` gives, when the decoded bytes are UTF-8.
pub uninterp spec fn percent_decoded(s: Seq<char>) -> Option<Seq<char>>;

/// Relies on percent_encoding::percent_decode_str and PercentDecode::decode_utf8:
/// the decoded text, or nothing when the decoded bytes are not UTF-8.
#[verifier::external_body]
fn percent_decode_text(s: &str) -> (r: Option<String>)
    ensures
        r matches Some(t) ==> percent_decoded(s@) == Some(t@),
        r is None ==> percent_decoded(s@) is None,
{
    percent_encoding::percent_decode_str(s).decode_utf8().ok().map(|t| t.into_owned())
}

proof fn lemma_low_bits(v: u32)
    by (bit_vector)
    requires
        v <= 0x7F,
    ensures
        v & 0x7F == v,
{
}

proof fn lemma_ascii_bytes(s: Seq<char>)
    requires
        forall|i: int| 0 <= i < s.len() ==> is_ascii_alphanumeric(#[trigger] s[i]) || s[i] == '%',
    ensures
        !has_newline(encode_utf8(s)),
    decreases s.len(),
{
    if s.len() > 0 {
        let rest = s.drop_first();
        assert forall|i: int| 0 <= i < rest.len() implies is_ascii_alphanumeric(#[trigger] rest[i]) || rest[i]
            == '%' by {
            assert(rest[i] == s[i + 1]);
        }
        lemma_ascii_bytes(rest);
        let c0 = s[0] as u32;
        assert(is_ascii_alphanumeric(s[0]) || s[0] == '%');
        assert(c0 <= 0x7F && c0 != 10);
        lemma_low_bits(c0);
        let head = seq![(c0 & 0x7F) as u8];
        assert(encode_utf8(s) == head + encode_utf8(rest));
        assert(head[0] != NEWLINE);
        assert(!has_newline(encode_utf8(s))) by {
            if has_newline(encode_utf8(s)) {
                let i = choose|i: int| 0 <= i < encode_utf8(s).len() && encode_utf8(s)[i] == NEWLINE;
                if i > 0 {
                    assert(encode_utf8(rest)[i - 1] == NEWLINE);
                }
            }
        }
    }
}

/// The line sent to a component for the JSON text of a request: the text
/// percent-encoded, as bytes. It never holds a newline.
pub fn request_line(json: &str) -> (r: Vec<u8>)
    ensures
        r@ == encode_utf8(percent_encoded(json@)),
        !has_newline(r@),
{
    let encoded = percent_encode_text(json);
    proof {
        lemma_ascii_bytes(encoded@);
    }
    vstd::slice::slice_to_vec(encoded.as_str().as_bytes())
}

/// The JSON text of a component's answer line; one whose decoded bytes are
/// not UTF-8 is an error.
pub fn response_text(line: &str) -> (r: Result<String, WorkerError>)
    ensures
        r is Ok <==> percent_decoded(line@) is Some,
        r matches Ok(t) ==> percent_decoded(line@) == Some(t@),
        r matches Err(e) ==> e.kind is InvalidUtf8,
{
    match percent_decode_text(line) {
        Some(t) => Ok(t),
        None => Err(WorkerError::new(WorkerErrorKind::InvalidUtf8)),
    }
}

/// The colour shown for a call that ended with HTTP `status`: green for
/// success and redirection, red for server errors (543 among them), orange
/// for everything else.
pub open spec fn color_of_status(status: u16) -> StatusColor {
    if 200 <= status <= 399 {
        StatusColor::Green
    } else if (500 <= status <= 599) || status == 543 {
        StatusColor::Red
    } else {
        StatusColor::Orange
    }
}

pub fn classify_status(status: u16) -> (r: StatusColor)
    ensures
        r == color_of_status(status),
{
    if 200 <= status && status <= 399 {
        StatusColor::Green
    } else if (500 <= status && status <= 599) || status == 543 {
        StatusColor::Red
    } else {
        StatusColor::Orange
    }
}

/// The colour of a finished call: a failed call is red.
pub fn call_color(call: &Result<HttpReply, WorkerError>) -> (r: StatusColor)
    ensures
        call matches Ok(reply) ==> r == color_of_status(reply.status),
        call is Err ==> r == StatusColor::Red,
{
    match call {
        Ok(reply) => classify_status(reply.status),
        Err(_) => StatusColor::Red,
    }
}

/// Milliseconds from `start` to `now`, zero if the clock reads earlier.
pub open spec fn elapsed(start: u64, now: u64) -> nat {
    if now >= start {
        (now - start) as nat
    } else {
        0
    }
}

/// The reply for a component's answer, when it can be given: the status must
/// be a valid HTTP status, and a non-empty error message replaces the body.
pub open spec fn reply_spec(resp: ComponentResponse) -> Option<(u16, Seq<char>)> {
    if !(100 <= resp.http_response_code <= 999) {
        None
    } else if resp.error_message matches Some(m) && m@.len() > 0 {
        Some((resp.http_response_code as u16, resp.error_message->Some_0@))
    } else {
        Some((resp.http_response_code as u16, resp.response_body@))
    }
}

/// The length of a text in UTF-8 bytes, as a `usize` (which it always fits).
pub open spec fn byte_len(s: Seq<char>) -> usize {
    encode_utf8(s).len() as usize
}

/// Whether a successful answer is recorded in the statistics: only one
/// without an error message, whose duration and size fit in 32 bits.
pub open spec fn records_stats(resp: ComponentResponse, start: u64, now: u64) -> bool {
    &&& reply_spec(resp) is Some
    &&& !(resp.error_message matches Some(m) && m@.len() > 0)
    &&& elapsed(start, now) <= u32::MAX
    &&& byte_len(resp.response_body@) <= u32::MAX
}

/// The record of a call of `resp`, started at `start` and answered at `now`.
pub open spec fn event_of(resp: ComponentResponse, start: u64, now: u64) -> StatEvent {
    StatEvent {
        at_ms: now,
        duration_ms: elapsed(start, now) as u32,
        response_bytes: byte_len(resp.response_body@) as u32,
    }
}

/// One activated component. `H` is the type of its running process and `F`
/// that of its log capture file.
pub struct ComponentHandle<H, F> {
    id: ComponentId,
    component_process_wrapper: IsolatedProcessWrapper<H>,
    log_tracker: LogTracker<F>,
    stat_tracker: StatTracker,
}

impl<H, F> ComponentHandle<H, F> {
    pub closed spec fn id_spec(&self) -> ComponentId {
        self.id
    }

    pub closed spec fn wrapper_state(&self) -> WrapperState<H> {
        self.component_process_wrapper.state()
    }

    pub closed spec fn controller_spec(&self) -> IsolationController {
        self.component_process_wrapper.controller()
    }

    pub closed spec fn stats_events(&self) -> Seq<StatEvent> {
        self.stat_tracker.events()
    }

    pub closed spec fn stats_window(&self) -> u64 {
        self.stat_tracker.window_ms()
    }

    pub closed spec fn color_spec(&self) -> Option<StatusColor> {
        self.stat_tracker.last_color()
    }

    pub closed spec fn log_generation(&self) -> u64 {
        self.log_tracker.generation_spec()
    }

    pub closed spec fn log_policy(&self) -> LogPolicy<F> {
        self.log_tracker.policy_spec()
    }

    /// A handle for a newly activated component, with an empty five-minute
    /// statistics window and logs discarded at `log_generation`.
    pub fn new(id: ComponentId, wrapper: IsolatedProcessWrapper<H>, log_generation: u64) -> (r: Self)
        ensures
            r.id_spec() == id,
            r.wrapper_state() == wrapper.state(),
            r.stats_events() == Seq::<StatEvent>::empty(),
            r.stats_window() == crate::stats::DEFAULT_STAT_WINDOW_MS,
            r.color_spec() == None::<StatusColor>,
            r.log_generation() == log_generation,
            r.log_policy() == LogPolicy::<F>::Ignore,
    {
        ComponentHandle {
            id,
            component_process_wrapper: wrapper,
            log_tracker: LogTracker::new(log_generation),
            stat_tracker: StatTracker::new(),
        }
    }

    pub fn id(&self) -> (r: &ComponentId)
        ensures
            *r == self.id_spec(),
    {
        &self.id
    }

    /// Starts a query at `now_ms`: the running process, or `None` if one is to be booted.
    pub fn begin_query(&mut self, now_ms: u64) -> (r: Option<H>)
        ensures
            (final(self).wrapper_state(), r) == begin_spec(old(self).wrapper_state(), now_ms),
            final(self).stats_events() == old(self).stats_events(),
            final(self).id_spec() == old(self).id_spec(),
    {
        self.component_process_wrapper.begin_query(now_ms)
    }

    /// Whether a boot takes a pooled container, whose own pipe is then used.
    pub fn boots_in_pool(&self) -> (r: bool)
        ensures
            r == self.controller_spec() is ContainerizedScript,
    {
        self.component_process_wrapper.boots_in_pool()
    }

    /// The boot of this component's backend for a pipe at `c_in` / `c_out`.
    pub fn boot_plan(&self, c_in: &str, c_out: &str) -> (r: BootPlan)
        ensures
            plan_for(self.controller_spec(), c_in@, c_out@, r),
    {
        self.component_process_wrapper.boot_plan(c_in, c_out)
    }

    /// Ends a query on process `h`; a failed one drops the process.
    pub fn finish_query(&mut self, h: H, outcome: Result<String, WorkerError>) -> (r: Result<String, WorkerError>)
        ensures
            final(self).wrapper_state() == finish_spec(old(self).wrapper_state(), h, outcome is Ok),
            final(self).stats_events() == old(self).stats_events(),
            final(self).id_spec() == old(self).id_spec(),
            r == outcome,
    {
        self.component_process_wrapper.finish_query(h, outcome)
    }

    /// Installs a capture policy for a freshly booted process.
    pub fn create_log_policy(&mut self, backing_file: F, generation: u64) -> (r: std::sync::Arc<LogPolicy<F>>)
        ensures
            *r == LogPolicy::ToFile(backing_file),
            final(self).log_generation() == generation,
            final(self).wrapper_state() == old(self).wrapper_state(),
            final(self).id_spec() == old(self).id_spec(),
    {
        self.log_tracker.create_associated_policy(backing_file, generation)
    }

    pub fn log_tracker(&self) -> (r: &LogTracker<F>)
        ensures
            r.generation_spec() == self.log_generation(),
            r.policy_spec() == self.log_policy(),
    {
        &self.log_tracker
    }

    /// Turns a component's answer to a call started at `started_ms` into the
    /// HTTP reply, and records the call in the statistics at `now_ms`.
    pub fn finish_call(&mut self, response: ComponentResponse, started_ms: u64, now_ms: u64) -> (r: Result<
        HttpReply,
        WorkerError,
    >)
        ensures
            r is Ok <==> reply_spec(response) is Some && ((response.error_message matches Some(m) && m@.len()
                > 0) || records_stats(response, started_ms, now_ms)),
            r matches Ok(reply) ==> reply_spec(response) == Some((reply.status, reply.body@)),
            r matches Err(e) ==> e.kind is IntegerConversion,
            records_stats(response, started_ms, now_ms) ==> final(self).stats_events() == pruned(
                old(self).stats_events().push(event_of(response, started_ms, now_ms)),
                window_cutoff(now_ms, old(self).stats_window()),
            ),
            !records_stats(response, started_ms, now_ms) ==> final(self).stats_events() == old(
                self,
            ).stats_events(),
            final(self).stats_window() == old(self).stats_window(),
            final(self).wrapper_state() == old(self).wrapper_state(),
            final(self).color_spec() == old(self).color_spec(),
            final(self).id_spec() == old(self).id_spec(),
    {
        if response.http_response_code < 100 || response.http_response_code > 999 {
            return Err(WorkerError::new(WorkerErrorKind::IntegerConversion));
        }
        let resp_code = response.http_response_code as u16;
        if let Some(m) = &response.error_message {
            if m.as_str().unicode_len() > 0 {
                return Ok(HttpReply { status: resp_code, body: m.clone() });
            }
        }
        let response_bytes = response.response_body.as_str().len();
        let duration: u64 = if now_ms >= started_ms {
            now_ms - started_ms
        } else {
            0
        };
        if duration > u32::MAX as u64 || response_bytes > u32::MAX as usize {
            return Err(WorkerError::new(WorkerErrorKind::IntegerConversion));
        }
        self.stat_tracker.add_stat_event(now_ms, duration as u32, response_bytes as u32);
        Ok(HttpReply { status: resp_code, body: response.response_body })
    }

    /// Stores the colour of the latest call.
    pub fn set_color(&mut self, color: StatusColor)
        ensures
            final(self).color_spec() == Some(color),
            final(self).stats_events() == old(self).stats_events(),
            final(self).wrapper_state() == old(self).wrapper_state(),
            final(self).id_spec() == old(self).id_spec(),
    {
        self.stat_tracker.set_color(color)
    }

    pub fn color(&self) -> (r: Option<StatusColor>)
        ensures
            r == self.color_spec(),
    {
        self.stat_tracker.color()
    }

    /// The component's id and statistics at `now_ms`.
    pub fn get_component_status(&mut self, now_ms: u64) -> (r: ComponentStatus)
        ensures
            r.id.path@ == old(self).id_spec().path@,
            r.id.hash@ == old(self).id_spec().hash@,
            final(self).stats_events() == pruned(old(self).stats_events(), window_cutoff(now_ms, old(self).stats_window())),
            r.component_stats.stat_window_seconds == old(self).stats_window() / 1000,
            r.component_stats.hits == final(self).stats_events().len(),
            r.component_stats.total_response_bytes == total_bytes(final(self).stats_events()),
            r.component_stats.total_ms_latency == sum_u32(durations(final(self).stats_events())),
            exists|sorted: Seq<u32>|
                {
                    &&& sorted.to_multiset() == durations(final(self).stats_events()).to_multiset()
                    &&& sorted.len() == final(self).stats_events().len()
                    &&& ascending(sorted)
                    &&& r.component_stats.ms_latency_percentiles@ == buckets_of(sorted)
                },
            final(self).wrapper_state() == old(self).wrapper_state(),
            final(self).id_spec() == old(self).id_spec(),
    {
        let component_stats = self.stat_tracker.get_component_stats(now_ms);
        ComponentStatus { id: self.id.duplicate(), component_stats }
    }

    /// The log entry of this component, given what reading its capture
    /// policy gave: the text (`None` when output is discarded) or an error.
    pub fn get_component_log(&self, contents: Result<Option<String>, WorkerError>) -> (r: ComponentLog)
        ensures
            r.id.path@ == self.id_spec().path@,
            r.id.hash@ == self.id_spec().hash@,
            r.dedup_number == self.log_generation(),
            contents matches Ok(l) ==> r.log == l && r.error is None,
            contents matches Err(e) ==> r.log is None && (r.error matches Some(m) && m@
                == "Failure to get logs for component "@ + self.id_spec().path.user@ + "/"@
                + self.id_spec().path.repo@ + ", err "@ + message_of(e.kind)),
    {
        let dedup_number = self.log_tracker.generation();
        match contents {
            Ok(log) => ComponentLog { id: self.id.duplicate(), dedup_number, log, error: None },
            Err(e) => {
                let mut m = String::from_str("Failure to get logs for component ");
                m.append(self.id.path.user.as_str());
                m.append("/");
                m.append(self.id.path.repo.as_str());
                m.append(", err ");
                m.append(e.message().as_str());
                ComponentLog { id: self.id.duplicate(), dedup_number, log: None, error: Some(m) }
            },
        }
    }

    /// Called periodically: stops the process if idle too long.
    pub fn heartbeat(&mut self, now_ms: u64)
        ensures
            final(self).wrapper_state() == heartbeat_spec(old(self).wrapper_state(), now_ms),
            final(self).stats_events() == old(self).stats_events(),
            final(self).id_spec() == old(self).id_spec(),
    {
        self.component_process_wrapper.heartbeat(now_ms)
    }
}

} // verus!
