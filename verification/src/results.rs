//! What the operations on plain values give back.
//!
//! Each law takes one call of an operation and relates what came out to what went
//! in, field by field.

use vstd::prelude::*;

use crate::json;
use crate::protocols::{
    Annotated, AnnotationValue, FinishReason, LLMEngineOutput, PreprocessedRequest, RequestPhase,
    SessionControl, WorkerWithDpRank,
};
use crate::sticky::revisions::AffinityRevisions;
use crate::sticky::router::{AffinityBinding, AffinityBindingToken, AffinityEntry};
use crate::text;
use crate::time::{Clock, Duration, Instant};

verus! {

/// A span of whole seconds lasts a billion nanoseconds for each of them.
pub proof fn law_span_results(secs: u64, span: Duration, other: Duration, nanos: u128)
    requires
        call_ensures(Duration::from_secs, (secs,), span),
        call_ensures(Duration::as_nanos, (other,), nanos),
    ensures
        span.secs == secs,
        span.subsec_nanos == 0,
        nanos == other.secs * 1000000000 + other.subsec_nanos,
{
}

/// A point in time moves by exactly the span that is added to it.
pub proof fn law_plus_result(now: Instant, span: Duration, later: Instant)
    requires
        now.in_range(),
        call_ensures(Instant::plus, (now, span), later),
    ensures
        later.nanos == now.nanos + span.secs * 1000000000 + span.subsec_nanos,
{
}

/// Less than a span has passed since a point that does not lie ahead exactly before
/// that point moved by the span; since a point that lies ahead, nothing has passed.
pub proof fn law_within_result(now: Instant, span: Duration, earlier: Instant, recent: bool)
    requires
        call_ensures(Instant::within, (now, span, earlier), recent),
    ensures
        earlier.nanos <= now.nanos ==> (recent <==> now.nanos < earlier.nanos + span.secs
            * 1000000000 + span.subsec_nanos),
        earlier.nanos > now.nanos ==> (recent <==> span.secs > 0 || span.subsec_nanos > 0),
{
}

/// A clock reads the time from its epoch to some moment of the standard library's
/// clock.
pub proof fn law_clock_result(clock: &Clock, now: Instant)
    requires
        call_ensures(Clock::now, (clock,), now),
    ensures
        now.nanos <= 18446744073709551615999999999,
        exists|moment: std::time::Instant|
            now.nanos == #[trigger] crate::time::instant_gap(moment, clock.epoch()),
{
}

/// A number in decimal notation is made of digits, reads back as the number, and has
/// no leading zero.
pub proof fn law_decimal_result(n: u64, written: String)
    requires
        call_ensures(text::decimal, (n,), written),
    ensures
        written@.len() > 0,
        forall|i: int| 0 <= i < written@.len() ==> '0' <= #[trigger] written@[i] <= '9',
        text::digits_value(written@) == n,
        n >= 10 ==> written@[0] != '0',
        n < 10 ==> written@.len() == 1 && written@[0] as int == '0' as int + n,
{
    lemma_decimal(n as nat);
}

proof fn lemma_decimal(n: nat)
    ensures
        ({
            let written = text::decimal_text(n);
            &&& written.len() > 0
            &&& forall|i: int| 0 <= i < written.len() ==> '0' <= #[trigger] written[i] <= '9'
            &&& text::digits_value(written) == n
            &&& n > 0 ==> written[0] != '0'
            &&& n < 10 ==> written.len() == 1 && written[0] as int == '0' as int + n
        }),
    decreases n,
{
    let written = text::decimal_text(n);
    if n < 10 {
        assert(written.drop_last() =~= Seq::<char>::empty());
        assert(text::digits_value(written.drop_last()) == 0);
    } else {
        lemma_decimal(n / 10);
        assert(written.drop_last() =~= text::decimal_text(n / 10));
        assert(written[0] == text::decimal_text(n / 10)[0]);
    }
}

/// The value of a row of digits grows by one digit as decimal notation has it.
pub proof fn law_digits_value_by_digit(digits: Seq<char>, last: char)
    ensures
        text::digits_value(Seq::<char>::empty()) == 0,
        '0' <= last <= '9' ==> text::digits_value(digits.push(last)) == 10 * text::digits_value(
            digits,
        ) + (last as int - '0' as int),
{
    assert(digits.push(last).drop_last() =~= digits);
}

/// A text is a number exactly if it is a row of digits, behind a plus sign or not.
pub proof fn law_parsed_number(digits: Seq<char>)
    requires
        digits.len() > 0,
        forall|i: int| 0 <= i < digits.len() ==> '0' <= #[trigger] digits[i] <= '9',
    ensures
        text::parsed_number(digits) == Some(text::digits_value(digits)),
        text::parsed_number(seq!['+'] + digits) == Some(text::digits_value(digits)),
{
    assert((seq!['+'] + digits).skip(1) =~= digits);
    assert(digits[0] != '+');
}

/// A text without digits, or with a character that is none behind its first, is no
/// number.
pub proof fn law_no_number(written: Seq<char>, i: int)
    requires
        written.len() == 0 || (0 < i < written.len() && !('0' <= written[i] <= '9')) || (
        written.len() == 1 && !('0' <= written[0] <= '9')),
    ensures
        text::parsed_number(written) is None,
{
    if text::parsed_number(written) is Some {
        if written.len() > 0 && written[0] == '+' {
            let digits = written.skip(1);
            assert(digits.len() > 0);
            assert(text::is_digit(digits[i - 1]));
        } else {
            assert(text::is_digit(written[if 0 < i < written.len() {
                i
            } else {
                0
            }]));
            assert(text::is_digit(written[0]));
        }
    }
}

/// A flag is set exactly where the object has that member and the member is `true`.
pub proof fn law_json_results(value: &serde_json::Value, key: &str, flag: bool, truth: bool)
    requires
        call_ensures(json::json_flag, (value, key), flag),
        call_ensures(json::json_is_true, (value,), truth),
    ensures
        flag <==> json::json_members(*value).contains_key(key@) && json::json_boolean(
            json::json_members(*value)[key@],
        ) == Some(true),
        truth <==> json::json_boolean(*value) == Some(true),
{
}

/// What a request says of itself: its session control, its phase, which is that of
/// its tracker or else the aggregated one, whether it only asks, and whether it
/// carries a lifecycle action.
pub proof fn law_request_results(
    request: &PreprocessedRequest,
    control: Option<&SessionControl>,
    phase: RequestPhase,
    asks: bool,
    acts: bool,
)
    requires
        call_ensures(PreprocessedRequest::session_control, (request,), control),
        call_ensures(PreprocessedRequest::phase, (request,), phase),
        call_ensures(PreprocessedRequest::is_query_only, (request,), asks),
        call_ensures(PreprocessedRequest::has_session_action, (request,), acts),
    ensures
        control is Some <==> request.routing is Some && request.routing->0.session_control is Some,
        control is Some ==> *control->0 == request.routing->0.session_control->0,
        request.tracker_phase is Some ==> phase == request.tracker_phase->0,
        request.tracker_phase is None ==> phase == RequestPhase::Aggregated,
        asks <==> request.query_instance_id is Some,
        acts <==> control is Some && control->0.action is Some,
{
}

/// Frames and ranks hold what they are made of.
pub proof fn law_frame_results(
    worker_id: u64,
    dp_rank: u32,
    rank: WorkerWithDpRank,
    data: LLMEngineOutput,
    from_data: Annotated,
    message: String,
    from_error: Annotated,
    name: &str,
    value: AnnotationValue,
    annotation: Annotated,
    cancelled: LLMEngineOutput,
)
    requires
        call_ensures(WorkerWithDpRank::new, (worker_id, dp_rank), rank),
        call_ensures(Annotated::from_data, (data,), from_data),
        call_ensures(Annotated::from_error, (message,), from_error),
        call_ensures(Annotated::from_annotation, (name, value), annotation),
        call_ensures(LLMEngineOutput::cancelled, (), cancelled),
    ensures
        rank.worker_id == worker_id && rank.dp_rank == dp_rank,
        from_data.data == Some(data),
        from_data.event is None && from_data.annotation is None,
        !from_data.is_error && from_data.error is None,
        from_error.data is None && from_error.annotation is None,
        from_error.event is Some && from_error.event->0@ == "error"@,
        from_error.is_error && from_error.error == Some(message),
        annotation.data is None && annotation.annotation == Some(value),
        annotation.event is Some && annotation.event->0@ == name@,
        !annotation.is_error && annotation.error is None,
        cancelled.finish_reason == Some(FinishReason::Cancelled),
        cancelled.extra_args is None && cancelled.disaggregated_params is None
            && cancelled.routing_data is None,
{
}

/// The counter starts at one, and gives out one number after the other.
pub proof fn law_revision_results(
    fresh: AffinityRevisions,
    revisions: &mut AffinityRevisions,
    revision: u64,
)
    requires
        call_ensures(AffinityRevisions::new, (), fresh),
        call_ensures(AffinityRevisions::take, (revisions,), revision),
    ensures
        fresh.next() == 1,
        revision == old(revisions).next(),
        revision < u64::MAX ==> final(revisions).next() == revision + 1,
        revision == u64::MAX ==> final(revisions).next() == 0,
{
}

/// An entry tells its binding, its token and whether its deadline is still ahead.
pub proof fn law_entry_results(
    entry: &AffinityEntry,
    now: Instant,
    binding: AffinityBinding,
    token: AffinityBindingToken,
    alive: bool,
)
    requires
        call_ensures(AffinityEntry::binding, (entry,), binding),
        call_ensures(AffinityEntry::token, (entry,), token),
        call_ensures(AffinityEntry::is_alive, (entry, now), alive),
    ensures
        binding.worker == entry.worker,
        binding.kind == entry.kind,
        token.binding == binding,
        token.revision == entry.revision,
        alive <==> now.nanos < entry.expires_at.nanos,
{
}

} // verus!
