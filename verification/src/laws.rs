//! What holds of every run of the session machine.

use crate::echo::{expected_echo_reply, lemma_echo_reply_is_unique};
use crate::firmware::chunk_count_of;
use crate::frame::{is_terminal, status_of, CommandKind};
use crate::info::{app_offset_of, info_decodable};
use crate::machine::{
    begin_echo, begin_erase, begin_info, begin_program, begin_reboot, on_event, run, ActionView,
    Event, Phase, Session, DATA_TIMEOUT_MS, ERASE_TIMEOUT_MS, INFO_TIMEOUT_MS,
};
use crate::status::{error_of, BootloaderError, Failure};
use vstd::prelude::*;

verus! {

/// A run answers every event with one action.
pub proof fn lemma_run_length(s: Session, events: Seq<Event>)
    ensures
        run(s, events).1.len() == events.len(),
    decreases events.len(),
{
    if events.len() > 0 {
        lemma_run_length(s, events.drop_last());
    }
}

/// A run over one more event is the run so far, followed by the transition
/// for that event.
pub proof fn lemma_run_step(s: Session, events: Seq<Event>, event: Event)
    ensures
        run(s, events.push(event)).0 == on_event(run(s, events).0, event).0,
        run(s, events.push(event)).1 == run(s, events).1.push(
            on_event(run(s, events).0, event).1,
        ),
{
    assert(events.push(event).drop_last() =~= events);
}

/// A settled session stays as it is whatever is reported to it, and asks
/// for nothing on the transport: once an operation has succeeded or was
/// given up, no read and no write follows until the next one is started.
pub proof fn lemma_settled_is_final(s: Session, events: Seq<Event>)
    requires
        s.settled(),
    ensures
        run(s, events).0 == s,
        run(s, events).1.len() == events.len(),
        forall|i: int|
            0 <= i < events.len() ==> !(#[trigger] run(s, events).1[i]).touches_transport(),
    decreases events.len(),
{
    if events.len() > 0 {
        lemma_settled_is_final(s, events.drop_last());
    }
}

/// Every frame that the session asks to be written is nine bytes long and
/// opens with the endpoint id of its protocol version, and every read that
/// it asks for has a deadline.
pub proof fn lemma_requests_are_well_formed(s: Session, event: Event)
    ensures
        on_event(s, event).1 matches ActionView::Exchange { frame, timeout_ms } ==> frame.len() == 9
            && frame[0] == s.version.spec_endpoint() && 0 < timeout_ms <= 400,
        on_event(s, event).1 matches ActionView::Listen { timeout_ms } ==> 0 < timeout_ms <= 400,
{
}

/// The Echo self-test passes for exactly one response: the terminal frame
/// with status zero and the sequence number of the request that carries the
/// payload of the request from its second byte on.  Any other response
/// fails it as a protocol failure.
pub proof fn lemma_echo_passes_once(s: Session, payload: Seq<u8>, frame: [u8; 8])
    ensures
        frame@ == expected_echo_reply(begin_echo(s, payload).1->Exchange_frame) ==> on_event(
            begin_echo(s, payload).0,
            Event::Received(frame),
        ).1 == ActionView::Done,
        frame@ != expected_echo_reply(begin_echo(s, payload).1->Exchange_frame) ==> on_event(
            begin_echo(s, payload).0,
            Event::Received(frame),
        ).1 == ActionView::Abort(Failure::Protocol),
{
    let request = begin_echo(s, payload).0.echo_request();
    lemma_echo_reply_is_unique(request, frame@);
}

/// A frame with a non-zero status that arrives while the device erases ends
/// the operation at once with the device error that the status stands for,
/// and that error is never `NoError`.  Whatever is reported afterwards, the
/// session stays failed and asks for no further read or write.
pub proof fn lemma_erase_failure_halts(s: Session, frame: [u8; 8], later: Seq<Event>)
    requires
        s.phase == Phase::Erasing,
        status_of(frame@) != 0,
    ensures
        error_of(status_of(frame@)) != BootloaderError::NoError,
        on_event(s, Event::Received(frame)) == s.fail(
            Failure::Device(error_of(status_of(frame@))),
        ),
        run(on_event(s, Event::Received(frame)).0, later).0 == on_event(
            s,
            Event::Received(frame),
        ).0,
        forall|i: int|
            0 <= i < later.len() ==> !(#[trigger] run(
                on_event(s, Event::Received(frame)).0,
                later,
            ).1[i]).touches_transport(),
{
    lemma_settled_is_final(on_event(s, Event::Received(frame)).0, later);
}

/// While the device erases, the session keeps reading as long as frames
/// with status zero and a frame type other than the terminal one arrive,
/// and the first terminal frame with status zero completes the operation.
pub proof fn lemma_erase_polls_until_terminal(s: Session, frames: Seq<Event>)
    requires
        frames.len() > 0,
        forall|i: int| 0 <= i < frames.len() ==> #[trigger] frames[i] is Received,
        forall|i: int|
            0 <= i < frames.len() ==> status_of((#[trigger] frames[i])->Received_0@) == 0,
        forall|i: int|
            0 <= i < frames.len() - 1 ==> !is_terminal((#[trigger] frames[i])->Received_0@),
        is_terminal(frames.last()->Received_0@),
    ensures
        run(begin_erase(s).0, frames).0 == s.at(Phase::Done),
        run(begin_erase(s).0, frames).1.len() == frames.len(),
        forall|i: int|
            0 <= i < frames.len() - 1 ==> #[trigger] run(begin_erase(s).0, frames).1[i] == (
            ActionView::Listen { timeout_ms: ERASE_TIMEOUT_MS }),
        run(begin_erase(s).0, frames).1.last() == ActionView::Done,
{
    lemma_erase_keeps_polling(begin_erase(s).0, frames.drop_last());
}

/// Frames with status zero that are not terminal leave an erasing session
/// as it is and are each answered with one more read.
proof fn lemma_erase_keeps_polling(s: Session, frames: Seq<Event>)
    requires
        s.phase == Phase::Erasing,
        forall|i: int| 0 <= i < frames.len() ==> #[trigger] frames[i] is Received,
        forall|i: int|
            0 <= i < frames.len() ==> status_of((#[trigger] frames[i])->Received_0@) == 0,
        forall|i: int| 0 <= i < frames.len() ==> !is_terminal((#[trigger] frames[i])->Received_0@),
    ensures
        run(s, frames).0 == s,
        run(s, frames).1.len() == frames.len(),
        forall|i: int|
            0 <= i < frames.len() ==> #[trigger] run(s, frames).1[i] == (ActionView::Listen {
                timeout_ms: ERASE_TIMEOUT_MS,
            }),
    decreases frames.len(),
{
    if frames.len() > 0 {
        lemma_erase_keeps_polling(s, frames.drop_last());
    }
}

/// A read that times out after the Reboot request counts as success, not
/// as a timeout: the device has left the bus to restart.
pub proof fn lemma_reboot_timeout_is_success(s: Session)
    ensures
        s.phase == Phase::Rebooting ==> on_event(s, Event::TimedOut) == (
            s.at(Phase::Done),
            ActionView::Done,
        ),
        s.version.spec_supports(CommandKind::Reboot) ==> begin_reboot(s).0.phase
            == Phase::Rebooting && on_event(begin_reboot(s).0, Event::TimedOut) == (
            s.at(Phase::Done),
            ActionView::Done,
        ),
{
}

/// An Info operation sends its request at most twice.  After the throwaway
/// read, one timeout is answered with the same request again, and a second
/// timeout gives the operation up.
pub proof fn lemma_info_retries_once(s: Session, drained: Event)
    requires
        !(drained is TransportFailed),
    ensures
        run(begin_info(s).0, seq![drained, Event::TimedOut, Event::TimedOut]).0 == s.at(
            Phase::Failed(Failure::Timeout),
        ),
        run(begin_info(s).0, seq![drained, Event::TimedOut, Event::TimedOut]).1 == seq![
            ActionView::Exchange { frame: s.info_request(), timeout_ms: INFO_TIMEOUT_MS },
            ActionView::Exchange { frame: s.info_request(), timeout_ms: INFO_TIMEOUT_MS },
            ActionView::Abort(Failure::Timeout),
        ],
{
    let start = begin_info(s).0;
    let one = seq![drained];
    let two = seq![drained, Event::TimedOut];
    let three = seq![drained, Event::TimedOut, Event::TimedOut];
    assert(two =~= one.push(Event::TimedOut));
    assert(three =~= two.push(Event::TimedOut));
    lemma_run_step(start, Seq::empty(), drained);
    lemma_run_step(start, one, Event::TimedOut);
    lemma_run_step(start, two, Event::TimedOut);
}

/// The application offset changes only when an Info response with a
/// geometry that can be held arrives, and then it becomes what the
/// response reports.  The protocol version never changes.
pub proof fn lemma_offset_set_by_info_only(s: Session, event: Event)
    ensures
        on_event(s, event).0.version == s.version,
        on_event(s, event).0.app_offset != s.app_offset ==> s.phase is InfoQuery && event
            is Received && info_decodable(event->Received_0@) && on_event(s, event).0.app_offset
            == app_offset_of(event->Received_0@),
{
}

/// The ProgramData request for a chunk opens with the endpoint id and the
/// command byte with sequence number 1, whichever chunk it is.  Byte `2 + k`
/// of the request for chunk `chunk` is byte `7 * chunk + k` of the image,
/// or `0xff` past the end of the image.
pub proof fn lemma_data_request_bytes(s: Session, chunk: nat, k: int)
    requires
        0 <= k < 7,
    ensures
        s.data_request(chunk).len() == 9,
        s.data_request(chunk)[0] == s.endpoint(),
        s.data_request(chunk)[1] == 0x14,
        7 * chunk + k < s.firmware.len() ==> s.data_request(chunk)[2 + k] == s.firmware[7 * chunk
            + k],
        7 * chunk + k >= s.firmware.len() ==> s.data_request(chunk)[2 + k] == 0xff,
{
}

/// A response with a non-zero status during a Program operation, to the
/// StartProgramming request or to any chunk, ends the operation at once
/// with the device error that the status stands for, and that error is
/// never `NoError`.  Whatever is reported afterwards, the session stays
/// failed and asks for no further read or write: no later chunk is sent.
pub proof fn lemma_program_failure_halts(s: Session, frame: [u8; 8], later: Seq<Event>)
    requires
        s.phase is ProgramStarted || s.phase is Streaming,
        status_of(frame@) != 0,
    ensures
        error_of(status_of(frame@)) != BootloaderError::NoError,
        on_event(s, Event::Received(frame)) == s.fail(
            Failure::Device(error_of(status_of(frame@))),
        ),
        run(on_event(s, Event::Received(frame)).0, later).0 == on_event(
            s,
            Event::Received(frame),
        ).0,
        forall|i: int|
            0 <= i < later.len() ==> !(#[trigger] run(
                on_event(s, Event::Received(frame)).0,
                later,
            ).1[i]).touches_transport(),
{
    lemma_settled_is_final(on_event(s, Event::Received(frame)).0, later);
}

/// A Program operation sends nothing after a timeout either: an empty read
/// after the StartProgramming request or after any chunk gives the whole
/// upload up.
pub proof fn lemma_program_timeout_halts(s: Session, later: Seq<Event>)
    requires
        s.phase is ProgramStarted || s.phase is Streaming,
    ensures
        on_event(s, Event::TimedOut) == s.fail(Failure::Timeout),
        run(on_event(s, Event::TimedOut).0, later).0 == on_event(s, Event::TimedOut).0,
        forall|i: int|
            0 <= i < later.len() ==> !(#[trigger] run(on_event(s, Event::TimedOut).0, later).1[i])
                .touches_transport(),
{
    lemma_settled_is_final(on_event(s, Event::TimedOut).0, later);
}

/// Where a Program operation stands after the first `count` responses, if
/// all of them arrive with status zero.
proof fn lemma_program_progress(s: Session, firmware: Seq<u8>, acks: Seq<Event>, count: nat)
    requires
        s.version.spec_supports(CommandKind::StartProgramming),
        s.version.spec_supports(CommandKind::ProgramData),
        firmware.len() <= usize::MAX,
        1 <= count <= acks.len(),
        acks.len() == chunk_count_of(firmware.len()) + 1,
        forall|i: int| 0 <= i < acks.len() ==> #[trigger] acks[i] is Received,
        forall|i: int| 0 <= i < acks.len() ==> status_of((#[trigger] acks[i])->Received_0@) == 0,
    ensures
        run(begin_program(s, firmware).0, acks.take(count as int)).1.len() == count,
        count < acks.len() ==> run(begin_program(s, firmware).0, acks.take(count as int)).0
            == begin_program(s, firmware).0.at(Phase::Streaming { chunk: (count - 1) as usize }),
        count == acks.len() ==> run(begin_program(s, firmware).0, acks.take(count as int)).0
            == begin_program(s, firmware).0.at(Phase::Done),
        forall|j: int|
            0 <= j < count && j < acks.len() - 1 ==> #[trigger] run(
                begin_program(s, firmware).0,
                acks.take(count as int),
            ).1[j] == (ActionView::Exchange {
                frame: begin_program(s, firmware).0.data_request(j as nat),
                timeout_ms: DATA_TIMEOUT_MS,
            }),
        count == acks.len() ==> run(begin_program(s, firmware).0, acks.take(count as int)).1[count
            - 1] == ActionView::Done,
    decreases count,
{
    assert(acks.take(count as int).drop_last() =~= acks.take(count - 1));
    if count > 1 {
        lemma_program_progress(s, firmware, acks, (count - 1) as nat);
    }
}

/// A Program operation whose requests are all answered with status zero
/// sends the chunks of the image one by one, in order and each of them
/// once, and succeeds after the last chunk is acknowledged.  The session
/// keeps its application offset.
pub proof fn lemma_program_streams_every_chunk(s: Session, firmware: Seq<u8>, acks: Seq<Event>)
    requires
        s.version.spec_supports(CommandKind::StartProgramming),
        s.version.spec_supports(CommandKind::ProgramData),
        firmware.len() <= usize::MAX,
        acks.len() == chunk_count_of(firmware.len()) + 1,
        forall|i: int| 0 <= i < acks.len() ==> #[trigger] acks[i] is Received,
        forall|i: int| 0 <= i < acks.len() ==> status_of((#[trigger] acks[i])->Received_0@) == 0,
    ensures
        begin_program(s, firmware).1 == (ActionView::Exchange {
            frame: begin_program(s, firmware).0.start_request(),
            timeout_ms: crate::machine::START_TIMEOUT_MS,
        }),
        run(begin_program(s, firmware).0, acks).0 == (Session {
            firmware,
            phase: Phase::Done,
            ..s
        }),
        run(begin_program(s, firmware).0, acks).1.len() == acks.len(),
        forall|j: int|
            0 <= j < chunk_count_of(firmware.len()) ==> #[trigger] run(
                begin_program(s, firmware).0,
                acks,
            ).1[j] == (ActionView::Exchange {
                frame: begin_program(s, firmware).0.data_request(j as nat),
                timeout_ms: DATA_TIMEOUT_MS,
            }),
        run(begin_program(s, firmware).0, acks).1.last() == ActionView::Done,
{
    assert(acks.take(acks.len() as int) =~= acks);
    lemma_program_progress(s, firmware, acks, acks.len());
}

} // verus!
