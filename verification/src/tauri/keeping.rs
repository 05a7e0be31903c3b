//! What the plugin keeps is what it gives back: sessions and streams are found under the numbers that
//! were given for them, and requests mean what they say.

use bytes::Bytes;
use vstd::prelude::*;

use super::desktop::{ClientPlan, Close, SendPlan, Session, WebTransport};
use super::error::Error;
use super::rpc::{
    CloseRequest, CloseResponse, CongestionControl, ConnectRequest, ConnectResponse, OpenResponse,
};
use crate::buffer;
use crate::text;
use crate::text::HexError;

verus! {

/// A client is configured as the request asks: with its congestion control, or the default one if
/// it names none, and with its certificate hashes, or without any if it has none. The hashes are
/// decoded if they are hexadecimal, all of them, and otherwise the request fails.
pub proof fn client_is_configured_as_asked<H>(
    request: &ConnectRequest,
    plan: Result<ClientPlan, Error>,
    i: int,
)
    requires
        call_ensures(WebTransport::<H>::plan, (request,), plan),
    ensures
        plan is Ok ==> {
            &&& request.congestion_control matches Some(control)
                ==> plan->Ok_0.congestion_control == control
            &&& request.congestion_control is None ==> plan->Ok_0.congestion_control
                == CongestionControl::Default
            &&& plan->Ok_0.server_certificate_hashes is Some
                <==> request.server_certificate_hashes is Some
        },
        request.server_certificate_hashes is None ==> plan is Ok,
        request.server_certificate_hashes matches Some(hashes) ==> {
            &&& plan is Ok ==> plan->Ok_0.server_certificate_hashes->0@.len() == hashes@.len()
            &&& plan is Ok && 0 <= i < hashes@.len() ==> ({
                let digits = vstd::utf8::encode_utf8(hashes@[i]@);
                let bytes = plan->Ok_0.server_certificate_hashes->0@[i]@;
                &&& text::is_hex(digits)
                &&& bytes.len() * 2 == digits.len()
                &&& forall|k: int|
                    0 <= k < bytes.len() ==> #[trigger] bytes[k] / 16 == text::hex_digit(
                        digits[2 * k],
                    )->0 && bytes[k] % 16 == text::hex_digit(digits[2 * k + 1])->0
            })
            &&& plan is Err ==> plan->Err_0 is Hex && exists|k: int|
                0 <= k < hashes@.len() && !text::is_hex(
                    vstd::utf8::encode_utf8(#[trigger] hashes@[k]@),
                )
        },
{
    if let Some(hashes) = request.server_certificate_hashes {
        if plan is Ok {
            if 0 <= i < hashes@.len() {
                let digits = vstd::utf8::encode_utf8(hashes@[i]@);
                let bytes = plan->Ok_0.server_certificate_hashes->0@[i]@;
                assert(text::is_unhex(digits, Ok(bytes)));
                assert forall|k: int| 0 <= k < bytes.len() implies #[trigger] bytes[k] / 16
                    == text::hex_digit(digits[2 * k])->0 && bytes[k] % 16 == text::hex_digit(
                    digits[2 * k + 1],
                )->0 by {
                    let high = text::hex_digit(digits[2 * k])->0 as int;
                    let low = text::hex_digit(digits[2 * k + 1])->0 as int;
                    assert(text::hex_digit(digits[2 * k]) is Some);
                    assert(text::hex_digit(digits[2 * k + 1]) is Some);
                    assert(0 <= low < 16 && 0 <= high < 16);
                    assert(bytes[k] == high * 16 + low);
                }
            }
        } else {
            let err = plan->Err_0->Hex_0;
            let k = choose|k: int|
                #![trigger hashes@[k]]
                {
                    &&& 0 <= k < hashes@.len()
                    &&& text::is_unhex(
                        vstd::utf8::encode_utf8(hashes@[k]@),
                        Err::<Seq<u8>, HexError>(err),
                    )
                    &&& forall|i: int|
                        0 <= i < k ==> text::is_hex(
                            vstd::utf8::encode_utf8(#[trigger] hashes@[i]@),
                        )
                };
            assert(!text::is_hex(vstd::utf8::encode_utf8(hashes@[k]@)));
        }
    }
}

/// A session that was made is found under its number, as it was given, until it is closed; closing
/// it gives it back with the code and the reason of the request, whatever they are, and after that
/// it is not found. The other sessions are found as before.
pub proof fn session_is_kept_until_closed<H>(
    making: &mut WebTransport<H>,
    session: H,
    made: Result<ConnectResponse, Error>,
    plugin: WebTransport<H>,
    found: Result<&H, Error>,
    closing: &mut WebTransport<H>,
    request: CloseRequest,
    closed: Result<(Close<H>, CloseResponse), Error>,
    after: WebTransport<H>,
    gone: Result<&H, Error>,
    other: usize,
)
    requires
        call_ensures(WebTransport::<H>::connect, (making, session), made),
        made is Ok,
        *final(making) == plugin,
        call_ensures(WebTransport::<H>::get, (&plugin, made->Ok_0.session), found),
        *old(closing) == plugin,
        request.session == made->Ok_0.session,
        call_ensures(WebTransport::<H>::close, (closing, request), closed),
        *final(closing) == after,
        call_ensures(WebTransport::<H>::get, (&after, request.session), gone),
        other != request.session,
    ensures
        made->Ok_0.session == old(making)@.next_session,
        found is Ok,
        *found->Ok_0 == session,
        closed is Ok,
        closed->Ok_0.0.session == session,
        closed->Ok_0.0.code == request.code,
        request.reason matches Some(reason) ==> closed->Ok_0.0.reason@ == reason@,
        request.reason is None ==> closed->Ok_0.0.reason@.len() == 0,
        gone is Err,
        gone->Err_0 is NoSession,
        after@.sessions.contains_key(other) == old(making)@.sessions.contains_key(other),
        after@.sessions.contains_key(other) ==> after@.sessions[other] == old(
            making)@.sessions[other],
{
    reveal_strlit("");
}

/// A session gets the next number, unless that is taken, which is an error; in either case the next
/// session gets another. A number under which there is no session is not found and cannot be
/// closed. A new plugin has no sessions.
pub proof fn number_is_used_up<H>(
    making: &mut WebTransport<H>,
    session: H,
    made: Result<ConnectResponse, Error>,
    plugin: &WebTransport<H>,
    id: usize,
    found: Result<&H, Error>,
    closing: &mut WebTransport<H>,
    request: CloseRequest,
    closed: Result<(Close<H>, CloseResponse), Error>,
    new: WebTransport<H>,
)
    requires
        call_ensures(WebTransport::<H>::connect, (making, session), made),
        call_ensures(WebTransport::<H>::get, (plugin, id), found),
        call_ensures(WebTransport::<H>::close, (closing, request), closed),
        call_ensures(WebTransport::<H>::new, (), new),
    ensures
        made is Err <==> old(making)@.sessions.contains_key(old(making)@.next_session),
        made matches Err(err) ==> err is DuplicateSession && final(making)@.sessions == old(
            making)@.sessions,
        old(making)@.next_session < usize::MAX ==> final(making)@.next_session == old(
            making)@.next_session + 1,
        final(making)@.next_session != old(making)@.next_session,
        found is Ok <==> plugin@.sessions.contains_key(id),
        found matches Ok(s) ==> *s == plugin@.sessions[id],
        found matches Err(err) ==> err is NoSession,
        closed is Ok <==> old(closing)@.sessions.contains_key(request.session),
        closed matches Err(err) ==> err is NoSession && final(closing)@ == old(closing)@,
        final(closing)@.next_session == old(closing)@.next_session,
        new@.sessions.dom().is_empty(),
        new@.next_session == 0,
{
    assert(closed is Err ==> final(closing)@ =~= old(closing)@);
}

/// A stream is kept under the next number with the sides that it has, whichever side opened it;
/// the next stream gets another number, and the other streams are as before.
pub proof fn stream_is_kept_with_its_sides<S, R>(
    bi: &mut Session<S, R>,
    send: S,
    recv: R,
    accepted: usize,
    created_bi: &mut Session<S, R>,
    created: usize,
    uni: &mut Session<S, R>,
    accepted_uni: usize,
    out: &mut Session<S, R>,
    created_uni: usize,
    new: Session<S, R>,
)
    requires
        call_ensures(Session::<S, R>::accept_bi, (bi, send, recv), accepted),
        call_ensures(Session::<S, R>::create_bi, (created_bi, send, recv), created),
        call_ensures(Session::<S, R>::accept_uni, (uni, recv), accepted_uni),
        call_ensures(Session::<S, R>::create_uni, (out, send), created_uni),
        call_ensures(Session::<S, R>::new, (), new),
    ensures
        accepted == old(bi)@.streams,
        final(bi)@.send == old(bi)@.send.insert(accepted, send),
        final(bi)@.recv == old(bi)@.recv.insert(accepted, recv),
        final(bi)@.streams != accepted,
        old(bi)@.streams < usize::MAX ==> final(bi)@.streams == accepted + 1,
        created == old(created_bi)@.streams,
        final(created_bi)@.send == old(created_bi)@.send.insert(created, send),
        final(created_bi)@.recv == old(created_bi)@.recv.insert(created, recv),
        old(created_bi)@.streams < usize::MAX ==> final(created_bi)@.streams == created + 1,
        accepted_uni == old(uni)@.streams,
        final(uni)@.send == old(uni)@.send,
        final(uni)@.recv == old(uni)@.recv.insert(accepted_uni, recv),
        old(uni)@.streams < usize::MAX ==> final(uni)@.streams == accepted_uni + 1,
        created_uni == old(out)@.streams,
        final(out)@.send == old(out)@.send.insert(created_uni, send),
        final(out)@.recv == old(out)@.recv,
        old(out)@.streams < usize::MAX ==> final(out)@.streams == created_uni + 1,
        new@.send.dom().is_empty() && new@.recv.dom().is_empty() && new@.streams == 0,
{
}

/// A stream that is being read from is not found until it is put back; it is put back as long as
/// there is data, and forgotten at its end. The other streams, and its sending side, are not
/// affected.
pub proof fn stream_in_use_is_taken<S, R>(
    taking: &mut Session<S, R>,
    id: usize,
    taken: Result<R, Error>,
    again: &mut Session<S, R>,
    refused: Result<R, Error>,
    putting: &mut Session<S, R>,
    recv: R,
    data: Option<Bytes>,
    after: &mut Session<S, R>,
    retaken: Result<R, Error>,
)
    requires
        call_ensures(Session::<S, R>::recv, (taking, id), taken),
        *final(taking) == *old(again),
        call_ensures(Session::<S, R>::recv, (again, id), refused),
        *final(taking) == *old(putting),
        call_ensures(Session::<S, R>::received, (putting, id, recv, &data), ()),
        *final(putting) == *old(after),
        call_ensures(Session::<S, R>::recv, (after, id), retaken),
    ensures
        taken is Ok <==> old(taking)@.recv.contains_key(id),
        taken matches Ok(side) ==> side == old(taking)@.recv[id],
        taken matches Err(err) ==> err is NoStream,
        refused is Err && refused->Err_0 is NoStream,
        data is Some ==> retaken is Ok && retaken->Ok_0 == recv,
        data is None ==> retaken is Err && retaken->Err_0 is NoStream,
        final(putting)@.send == old(taking)@.send,
        final(putting)@.streams == old(taking)@.streams,
        final(putting)@.recv.remove(id) == old(taking)@.recv.remove(id),
{
    assert(final(putting)@.recv.remove(id) =~= old(taking)@.recv.remove(id));
}

/// Data is written to the stream that it is meant for, which is not found until it is put back; no
/// data finishes the stream, for good. The other streams, and its receiving side, are not affected.
pub proof fn data_is_written_or_finishes<S, R>(
    taking: &mut Session<S, R>,
    id: usize,
    data: &Bytes,
    plan: Result<SendPlan<S>, Error>,
    again: &mut Session<S, R>,
    refused: Result<SendPlan<S>, Error>,
    putting: &mut Session<S, R>,
    send: S,
    after: &mut Session<S, R>,
    retaken: Result<SendPlan<S>, Error>,
)
    requires
        call_ensures(Session::<S, R>::send, (taking, id, data), plan),
        *final(taking) == *old(again),
        call_ensures(Session::<S, R>::send, (again, id, data), refused),
        *final(taking) == *old(putting),
        call_ensures(Session::<S, R>::sent, (putting, id, send), ()),
        *final(putting) == *old(after),
        call_ensures(Session::<S, R>::send, (after, id, data), retaken),
    ensures
        plan is Ok <==> old(taking)@.send.contains_key(id),
        plan matches Err(err) ==> err is NoStream,
        plan is Ok ==> {
            &&& plan->Ok_0 is Finish <==> buffer::bytes_of(*data).len() == 0
            &&& plan->Ok_0 matches SendPlan::Finish(side) ==> side == old(taking)@.send[id]
            &&& plan->Ok_0 matches SendPlan::Write(side) ==> side == old(taking)@.send[id]
        },
        refused is Err && refused->Err_0 is NoStream,
        retaken is Ok,
        retaken->Ok_0 matches SendPlan::Write(side) ==> side == send,
        final(putting)@.recv == old(taking)@.recv,
        final(putting)@.streams == old(taking)@.streams,
        final(putting)@.send.remove(id) == old(taking)@.send.remove(id),
{
    assert(final(putting)@.send.remove(id) =~= old(taking)@.send.remove(id));
}

/// A reset gives back the sides of the stream that there are, and forgets them; no other stream is
/// affected.
pub proof fn reset_forgets_the_stream<S, R>(
    session: &mut Session<S, R>,
    id: usize,
    sides: (Option<S>, Option<R>),
)
    requires
        call_ensures(Session::<S, R>::reset, (session, id), sides),
    ensures
        sides.0 is Some <==> old(session)@.send.contains_key(id),
        sides.0 matches Some(send) ==> send == old(session)@.send[id],
        sides.1 is Some <==> old(session)@.recv.contains_key(id),
        sides.1 matches Some(recv) ==> recv == old(session)@.recv[id],
        final(session)@.send == old(session)@.send.remove(id),
        final(session)@.recv == old(session)@.recv.remove(id),
        final(session)@.streams == old(session)@.streams,
{
}

/// The default responses name the first session and the first stream.
pub proof fn default_responses_are_the_first(session: ConnectResponse, stream: OpenResponse)
    requires
        call_ensures(<ConnectResponse as Default>::default, (), session),
        call_ensures(<OpenResponse as Default>::default, (), stream),
    ensures
        session.session == 0,
        stream.stream == 0,
{
}

} // verus!
