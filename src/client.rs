//! A session together with its secure channel: each command advances the
//! session's counter and the channel's counter together, and any failure
//! whose outcome is uncertain closes the session.

use vstd::prelude::*;
use crate::be::{be_bytes, lemma_be_bytes_len, push_be};
use crate::command::{self, CommandView};
use crate::error::SessionErrorKind;
use crate::response::{self, CREATE_SESSION};
use crate::securechannel::{append_slice, channel_wf, SecureChannel, SecureChannelView};
use crate::session::{closes_session, session_wf, Session, SessionState, SessionView};

verus! {

/// The request that opens a session: the authentication key id as a
/// big-endian 16-bit number, then the host challenge.
pub fn create_session_command(auth_key_id: u16, host_challenge: &[u8]) -> (r: command::Message)
    ensures
        r@ == (CommandView {
            command_type: CREATE_SESSION,
            session_id: None,
            data: be_bytes(auth_key_id as nat, 2) + host_challenge@,
            mac: None,
        }),
{
    let mut data: Vec<u8> = Vec::new();
    push_be(&mut data, auth_key_id as u64, 2);
    proof {
        lemma_be_bytes_len(auth_key_id as nat, 2);
        assert(data@ =~= be_bytes(auth_key_id as nat, 2));
    }
    append_slice(&mut data, host_challenge);
    command::Message::create(CREATE_SESSION, data)
}

/// The session is authenticated only while its counter is the channel's.
pub open spec fn counters_agree(s: SessionView, c: SecureChannelView) -> bool {
    s.state == SessionState::Authenticated ==> s.counter == c.counter
}

/// Encrypt one command in an authenticated session. The session's counter
/// and the channel's counter advance together; if the channel cannot take
/// the command the session closes, so the two never drift apart while the
/// session can still send.
pub fn send_command(session: &mut Session, channel: &mut SecureChannel, cmd: command::Message)
    -> (r: Result<command::Message, SessionErrorKind>)
    requires
        session_wf(old(session)@),
        channel_wf(old(channel)@),
        counters_agree(old(session)@, old(channel)@),
    ensures
        session_wf(final(session)@),
        channel_wf(final(channel)@),
        counters_agree(final(session)@, final(channel)@),
        old(session)@.state == SessionState::Closed ==> r == Err::<
            command::Message,
            SessionErrorKind,
        >(SessionErrorKind::ClosedSessionError) && final(session)@ == old(session)@
            && final(channel)@ == old(channel)@,
        r is Ok ==> final(session)@.state == SessionState::Authenticated && final(session)@.counter
            == old(session)@.counter + 1 && final(channel)@.counter == old(channel)@.counter + 1,
        r is Err ==> final(channel)@ == old(channel)@ && (final(session)@ == old(session)@
            || final(session)@.state == SessionState::Closed),
        r matches Ok(m) ==> m.command_type == response::SESSION_MESSAGE && m.data@.len() + 1
            + response::MAC_SIZE <= 0xffff,
{
    match session.begin_send() {
        Ok(_) => {},
        Err(e) => return Err(e),
    }
    match channel.encrypt_command(cmd) {
        Ok(m) => Ok(m),
        Err(e) => {
            session.close();
            Err(e)
        },
    }
}

/// Read the reply to a command sent with `send_command`, and record the
/// outcome in the session: a failure whose outcome is uncertain closes it.
pub fn receive_reply(
    session: &mut Session,
    channel: &SecureChannel,
    reply: response::Message,
    code: u8,
) -> (r: Result<Vec<u8>, SessionErrorKind>)
    requires
        session_wf(old(session)@),
        channel_wf(channel@),
    ensures
        session_wf(final(session)@),
        final(session)@.counter == old(session)@.counter,
        old(session)@.state != SessionState::Authenticated ==> r == Err::<
            Vec<u8>,
            SessionErrorKind,
        >(SessionErrorKind::ClosedSessionError) && final(session)@ == old(session)@,
        old(session)@.state == SessionState::Authenticated ==> match r {
            Ok(_) => final(session)@ == old(session)@,
            Err(k) => final(session)@.state == if closes_session(k) {
                SessionState::Closed
            } else {
                SessionState::Authenticated
            },
        },
{
    let outcome = channel.open_response(reply, code);
    let status = match &outcome {
        Ok(_) => Ok(()),
        Err(e) => Err(*e),
    };
    match session.finish_send(status) {
        Ok(()) => outcome,
        Err(e) => Err(e),
    }
}

} // verus!
