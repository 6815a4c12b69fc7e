use vstd::prelude::*;

use crate::bytes::{le16, lemma_word16_of_le16, push_all, read_le16, word16_at};
use crate::error::LoaderError;
use crate::protocol::command::{Command, MAX_PAYLOAD};

verus! {

/// `"OK"`
pub open spec fn ok_status() -> Seq<u8> {
    seq![0x4fu8, 0x4bu8]
}

/// `"FL"`
pub open spec fn fail_status() -> Seq<u8> {
    seq![0x46u8, 0x4cu8]
}

/// Where the reading of a reply stands.
#[derive(Clone, Copy, Debug, PartialEq, Eq, Structural)]
pub enum Phase {
    /// Two status bytes are due.
    Status,
    /// The status was `"FL"`: the two bytes of the error code are due.
    ErrorCode,
    /// The status was `"OK"`: the two bytes of the payload length are due.
    Length,
    /// The payload of this many bytes is due.
    Payload { len: u16 },
    /// The reply is complete.
    Finished,
}

/// Number of bytes due in a phase.
pub open spec fn bytes_due(phase: Phase) -> nat {
    match phase {
        Phase::Payload { len } => len as nat,
        Phase::Finished => 0,
        _ => 2,
    }
}

/// What one read brings.
pub enum Reply {
    /// This many more bytes are due.
    More(nat),
    /// The reply is complete, with this payload.
    Data(Seq<u8>),
    /// The command failed.
    Error(LoaderError),
}

/// The phase after the bytes due in `phase` were read.
pub open spec fn next_phase(has_response: bool, phase: Phase, bytes: Seq<u8>) -> Phase {
    match phase {
        Phase::Status => if bytes == ok_status() && has_response {
            Phase::Length
        } else if bytes == fail_status() {
            Phase::ErrorCode
        } else {
            Phase::Finished
        },
        Phase::Length => if word16_at(bytes, 0) == 0 {
            Phase::Finished
        } else {
            Phase::Payload { len: word16_at(bytes, 0) }
        },
        _ => Phase::Finished,
    }
}

/// What reading the bytes due in `phase` brings.
pub open spec fn reply_of(has_response: bool, phase: Phase, bytes: Seq<u8>) -> Reply {
    match phase {
        Phase::Status => if bytes == ok_status() {
            if has_response {
                Reply::More(2)
            } else {
                Reply::Data(Seq::empty())
            }
        } else if bytes == fail_status() {
            Reply::More(2)
        } else {
            Reply::Error(LoaderError::UnexpectedStatus { first: bytes[0], second: bytes[1] })
        },
        Phase::ErrorCode => Reply::Error(LoaderError::CommandFailed { code: word16_at(bytes, 0) }),
        Phase::Length => if word16_at(bytes, 0) == 0 {
            Reply::Data(Seq::empty())
        } else {
            Reply::More(word16_at(bytes, 0) as nat)
        },
        _ => Reply::Data(bytes),
    }
}

/// What the reply is when the device sends `stream`, read from `phase` on;
/// `None` where the stream ends before the reply does.
pub open spec fn reply_from(has_response: bool, phase: Phase, stream: Seq<u8>) -> Option<Reply>
    decreases stream.len(),
{
    let n = bytes_due(phase);
    if phase is Finished || n == 0 || stream.len() < n {
        None
    } else {
        let bytes = stream.take(n as int);
        match reply_of(has_response, phase, bytes) {
            Reply::More(_) => reply_from(
                has_response,
                next_phase(has_response, phase, bytes),
                stream.skip(n as int),
            ),
            r => Some(r),
        }
    }
}

/// What a read hands back to the caller.
#[derive(Debug)]
pub enum Step {
    /// Read this many more bytes and hand them over.
    Read(usize),
    /// The reply is complete, with this payload.
    Done(Vec<u8>),
    /// The command failed.
    Failed(LoaderError),
}

impl Step {
    pub open spec fn view_reply(&self) -> Reply {
        match self {
            Step::Read(n) => Reply::More(*n as nat),
            Step::Done(v) => Reply::Data(v@),
            Step::Failed(e) => Reply::Error(*e),
        }
    }
}

/// The reading of the reply to one command: status, then error code or
/// length, then payload.
#[derive(Clone, Copy, Debug)]
pub struct Exchange {
    pub has_response: bool,
    pub phase: Phase,
}

impl Exchange {
    /// Starts reading the reply to `command`.
    pub fn new(command: Command) -> (r: Self)
        ensures
            r.has_response == command.spec_has_response(),
            r.phase == Phase::Status,
    {
        Exchange { has_response: command.has_response(), phase: Phase::Status }
    }

    /// Number of bytes to read next.
    pub fn wanted(&self) -> (r: usize)
        ensures
            r == bytes_due(self.phase),
    {
        match self.phase {
            Phase::Payload { len } => len as usize,
            Phase::Finished => 0,
            _ => 2,
        }
    }

    /// Takes the bytes read in the current phase and says what comes next.
    pub fn on_bytes(&mut self, bytes: &[u8]) -> (r: Step)
        requires
            !(old(self).phase is Finished),
            bytes@.len() == bytes_due(old(self).phase),
        ensures
            final(self).has_response == old(self).has_response,
            final(self).phase == next_phase(old(self).has_response, old(self).phase, bytes@),
            r.view_reply() == reply_of(old(self).has_response, old(self).phase, bytes@),
    {
        match self.phase {
            Phase::Status => {
                let ok = bytes[0] == 0x4f && bytes[1] == 0x4b;
                let fl = bytes[0] == 0x46 && bytes[1] == 0x4c;
                assert(ok <==> bytes@ == ok_status()) by {
                    if ok {
                        assert(bytes@ =~= ok_status());
                    }
                }
                assert(fl <==> bytes@ == fail_status()) by {
                    if fl {
                        assert(bytes@ =~= fail_status());
                    }
                }
                if ok {
                    if self.has_response {
                        self.phase = Phase::Length;
                        Step::Read(2)
                    } else {
                        self.phase = Phase::Finished;
                        let v: Vec<u8> = Vec::new();
                        assert(v@ =~= Seq::<u8>::empty());
                        Step::Done(v)
                    }
                } else if fl {
                    self.phase = Phase::ErrorCode;
                    Step::Read(2)
                } else {
                    self.phase = Phase::Finished;
                    Step::Failed(LoaderError::UnexpectedStatus { first: bytes[0], second: bytes[1] })
                }
            },
            Phase::ErrorCode => {
                let code = read_le16(bytes, 0);
                self.phase = Phase::Finished;
                Step::Failed(LoaderError::CommandFailed { code })
            },
            Phase::Length => {
                let len = read_le16(bytes, 0);
                if len == 0 {
                    self.phase = Phase::Finished;
                    let v: Vec<u8> = Vec::new();
                    assert(v@ =~= Seq::<u8>::empty());
                    Step::Done(v)
                } else {
                    self.phase = Phase::Payload { len };
                    Step::Read(len as usize)
                }
            },
            _ => {
                self.phase = Phase::Finished;
                let mut v: Vec<u8> = Vec::new();
                push_all(&mut v, bytes);
                Step::Done(v)
            },
        }
    }
}

/// A device that answers `"OK"`, a length and that many bytes makes the reply
/// exactly those bytes, for every length a frame can carry; what the device
/// sends after them is not read.
pub proof fn lemma_reply_returns_payload(command: Command, payload: Seq<u8>, rest: Seq<u8>)
    requires
        command.spec_has_response(),
        payload.len() <= MAX_PAYLOAD,
    ensures
        reply_from(
            command.spec_has_response(),
            Phase::Status,
            ok_status() + le16(payload.len() as u16) + payload + rest,
        ) == Some(Reply::Data(payload)),
{
    let len = payload.len() as u16;
    let stream = ok_status() + le16(len) + payload + rest;
    lemma_word16_of_le16(len);
    assert(stream.take(2) =~= ok_status());
    let after_status = stream.skip(2);
    assert(after_status =~= le16(len) + payload + rest);
    assert(after_status.take(2) =~= le16(len));
    assert(reply_of(true, Phase::Status, stream.take(2)) == Reply::More(2));
    assert(reply_from(true, Phase::Status, stream) == reply_from(
        true,
        Phase::Length,
        after_status,
    ));
    if len != 0 {
        let tail = after_status.skip(2);
        assert(tail =~= payload + rest);
        assert(tail.take(len as int) =~= payload);
        assert(reply_from(true, Phase::Payload { len }, tail) == Some(Reply::Data(payload)));
        assert(reply_from(true, Phase::Length, after_status) == reply_from(
            true,
            Phase::Payload { len },
            tail,
        ));
    } else {
        assert(payload =~= Seq::<u8>::empty());
        assert(reply_from(true, Phase::Length, after_status) == Some(Reply::Data(payload)));
    }
}

/// A command that has no response is done, with an empty payload, as soon
/// as the device answers `"OK"`; nothing after the status is read.
pub proof fn lemma_reply_without_response(command: Command, rest: Seq<u8>)
    requires
        !command.spec_has_response(),
    ensures
        reply_from(command.spec_has_response(), Phase::Status, ok_status() + rest) == Some(
            Reply::Data(Seq::empty()),
        ),
{
    let stream = ok_status() + rest;
    assert(stream.take(2) =~= ok_status());
}

/// A device that answers `"FL"` and an error code makes the command fail with
/// that code, whatever the command and whatever follows.
pub proof fn lemma_reply_reports_code(command: Command, code: u16, rest: Seq<u8>)
    ensures
        reply_from(command.spec_has_response(), Phase::Status, fail_status() + le16(code) + rest)
            == Some(Reply::Error(LoaderError::CommandFailed { code })),
{
    let h = command.spec_has_response();
    let stream = fail_status() + le16(code) + rest;
    lemma_word16_of_le16(code);
    assert(stream.take(2) =~= fail_status());
    assert(stream.skip(2) =~= le16(code) + rest);
    assert(stream.skip(2).take(2) =~= le16(code));
    assert(fail_status() != ok_status()) by {
        assert(fail_status()[0] != ok_status()[0]);
    }
    assert(reply_from(h, Phase::ErrorCode, stream.skip(2)) == Some(
        Reply::Error(LoaderError::CommandFailed { code }),
    ));
    assert(reply_from(h, Phase::Status, stream) == reply_from(
        h,
        Phase::ErrorCode,
        stream.skip(2),
    ));
}

} // verus!
