use vstd::prelude::*;

use crate::error::LoaderError;
use crate::protocol::reply::ok_status;

verus! {

/// Number of handshake attempts before giving up.
pub const RETRIES: u64 = 5;

/// Byte repeated to wake the device and let it detect the baud rate.
pub const WAKE_BYTE: u8 = 0x55;

/// Number of wake bytes sent per attempt.
pub const WAKE_LEN: usize = 32;

/// Pause between the wake bytes and the synchronisation sequence, in
/// milliseconds, for the device's baud rate detection.
pub const WAKE_SETTLE_MS: u64 = 100;

/// Added to the pause before each further attempt, in milliseconds.
pub const RETRY_BACKOFF_MS: u64 = 200;

/// The synchronisation sequence that follows the wake bytes.
pub open spec fn sync_bytes() -> Seq<u8> {
    seq![0x50u8, 0x00, 0x08, 0x00, 0x38, 0xf0, 0x00, 0x20, 0x00, 0x00, 0x00, 0x18]
}

/// The wake bytes of one handshake attempt.
pub fn wake_sequence() -> (r: Vec<u8>)
    ensures
        r@ == Seq::new(WAKE_LEN as nat, |i: int| WAKE_BYTE),
{
    let r = vec![WAKE_BYTE; WAKE_LEN];
    assert(r@ =~= Seq::new(WAKE_LEN as nat, |i: int| WAKE_BYTE));
    r
}

/// The synchronisation sequence of one handshake attempt.
pub fn sync_sequence() -> (r: Vec<u8>)
    ensures
        r@ == sync_bytes(),
{
    let r = vec![0x50u8, 0x00, 0x08, 0x00, 0x38, 0xf0, 0x00, 0x20, 0x00, 0x00, 0x00, 0x18];
    assert(r@ =~= sync_bytes());
    r
}

/// What to do after an attempt's status was read.
#[derive(Clone, Copy, Debug, PartialEq, Eq, Structural)]
pub enum HandshakeStep {
    /// The device answered `"OK"`.
    Connected,
    /// Wait this many milliseconds, then try again.
    Retry { delay_ms: u64 },
    /// Every attempt failed.
    GiveUp,
}

/// The step after attempt number `attempts` (counted from zero) ended with
/// the given result.
pub open spec fn handshake_step(attempts: u64, ok: bool) -> HandshakeStep {
    if ok {
        HandshakeStep::Connected
    } else if attempts + 1 < RETRIES {
        HandshakeStep::Retry { delay_ms: (attempts * RETRY_BACKOFF_MS) as u64 }
    } else {
        HandshakeStep::GiveUp
    }
}

/// The handshake: counts attempts, each of which sends the wake bytes and the
/// synchronisation sequence and reads a two-byte status.
#[derive(Clone, Copy, Debug)]
pub struct Handshake {
    pub attempts: u64,
}

impl Handshake {
    pub open spec fn wf(&self) -> bool {
        self.attempts <= RETRIES
    }

    pub fn new() -> (r: Self)
        ensures
            r.attempts == 0,
            r.wf(),
    {
        Handshake { attempts: 0 }
    }

    /// Takes the status of the current attempt (what could be read of it,
    /// possibly nothing) and says what comes next.
    pub fn on_status(&mut self, status: &[u8]) -> (r: HandshakeStep)
        requires
            old(self).attempts < RETRIES,
        ensures
            final(self).attempts == old(self).attempts + 1,
            final(self).wf(),
            r == handshake_step(old(self).attempts, status@ == ok_status()),
    {
        let ok = status.len() == 2 && status[0] == 0x4f && status[1] == 0x4b;
        assert(ok <==> status@ == ok_status()) by {
            if ok {
                assert(status@ =~= ok_status());
            }
        }
        let attempts = self.attempts;
        self.attempts = attempts + 1;
        if ok {
            HandshakeStep::Connected
        } else if attempts + 1 < RETRIES {
            HandshakeStep::Retry { delay_ms: attempts * RETRY_BACKOFF_MS }
        } else {
            HandshakeStep::GiveUp
        }
    }

    /// The error for a handshake that gave up.
    pub fn failure(&self) -> (r: LoaderError)
        ensures
            r == (LoaderError::HandshakeFailed { attempts: self.attempts }),
    {
        LoaderError::HandshakeFailed { attempts: self.attempts }
    }
}

/// How a handshake ends when attempt `attempts` and the following ones end as
/// `oks` says: whether it connected, and after how many attempts; `None`
/// where `oks` runs out first.
pub open spec fn handshake_outcome(attempts: u64, oks: Seq<bool>) -> Option<(bool, nat)>
    decreases oks.len(),
{
    if oks.len() == 0 || attempts >= RETRIES {
        None
    } else {
        match handshake_step(attempts, oks[0]) {
            HandshakeStep::Connected => Some((true, (attempts + 1) as nat)),
            HandshakeStep::GiveUp => Some((false, (attempts + 1) as nat)),
            HandshakeStep::Retry { .. } => handshake_outcome((attempts + 1) as u64, oks.skip(1)),
        }
    }
}

proof fn lemma_connects_from(a: u64, oks: Seq<bool>, k: int)
    requires
        0 <= k,
        a + k < RETRIES,
        k < oks.len(),
        oks[k],
        forall|j: int| 0 <= j < k ==> !oks[j],
    ensures
        handshake_outcome(a, oks) == Some((true, (a + k + 1) as nat)),
    decreases k,
{
    if k > 0 {
        assert(!oks[0]);
        let rest = oks.skip(1);
        assert forall|j: int| 0 <= j < k - 1 implies !rest[j] by {
            assert(rest[j] == oks[j + 1]);
        }
        lemma_connects_from((a + 1) as u64, rest, k - 1);
    }
}

proof fn lemma_gives_up_from(a: u64, oks: Seq<bool>)
    requires
        a < RETRIES,
        oks.len() >= RETRIES - a,
        forall|j: int| 0 <= j < RETRIES - a ==> !oks[j],
    ensures
        handshake_outcome(a, oks) == Some((false, RETRIES as nat)),
    decreases RETRIES - a,
{
    assert(!oks[0]);
    if a + 1 < RETRIES {
        let rest = oks.skip(1);
        assert forall|j: int| 0 <= j < RETRIES - (a + 1) implies !rest[j] by {
            assert(rest[j] == oks[j + 1]);
        }
        lemma_gives_up_from((a + 1) as u64, rest);
    }
}

/// A handshake whose first `k` attempts fail and whose next one succeeds
/// connects after `k + 1` attempts, provided that is within the retry bound.
pub proof fn lemma_handshake_connects(oks: Seq<bool>, k: int)
    requires
        0 <= k < RETRIES,
        k < oks.len(),
        oks[k],
        forall|j: int| 0 <= j < k ==> !oks[j],
    ensures
        handshake_outcome(0, oks) == Some((true, (k + 1) as nat)),
{
    lemma_connects_from(0, oks, k);
}

/// A handshake whose attempts all fail gives up after exactly `RETRIES`
/// attempts.
pub proof fn lemma_handshake_gives_up(oks: Seq<bool>)
    requires
        oks.len() >= RETRIES,
        forall|j: int| 0 <= j < RETRIES ==> !oks[j],
    ensures
        handshake_outcome(0, oks) == Some((false, RETRIES as nat)),
{
    lemma_gives_up_from(0, oks);
}

} // verus!
