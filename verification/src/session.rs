//! Sessions: per-session AEAD encrypt/decrypt with deterministic nonces, a
//! sliding-window anti-replay check, timestamp validation, keepalive and
//! rekey policy, and a registry of sessions keyed by session id.

use vstd::prelude::*;

use crate::crypto::{
    aead_open, aead_seal, spec_nonce_bytes, AeadCipher, SessionKey, CHACHA20_KEY_SIZE,
    POLY1305_TAG_SIZE,
};
use crate::errors::{CryptoError, LlpError, SessionError};
use crate::packet::MimicryProfile;

verus! {

/// Width of the anti-replay window, in sequence numbers.
pub const REPLAY_WINDOW_SIZE: usize = 256;

/// Most sessions a manager will hold at once.
pub const MAX_SESSIONS: usize = 1000;

/// Default lifetime of a session, in seconds (24 hours).
pub const DEFAULT_SESSION_LIFETIME_SECS: u64 = 24 * 60 * 60;

/// A session wants a keepalive after this much idle time, in seconds.
pub const KEEPALIVE_INTERVAL_SECS: u64 = 30;

/// A session with no traffic for this long has timed out, in seconds.
pub const KEEPALIVE_TIMEOUT_SECS: u64 = 90;

/// Largest accepted distance between a packet's timestamp and the local
/// clock, in seconds.
pub const MAX_TIMESTAMP_DRIFT_SECS: u64 = 300;

/// The replay window's mathematical model: whether any sequence was accepted
/// yet, the highest accepted sequence, and one slot per sequence in
/// `[highest - slots.len() + 1, highest]` — slot `i` says whether
/// `highest - i` was accepted.
pub type ReplayModel = (bool, u32, Seq<bool>);

/// A model the window's operations preserve: at least one slot, and once
/// started, the highest sequence itself is always marked.
pub open spec fn rw_inv(m: ReplayModel) -> bool {
    &&& m.2.len() >= 1
    &&& (m.0 ==> m.2[0])
}

/// Whether the window would accept sequence `s`: always before the first
/// packet; after that, anything above the highest; within the window, only
/// a slot not yet marked. The highest itself and anything below the window
/// are rejected.
pub open spec fn rw_accepts(m: ReplayModel, s: u32) -> bool {
    if !m.0 {
        true
    } else if s > m.1 {
        true
    } else if m.1 - s >= m.2.len() {
        false
    } else {
        !m.2[m.1 - s]
    }
}

/// Whether `s` lies below the window entirely (as opposed to being a
/// duplicate inside it).
pub open spec fn rw_below_window(m: ReplayModel, s: u32) -> bool {
    m.0 && s <= m.1 && m.1 - s >= m.2.len()
}

/// The window after sequence `s` is offered: on acceptance the slots slide
/// or the slot is marked; a rejected sequence changes nothing.
pub open spec fn rw_step(m: ReplayModel, s: u32) -> ReplayModel {
    if !m.0 {
        (true, s, m.2.update(0, true))
    } else if s > m.1 {
        let shift = s - m.1;
        (
            true,
            s,
            Seq::new(
                m.2.len(),
                |i: int|
                    if i == 0 {
                        true
                    } else if i < shift {
                        false
                    } else {
                        m.2[i - shift]
                    },
            ),
        )
    } else if m.1 - s < m.2.len() && !m.2[m.1 - s] {
        (true, m.1, m.2.update(m.1 - s, true))
    } else {
        m
    }
}

/// After the window accepts `s`, it holds `s` against any later offer:
/// `s` never rises above the highest again, and while it stays inside the
/// window its slot stays marked.
pub open spec fn rw_blocks(m: ReplayModel, s: u32) -> bool {
    &&& m.0
    &&& s <= m.1
    &&& (m.1 - s < m.2.len() ==> m.2[m.1 - s])
}

/// Stepping preserves the invariant and the slot count.
pub proof fn lemma_rw_step_inv(m: ReplayModel, s: u32)
    requires
        rw_inv(m),
    ensures
        rw_inv(rw_step(m, s)),
        rw_step(m, s).2.len() == m.2.len(),
{
}

/// A blocked sequence is rejected.
pub proof fn lemma_rw_blocks_rejects(m: ReplayModel, s: u32)
    requires
        rw_inv(m),
        rw_blocks(m, s),
    ensures
        !rw_accepts(m, s),
{
}

/// Accepting a sequence blocks it from then on.
pub proof fn lemma_rw_accept_blocks(m: ReplayModel, s: u32)
    requires
        rw_inv(m),
        rw_accepts(m, s),
    ensures
        rw_blocks(rw_step(m, s), s),
{
}

/// Blocking survives any further step.
pub proof fn lemma_rw_blocks_step(m: ReplayModel, t: u32, s: u32)
    requires
        rw_inv(m),
        rw_blocks(m, s),
    ensures
        rw_blocks(rw_step(m, t), s),
{
}

/// A sequence the window accepted is never accepted again: one step after
/// accepting `s`, offering `s` once more is rejected — and stays rejected,
/// by [`lemma_rw_blocks_step`].
pub proof fn lemma_rw_no_double_accept(m: ReplayModel, s: u32)
    requires
        rw_inv(m),
        rw_accepts(m, s),
    ensures
        !rw_accepts(rw_step(m, s), s),
{
    lemma_rw_accept_blocks(m, s);
    lemma_rw_step_inv(m, s);
    lemma_rw_blocks_rejects(rw_step(m, s), s);
}

/// The window after a whole stream of sequences is offered, first first.
pub open spec fn rw_run(m: ReplayModel, stream: Seq<u32>) -> ReplayModel
    decreases stream.len(),
{
    if stream.len() == 0 {
        m
    } else {
        rw_run(rw_step(m, stream[0]), stream.drop_first())
    }
}

/// Running a stream preserves the invariant.
pub proof fn lemma_rw_run_inv(m: ReplayModel, stream: Seq<u32>)
    requires
        rw_inv(m),
    ensures
        rw_inv(rw_run(m, stream)),
    decreases stream.len(),
{
    if stream.len() > 0 {
        lemma_rw_step_inv(m, stream[0]);
        lemma_rw_run_inv(rw_step(m, stream[0]), stream.drop_first());
    }
}

/// Blocking survives a whole stream.
pub proof fn lemma_rw_blocks_run(m: ReplayModel, stream: Seq<u32>, s: u32)
    requires
        rw_inv(m),
        rw_blocks(m, s),
    ensures
        rw_blocks(rw_run(m, stream), s),
    decreases stream.len(),
{
    if stream.len() > 0 {
        lemma_rw_blocks_step(m, stream[0], s);
        lemma_rw_step_inv(m, stream[0]);
        lemma_rw_blocks_run(rw_step(m, stream[0]), stream.drop_first(), s);
    }
}

/// Running distributes over concatenation.
pub proof fn lemma_rw_run_add(m: ReplayModel, a: Seq<u32>, b: Seq<u32>)
    ensures
        rw_run(m, a + b) == rw_run(rw_run(m, a), b),
    decreases a.len(),
{
    if a.len() == 0 {
        assert(a + b =~= b);
    } else {
        assert((a + b).drop_first() =~= a.drop_first() + b);
        lemma_rw_run_add(rw_step(m, a[0]), a.drop_first(), b);
    }
}

/// Anti-replay over any stream of sequence numbers: of two equal values in
/// the stream, if the first was accepted when it arrived, the second is
/// rejected when it arrives. So each value is accepted at most once — the
/// accepted positions are first occurrences.
pub proof fn lemma_rw_accepts_first_occurrence_only(
    m: ReplayModel,
    stream: Seq<u32>,
    i: int,
    j: int,
)
    requires
        rw_inv(m),
        0 <= i < j < stream.len(),
        stream[i] == stream[j],
        rw_accepts(rw_run(m, stream.take(i)), stream[i]),
    ensures
        !rw_accepts(rw_run(m, stream.take(j)), stream[j]),
{
    let s = stream[i];
    let mi = rw_run(m, stream.take(i));
    lemma_rw_run_inv(m, stream.take(i));
    lemma_rw_accept_blocks(mi, s);
    lemma_rw_step_inv(mi, s);
    // the state after position i is a run of the prefix of length i + 1
    assert(stream.take(i + 1) =~= stream.take(i) + seq![s]);
    lemma_rw_run_add(m, stream.take(i), seq![s]);
    let single = seq![s];
    assert(single.drop_first() =~= Seq::<u32>::empty());
    assert(rw_run(rw_step(mi, s), Seq::<u32>::empty()) == rw_step(mi, s));
    assert(rw_run(mi, single) == rw_run(rw_step(mi, s), single.drop_first()));
    assert(rw_run(rw_run(m, stream.take(i)), seq![s]) == rw_step(mi, s));
    // blocking carries from position i + 1 to position j
    assert(stream.take(j) =~= stream.take(i + 1) + stream.subrange(i + 1, j));
    lemma_rw_run_add(m, stream.take(i + 1), stream.subrange(i + 1, j));
    lemma_rw_run_inv(m, stream.take(i + 1));
    lemma_rw_blocks_run(rw_run(m, stream.take(i + 1)), stream.subrange(i + 1, j), s);
    lemma_rw_run_inv(m, stream.take(j));
    lemma_rw_blocks_rejects(rw_run(m, stream.take(j)), s);
}

/// The sliding anti-replay window: the highest accepted sequence number and
/// one slot for each of the `window_size` sequences up to it.
pub struct ReplayWindow {
    started: bool,
    highest_seq: u32,
    window: Vec<bool>,
}

impl View for ReplayWindow {
    type V = ReplayModel;

    closed spec fn view(&self) -> ReplayModel {
        (self.started, self.highest_seq, self.window@)
    }
}

impl ReplayWindow {
    /// A fresh window of `window_size` slots, none marked.
    pub fn new(window_size: usize) -> (r: ReplayWindow)
        requires
            window_size >= 1,
        ensures
            rw_inv(r@),
            r@.0 == false,
            r@.2.len() == window_size,
            forall|i: int| 0 <= i < window_size ==> !r@.2[i],
    {
        let mut window: Vec<bool> = Vec::new();
        let mut i: usize = 0;
        while i < window_size
            invariant
                i <= window_size,
                window@.len() == i,
                forall|k: int| 0 <= k < i ==> !window@[k],
            decreases window_size - i,
        {
            window.push(false);
            i = i + 1;
        }
        ReplayWindow { started: false, highest_seq: 0, window }
    }

    /// Whether sequence `seq` would be accepted, without changing the window.
    pub fn check(&self, seq: u32) -> (r: bool)
        requires
            rw_inv(self@),
        ensures
            r == rw_accepts(self@, seq),
    {
        if !self.started {
            return true;
        }
        if seq > self.highest_seq {
            return true;
        }
        let diff = (self.highest_seq - seq) as usize;
        if diff >= self.window.len() {
            return false;
        }
        !self.window[diff]
    }

    /// Offer sequence `seq`: accept it and mark it, or reject it. Returns
    /// whether it was accepted; the window moves to its model's next state
    /// either way.
    pub fn check_and_update(&mut self, seq: u32) -> (r: bool)
        requires
            rw_inv(old(self)@),
        ensures
            r == rw_accepts(old(self)@, seq),
            final(self)@ == rw_step(old(self)@, seq),
            rw_inv(final(self)@),
    {
        proof {
            lemma_rw_step_inv(old(self)@, seq);
        }
        if !self.started {
            self.started = true;
            self.highest_seq = seq;
            self.window.set(0, true);
            assert(self@.2 =~= rw_step(old(self)@, seq).2);
            return true;
        }
        if seq > self.highest_seq {
            let shift = (seq - self.highest_seq) as usize;
            let len = self.window.len();
            let ghost old_slots = self.window@;
            let mut slid: Vec<bool> = Vec::new();
            let mut i: usize = 0;
            while i < len
                invariant
                    i <= len,
                    slid@.len() == i,
                    old_slots.len() == len,
                    self.window@ == old_slots,
                    shift >= 1,
                    forall|k: int|
                        0 <= k < i ==> slid@[k] == (if k == 0 {
                            true
                        } else if k < shift {
                            false
                        } else {
                            old_slots[k - shift]
                        }),
                decreases len - i,
            {
                if i == 0 {
                    slid.push(true);
                } else if i < shift {
                    slid.push(false);
                } else {
                    slid.push(self.window[i - shift]);
                }
                i = i + 1;
            }
            self.window = slid;
            self.highest_seq = seq;
            assert(self@.2 =~= rw_step(old(self)@, seq).2);
            return true;
        }
        let diff = (self.highest_seq - seq) as usize;
        if diff >= self.window.len() {
            return false;
        }
        if self.window[diff] {
            return false;
        }
        self.window.set(diff, true);
        assert(self@.2 =~= rw_step(old(self)@, seq).2);
        true
    }

    /// The highest sequence accepted so far.
    pub fn highest(&self) -> (r: u32)
        ensures
            r == self@.1,
    {
        self.highest_seq
    }
}

/// Seconds elapsed from `from` to `now`; a clock that moved backwards
/// counts as no time elapsed.
pub open spec fn spec_elapsed(from: u64, now: u64) -> u64 {
    if now >= from {
        (now - from) as u64
    } else {
        0
    }
}

/// An active session: its key and ciphers, the TX counter, the RX replay
/// window, activity times, and the rekey flag.
pub struct Session {
    session_id: u64,
    session_key: SessionKey,
    tx_cipher: AeadCipher,
    rx_cipher: AeadCipher,
    mimicry_profile: MimicryProfile,
    created_at: u64,
    last_activity: u64,
    last_keepalive: u64,
    tx_sequence: u32,
    rx_replay_window: ReplayWindow,
    rekey_required: bool,
}

impl Session {
    /// The session id, for contracts.
    pub closed spec fn spec_session_id(&self) -> u64 {
        self.session_id
    }

    /// The key bytes, for contracts.
    pub closed spec fn spec_key(&self) -> Seq<u8> {
        self.session_key@
    }

    /// The mimicry profile, for contracts.
    pub closed spec fn spec_profile(&self) -> MimicryProfile {
        self.mimicry_profile
    }

    /// The TX sequence counter, for contracts.
    pub closed spec fn spec_tx_sequence(&self) -> u32 {
        self.tx_sequence
    }

    /// The replay window's model, for contracts.
    pub closed spec fn spec_window(&self) -> ReplayModel {
        self.rx_replay_window@
    }

    /// Whether a rekey is pending, for contracts.
    pub closed spec fn spec_rekey_required(&self) -> bool {
        self.rekey_required
    }

    /// The creation time, for contracts.
    pub closed spec fn spec_created_at(&self) -> u64 {
        self.created_at
    }

    /// The last-activity time, for contracts.
    pub closed spec fn spec_last_activity(&self) -> u64 {
        self.last_activity
    }

    /// The last-keepalive time, for contracts.
    pub closed spec fn spec_last_keepalive(&self) -> u64 {
        self.last_keepalive
    }

    /// The low 32 bits of the session id, which the AEAD nonce carries.
    pub open spec fn spec_sid32(&self) -> u32 {
        (self.spec_session_id() & 0xFFFFFFFF) as u32
    }

    /// The session's invariant: a 32-byte key, both ciphers keyed with it
    /// and bound to this session id, the TX cipher's counter in step with
    /// the TX sequence, and a sound replay window.
    pub closed spec fn wf(&self) -> bool {
        &&& self.session_key@.len() == CHACHA20_KEY_SIZE
        &&& self.tx_cipher.wf()
        &&& self.rx_cipher.wf()
        &&& self.tx_cipher.spec_key() == self.session_key@
        &&& self.rx_cipher.spec_key() == self.session_key@
        &&& self.tx_cipher.spec_nonce().session_id == self.spec_sid32()
        &&& self.rx_cipher.spec_nonce().session_id == self.spec_sid32()
        &&& self.tx_cipher.spec_nonce().counter == self.tx_sequence as u64
        &&& rw_inv(self.rx_replay_window@)
        &&& self.rx_replay_window@.2.len() == REPLAY_WINDOW_SIZE
    }

    /// A fresh session around a key: counters at zero, all times `now`.
    pub fn new(session_id: u64, session_key: SessionKey, mimicry_profile: MimicryProfile, now: u64)
        -> (r: Session)
        requires
            session_key@.len() == CHACHA20_KEY_SIZE,
        ensures
            r.wf(),
            r.spec_session_id() == session_id,
            r.spec_key() == session_key@,
            r.spec_profile() == mimicry_profile,
            r.spec_tx_sequence() == 0,
            r.spec_window().0 == false,
            r.spec_rekey_required() == false,
            r.spec_created_at() == now,
            r.spec_last_activity() == now,
            r.spec_last_keepalive() == now,
    {
        let tx_cipher = AeadCipher::new(&session_key, session_id);
        let rx_cipher = AeadCipher::new(&session_key, session_id);
        Session {
            session_id,
            session_key,
            tx_cipher,
            rx_cipher,
            mimicry_profile,
            created_at: now,
            last_activity: now,
            last_keepalive: now,
            tx_sequence: 0,
            rx_replay_window: ReplayWindow::new(REPLAY_WINDOW_SIZE),
            rekey_required: false,
        }
    }

    /// The session id.
    pub fn session_id(&self) -> (r: u64)
        ensures
            r == self.spec_session_id(),
    {
        self.session_id
    }

    /// The mimicry profile.
    pub fn mimicry_profile(&self) -> (r: MimicryProfile)
        ensures
            r == self.spec_profile(),
    {
        self.mimicry_profile
    }

    /// Encrypt an outgoing payload. Returns the ciphertext with its tag and
    /// the sequence number used — the TX counter before the call — and
    /// steps the counter. Crossing half the counter space sets the rekey
    /// flag; exhausting it fails with `RekeyRequired`. The ciphertext is the
    /// AEAD of the plaintext under the session key and the nonce
    /// `(sequence, session_id)`, and opens back to the plaintext.
    pub fn encrypt_payload(&mut self, plaintext: &[u8], aad: &[u8], now: u64) -> (r: Result<
        (Vec<u8>, u32),
        LlpError,
    >)
        requires
            old(self).wf(),
        ensures
            final(self).wf(),
            final(self).spec_session_id() == old(self).spec_session_id(),
            final(self).spec_key() == old(self).spec_key(),
            final(self).spec_profile() == old(self).spec_profile(),
            final(self).spec_window() == old(self).spec_window(),
            final(self).spec_created_at() == old(self).spec_created_at(),
            final(self).spec_last_keepalive() == old(self).spec_last_keepalive(),
            old(self).spec_tx_sequence() == u32::MAX ==> r == Err::<(Vec<u8>, u32), _>(
                LlpError::SessionError(
                    SessionError::RekeyRequired { session_id: old(self).spec_session_id() },
                ),
            ) && *final(self) == *old(self),
            r is Err ==> *final(self) == *old(self),
            r matches Ok(out) ==> {
                &&& out.1 == old(self).spec_tx_sequence()
                &&& out.0@ == aead_seal(
                    old(self).spec_key(),
                    spec_nonce_bytes(out.1 as u64, old(self).spec_sid32()),
                    aad@,
                    plaintext@,
                )
                &&& aead_open(
                    old(self).spec_key(),
                    spec_nonce_bytes(out.1 as u64, old(self).spec_sid32()),
                    aad@,
                    out.0@,
                ) == Some(plaintext@)
                &&& out.0@.len() == plaintext@.len() + POLY1305_TAG_SIZE
                &&& final(self).spec_tx_sequence() == old(self).spec_tx_sequence() + 1
                &&& final(self).spec_rekey_required() == (old(self).spec_rekey_required() || old(
                    self,
                ).spec_tx_sequence() + 1 >= 0x80000000)
                &&& final(self).spec_last_activity() == now
            },
            plaintext@.len() <= 0xFFFFFFFF && old(self).spec_tx_sequence() < u32::MAX ==> r is Ok,
    {
        if self.tx_sequence == u32::MAX {
            return Err(
                LlpError::SessionError(
                    SessionError::RekeyRequired { session_id: self.session_id },
                ),
            );
        }
        let sequence = self.tx_sequence;
        let ciphertext = match self.tx_cipher.encrypt(plaintext, aad) {
            Ok(ct) => ct,
            Err(e) => {
                return Err(e);
            },
        };
        self.tx_sequence = self.tx_sequence + 1;
        if self.tx_sequence >= 0x80000000 {
            self.rekey_required = true;
        }
        self.last_activity = now;
        Ok((ciphertext, sequence))
    }

    /// Decrypt an incoming payload. The replay window is consulted before
    /// the AEAD — a sequence below the window is `SequenceOutOfWindow`, one
    /// already accepted is `DuplicateSequenceNumber` — and the window is
    /// moved only after the AEAD verified, so forged sequence numbers cannot
    /// poison it. Success is exactly the AEAD opening under the nonce
    /// `(sequence, session_id)`.
    pub fn decrypt_payload(&mut self, ciphertext: &[u8], aad: &[u8], sequence_number: u32, now: u64)
        -> (r: Result<Vec<u8>, LlpError>)
        requires
            old(self).wf(),
        ensures
            final(self).wf(),
            final(self).spec_session_id() == old(self).spec_session_id(),
            final(self).spec_key() == old(self).spec_key(),
            final(self).spec_profile() == old(self).spec_profile(),
            final(self).spec_tx_sequence() == old(self).spec_tx_sequence(),
            final(self).spec_rekey_required() == old(self).spec_rekey_required(),
            final(self).spec_created_at() == old(self).spec_created_at(),
            r is Err ==> *final(self) == *old(self),
            !rw_accepts(old(self).spec_window(), sequence_number) && rw_below_window(
                old(self).spec_window(),
                sequence_number,
            ) ==> r == Err::<Vec<u8>, _>(
                LlpError::SessionError(
                    SessionError::SequenceOutOfWindow {
                        session_id: old(self).spec_session_id(),
                        seq: sequence_number,
                    },
                ),
            ),
            !rw_accepts(old(self).spec_window(), sequence_number) && !rw_below_window(
                old(self).spec_window(),
                sequence_number,
            ) ==> r == Err::<Vec<u8>, _>(
                LlpError::SessionError(
                    SessionError::DuplicateSequenceNumber {
                        session_id: old(self).spec_session_id(),
                        seq: sequence_number,
                    },
                ),
            ),
            rw_accepts(old(self).spec_window(), sequence_number) ==> ({
                let opened = aead_open(
                    old(self).spec_key(),
                    spec_nonce_bytes(sequence_number as u64, old(self).spec_sid32()),
                    aad@,
                    ciphertext@,
                );
                if opened is Some {
                    &&& r is Ok
                    &&& r->Ok_0@ == opened.unwrap()
                    &&& final(self).spec_window() == rw_step(
                        old(self).spec_window(),
                        sequence_number,
                    )
                    &&& final(self).spec_last_activity() == now
                    &&& final(self).spec_last_keepalive() == now
                } else {
                    r == Err::<Vec<u8>, LlpError>(
                        LlpError::CryptoError(CryptoError::Decryption),
                    ) && *final(self) == *old(self)
                }
            }),
    {
        if !self.rx_replay_window.check(sequence_number) {
            if self.rx_replay_window.highest() >= sequence_number && self.rx_replay_window.highest()
                - sequence_number >= REPLAY_WINDOW_SIZE as u32 {
                return Err(
                    LlpError::SessionError(
                        SessionError::SequenceOutOfWindow {
                            session_id: self.session_id,
                            seq: sequence_number,
                        },
                    ),
                );
            }
            return Err(
                LlpError::SessionError(
                    SessionError::DuplicateSequenceNumber {
                        session_id: self.session_id,
                        seq: sequence_number,
                    },
                ),
            );
        }
        let plaintext = match self.rx_cipher.decrypt(ciphertext, aad, sequence_number as u64) {
            Ok(pt) => pt,
            Err(e) => {
                return Err(e);
            },
        };
        let accepted = self.rx_replay_window.check_and_update(sequence_number);
        self.last_activity = now;
        self.last_keepalive = now;
        Ok(plaintext)
    }

    /// Check a packet's timestamp against the local clock: accepted exactly
    /// when it lies within [`MAX_TIMESTAMP_DRIFT_SECS`] of `now_unix`,
    /// in either direction.
    pub fn validate_timestamp(&self, packet_timestamp: u32, now_unix: u64) -> (r: Result<
        (),
        LlpError,
    >)
        requires
            now_unix <= i64::MAX,
        ensures
            r is Ok <==> ({
                let delta = if now_unix >= packet_timestamp {
                    now_unix - packet_timestamp
                } else {
                    packet_timestamp - now_unix
                };
                delta <= MAX_TIMESTAMP_DRIFT_SECS
            }),
            r is Err ==> r == Err::<(), _>(
                LlpError::SessionError(
                    SessionError::InvalidTimestamp {
                        session_id: self.spec_session_id(),
                        delta_sec: (if now_unix >= packet_timestamp {
                            now_unix - packet_timestamp
                        } else {
                            packet_timestamp - now_unix
                        }) as i64,
                    },
                ),
            ),
    {
        let now = now_unix as i64;
        let packet_time = packet_timestamp as i64;
        let delta: i64 = if now >= packet_time {
            now - packet_time
        } else {
            packet_time - now
        };
        if delta > MAX_TIMESTAMP_DRIFT_SECS as i64 {
            return Err(
                LlpError::SessionError(
                    SessionError::InvalidTimestamp {
                        session_id: self.session_id,
                        delta_sec: delta,
                    },
                ),
            );
        }
        Ok(())
    }

    /// Whether the session's lifetime has elapsed.
    pub fn is_expired(&self, lifetime_secs: u64, now: u64) -> (r: bool)
        ensures
            r == (spec_elapsed(self.spec_created_at(), now) > lifetime_secs),
    {
        let elapsed = if now >= self.created_at {
            now - self.created_at
        } else {
            0
        };
        elapsed > lifetime_secs
    }

    /// Whether the session has idled past the keepalive interval.
    pub fn needs_keepalive(&self, now: u64) -> (r: bool)
        ensures
            r == (spec_elapsed(self.spec_last_activity(), now) > KEEPALIVE_INTERVAL_SECS),
    {
        let elapsed = if now >= self.last_activity {
            now - self.last_activity
        } else {
            0
        };
        elapsed > KEEPALIVE_INTERVAL_SECS
    }

    /// Whether no traffic at all arrived within the keepalive timeout.
    pub fn is_keepalive_timeout(&self, now: u64) -> (r: bool)
        ensures
            r == (spec_elapsed(self.spec_last_keepalive(), now) > KEEPALIVE_TIMEOUT_SECS),
    {
        let elapsed = if now >= self.last_keepalive {
            now - self.last_keepalive
        } else {
            0
        };
        elapsed > KEEPALIVE_TIMEOUT_SECS
    }

    /// Whether the TX counter crossed the rekey threshold.
    pub fn needs_rekey(&self) -> (r: bool)
        ensures
            r == self.spec_rekey_required(),
    {
        self.rekey_required
    }

    /// Record that a keepalive arrived now.
    pub fn mark_keepalive_received(&mut self, now: u64)
        requires
            old(self).wf(),
        ensures
            final(self).wf(),
            final(self).spec_last_keepalive() == now,
            final(self).spec_last_activity() == now,
            final(self).spec_session_id() == old(self).spec_session_id(),
            final(self).spec_key() == old(self).spec_key(),
            final(self).spec_profile() == old(self).spec_profile(),
            final(self).spec_tx_sequence() == old(self).spec_tx_sequence(),
            final(self).spec_window() == old(self).spec_window(),
            final(self).spec_rekey_required() == old(self).spec_rekey_required(),
            final(self).spec_created_at() == old(self).spec_created_at(),
    {
        self.last_keepalive = now;
        self.last_activity = now;
    }

    /// Seconds since the last activity.
    pub fn idle_time(&self, now: u64) -> (r: u64)
        ensures
            r == spec_elapsed(self.spec_last_activity(), now),
    {
        if now >= self.last_activity {
            now - self.last_activity
        } else {
            0
        }
    }

    /// The TX counter the next encryption will use.
    pub fn current_tx_sequence(&self) -> (r: u32)
        ensures
            r == self.spec_tx_sequence(),
    {
        self.tx_sequence
    }
}

/// Whether a session is still live at time `now`: neither its lifetime nor
/// the keepalive timeout has elapsed.
pub open spec fn spec_session_live(s: Session, lifetime_secs: u64, now: u64) -> bool {
    &&& spec_elapsed(s.spec_created_at(), now) <= lifetime_secs
    &&& spec_elapsed(s.spec_last_keepalive(), now) <= KEEPALIVE_TIMEOUT_SECS
}

/// Pairwise distinct session ids.
pub open spec fn distinct_ids(s: Seq<Session>) -> bool {
    forall|i: int, j: int|
        0 <= i < j < s.len() ==> s[i].spec_session_id() != s[j].spec_session_id()
}

/// Filtering a sequence extended by one element keeps or drops exactly that
/// element.
proof fn lemma_filter_push<A>(s: Seq<A>, e: A, pred: spec_fn(A) -> bool)
    ensures
        pred(e) ==> s.push(e).filter(pred) == s.filter(pred).push(e),
        !pred(e) ==> s.push(e).filter(pred) == s.filter(pred),
{
    reveal(Seq::filter);
    assert(s.push(e).drop_last() =~= s);
    assert(s.push(e).last() == e);
}

/// A filtered sequence keeps distinct session ids, and every element of it
/// stands in the unfiltered sequence.
proof fn lemma_filter_distinct_ids(s: Seq<Session>, pred: spec_fn(Session) -> bool)
    requires
        distinct_ids(s),
    ensures
        distinct_ids(s.filter(pred)),
        forall|k: int| 0 <= k < s.filter(pred).len() ==> s.contains(#[trigger] s.filter(pred)[k]),
    decreases s.len(),
{
    reveal(Seq::filter);
    if s.len() == 0 {
    } else {
        let d = s.drop_last();
        let e = s.last();
        assert(distinct_ids(d)) by {
            assert(forall|i: int| 0 <= i < d.len() ==> d[i] == s[i]);
        }
        lemma_filter_distinct_ids(d, pred);
        lemma_filter_push(d, e, pred);
        assert(d.push(e) =~= s);
        assert(forall|k: int| 0 <= k < d.filter(pred).len() ==> s.contains(
            #[trigger] d.filter(pred)[k],
        )) by {
            assert forall|k: int| 0 <= k < d.filter(pred).len() implies s.contains(
                #[trigger] d.filter(pred)[k],
            ) by {
                assert(d.contains(d.filter(pred)[k]));
                let idx = choose|idx: int| 0 <= idx < d.len() && d[idx] == d.filter(pred)[k];
                assert(s[idx] == d.filter(pred)[k]);
            }
        }
        if pred(e) {
            assert(s.filter(pred) == d.filter(pred).push(e));
            assert forall|i: int, j: int|
                0 <= i < j < s.filter(pred).len() implies (#[trigger] s.filter(pred)[i]).spec_session_id() != (
            #[trigger] s.filter(pred)[j]).spec_session_id() by {
                if j == s.filter(pred).len() - 1 {
                    assert(s.filter(pred)[j] == e);
                    assert(d.contains(d.filter(pred)[i]));
                    let idx = choose|idx: int| 0 <= idx < d.len() && d[idx] == d.filter(pred)[i];
                    assert(s[idx] == s.filter(pred)[i]);
                    assert(s[s.len() - 1] == e);
                } else {
                    assert(s.filter(pred)[i] == d.filter(pred)[i]);
                    assert(s.filter(pred)[j] == d.filter(pred)[j]);
                }
            }
        }
    }
}

/// The registry of active sessions, keyed by session id.
pub struct SessionManager {
    sessions: Vec<Session>,
    session_lifetime_secs: u64,
}

impl SessionManager {
    /// The stored sessions, for contracts.
    pub closed spec fn spec_sessions(&self) -> Seq<Session> {
        self.sessions@
    }

    /// The configured session lifetime, for contracts.
    pub closed spec fn spec_lifetime(&self) -> u64 {
        self.session_lifetime_secs
    }

    /// Whether a session with this id is stored.
    pub open spec fn spec_has(&self, session_id: u64) -> bool {
        exists|i: int|
            0 <= i < self.spec_sessions().len() && self.spec_sessions()[i].spec_session_id()
                == session_id
    }

    /// The manager's invariant: every stored session is well-formed and the
    /// ids are unique.
    pub open spec fn wf(&self) -> bool {
        &&& forall|i: int|
            0 <= i < self.spec_sessions().len() ==> (#[trigger] self.spec_sessions()[i]).wf()
        &&& distinct_ids(self.spec_sessions())
    }

    /// An empty manager with the default session lifetime.
    pub fn new() -> (r: SessionManager)
        ensures
            r.wf(),
            r.spec_sessions().len() == 0,
            r.spec_lifetime() == DEFAULT_SESSION_LIFETIME_SECS,
    {
        SessionManager { sessions: Vec::new(), session_lifetime_secs: DEFAULT_SESSION_LIFETIME_SECS }
    }

    /// An empty manager with the given session lifetime, in seconds.
    pub fn with_lifetime(session_lifetime_secs: u64) -> (r: SessionManager)
        ensures
            r.wf(),
            r.spec_sessions().len() == 0,
            r.spec_lifetime() == session_lifetime_secs,
    {
        SessionManager { sessions: Vec::new(), session_lifetime_secs }
    }

    /// The index of the session with this id, if any.
    fn find_index(&self, session_id: u64) -> (r: Option<usize>)
        ensures
            r is Some <==> self.spec_has(session_id),
            r matches Some(i) ==> i < self.spec_sessions().len() && self.spec_sessions()[
                i as int
            ].spec_session_id() == session_id,
    {
        let mut i: usize = 0;
        while i < self.sessions.len()
            invariant
                i <= self.spec_sessions().len(),
                forall|k: int|
                    0 <= k < i ==> self.spec_sessions()[k].spec_session_id() != session_id,
            decreases self.spec_sessions().len() - i,
        {
            if self.sessions[i].session_id() == session_id {
                return Some(i);
            }
            i = i + 1;
        }
        None
    }

    /// Register a new session under `session_id`. A full table is
    /// `TooManySessions`; a taken id is `SessionAlreadyExists`; otherwise the
    /// session is appended with counters at zero and all times `now`.
    pub fn add_session(
        &mut self,
        session_id: u64,
        session_key: SessionKey,
        mimicry_profile: MimicryProfile,
        now: u64,
    ) -> (r: Result<(), LlpError>)
        requires
            old(self).wf(),
            session_key@.len() == CHACHA20_KEY_SIZE,
        ensures
            final(self).wf(),
            final(self).spec_lifetime() == old(self).spec_lifetime(),
            old(self).spec_sessions().len() >= MAX_SESSIONS ==> r == Err::<(), _>(
                LlpError::SessionError(
                    SessionError::TooManySessions {
                        current: old(self).spec_sessions().len() as usize,
                        max: MAX_SESSIONS,
                    },
                ),
            ) && *final(self) == *old(self),
            old(self).spec_sessions().len() < MAX_SESSIONS && old(self).spec_has(session_id) ==> r
                == Err::<(), _>(
                LlpError::SessionError(SessionError::SessionAlreadyExists { session_id }),
            ) && *final(self) == *old(self),
            old(self).spec_sessions().len() < MAX_SESSIONS && !old(self).spec_has(session_id)
                ==> ({
                &&& r is Ok
                &&& final(self).spec_sessions().len() == old(self).spec_sessions().len() + 1
                &&& forall|i: int|
                    0 <= i < old(self).spec_sessions().len() ==> final(self).spec_sessions()[i]
                        == old(self).spec_sessions()[i]
                &&& ({
                    let s = final(self).spec_sessions().last();
                    &&& s.spec_session_id() == session_id
                    &&& s.spec_key() == session_key@
                    &&& s.spec_profile() == mimicry_profile
                    &&& s.spec_tx_sequence() == 0
                    &&& s.spec_created_at() == now
                })
                &&& final(self).spec_has(session_id)
            }),
    {
        if self.sessions.len() >= MAX_SESSIONS {
            return Err(
                LlpError::SessionError(
                    SessionError::TooManySessions {
                        current: self.sessions.len(),
                        max: MAX_SESSIONS,
                    },
                ),
            );
        }
        if let Some(_) = self.find_index(session_id) {
            return Err(LlpError::SessionError(SessionError::SessionAlreadyExists { session_id }));
        }
        let session = Session::new(session_id, session_key, mimicry_profile, now);
        self.sessions.push(session);
        Ok(())
    }

    /// Borrow the session with this id; `SessionNotFound` if none is stored.
    pub fn get_session(&self, session_id: u64) -> (r: Result<&Session, LlpError>)
        requires
            self.wf(),
        ensures
            r is Ok <==> self.spec_has(session_id),
            r matches Ok(s) ==> s.spec_session_id() == session_id && s.wf() && exists|i: int|
                0 <= i < self.spec_sessions().len() && *s == self.spec_sessions()[i],
            !self.spec_has(session_id) ==> r == Err::<&Session, _>(
                LlpError::SessionError(SessionError::SessionNotFound { session_id }),
            ),
    {
        match self.find_index(session_id) {
            Some(i) => {
                let s = &self.sessions[i];
                assert(*s == self.spec_sessions()[i as int]);
                Ok(s)
            },
            None => Err(LlpError::SessionError(SessionError::SessionNotFound { session_id })),
        }
    }

    /// Borrow the session with this id mutably; `SessionNotFound` if none is
    /// stored. The manager afterwards holds whatever the caller leaves in
    /// the borrow; its invariant holds again provided the caller keeps the
    /// session well-formed and does not change its id.
    pub fn get_session_mut(&mut self, session_id: u64) -> (r: Result<&mut Session, LlpError>)
        requires
            old(self).wf(),
        ensures
            r is Ok <==> old(self).spec_has(session_id),
            !old(self).spec_has(session_id) ==> (r matches Err(e) && e == LlpError::SessionError(
                SessionError::SessionNotFound { session_id },
            ) && *final(self) == *old(self)),
            r matches Ok(s) ==> {
                &&& (*s).spec_session_id() == session_id
                &&& (*s).wf()
                &&& exists|i: int|
                    {
                        &&& 0 <= i < old(self).spec_sessions().len()
                        &&& *s == old(self).spec_sessions()[i]
                        &&& final(self).spec_sessions() == old(self).spec_sessions().update(
                            i,
                            *final(s),
                        )
                    }
                &&& final(self).spec_lifetime() == old(self).spec_lifetime()
                &&& (final(s).wf() && final(s).spec_session_id() == session_id
                    ==> final(self).wf())
            },
    {
        match self.find_index(session_id) {
            Some(i) => {
                let s = &mut self.sessions[i];
                Ok(s)
            },
            None => Err(LlpError::SessionError(SessionError::SessionNotFound { session_id })),
        }
    }

    /// Drop the session with this id; `SessionNotFound` if none is stored.
    pub fn remove_session(&mut self, session_id: u64) -> (r: Result<(), LlpError>)
        requires
            old(self).wf(),
        ensures
            final(self).wf(),
            final(self).spec_lifetime() == old(self).spec_lifetime(),
            r is Ok <==> old(self).spec_has(session_id),
            !old(self).spec_has(session_id) ==> r == Err::<(), _>(
                LlpError::SessionError(SessionError::SessionNotFound { session_id }),
            ) && *final(self) == *old(self),
            r is Ok ==> exists|i: int|
                {
                    &&& 0 <= i < old(self).spec_sessions().len()
                    &&& old(self).spec_sessions()[i].spec_session_id() == session_id
                    &&& final(self).spec_sessions() == old(self).spec_sessions().remove(i)
                },
            r is Ok ==> !final(self).spec_has(session_id),
    {
        match self.find_index(session_id) {
            Some(i) => {
                let ghost old_seq = self.sessions@;
                let ghost idx = i as int;
                let _ = self.sessions.remove(i);
                proof {
                    assert(self.sessions@ =~= old_seq.remove(idx));
                    assert forall|k: int|
                        0 <= k < self.sessions@.len() implies (
                    #[trigger] self.sessions@[k]).spec_session_id() != session_id by {
                        if k < idx {
                            assert(self.sessions@[k] == old_seq[k]);
                        } else {
                            assert(self.sessions@[k] == old_seq[k + 1]);
                        }
                    }
                    assert forall|a: int, b: int|
                        0 <= a < b < self.sessions@.len() implies (
                    #[trigger] self.sessions@[a]).spec_session_id() != (
                    #[trigger] self.sessions@[b]).spec_session_id() by {
                        let oa = if a < idx {
                            a
                        } else {
                            a + 1
                        };
                        let ob = if b < idx {
                            b
                        } else {
                            b + 1
                        };
                        assert(self.sessions@[a] == old_seq[oa]);
                        assert(self.sessions@[b] == old_seq[ob]);
                    }
                }
                Ok(())
            },
            None => Err(LlpError::SessionError(SessionError::SessionNotFound { session_id })),
        }
    }

    /// Drop every session whose lifetime elapsed or whose keepalive timed
    /// out; the live sessions stay, in order. Returns how many were dropped.
    pub fn cleanup_expired(&mut self, now: u64) -> (r: usize)
        requires
            old(self).wf(),
        ensures
            final(self).wf(),
            final(self).spec_lifetime() == old(self).spec_lifetime(),
            final(self).spec_sessions() == old(self).spec_sessions().filter(
                |s: Session| spec_session_live(s, old(self).spec_lifetime(), now),
            ),
            r == old(self).spec_sessions().len() - final(self).spec_sessions().len(),
    {
        let ghost orig = self.sessions@;
        let ghost pred = |s: Session| spec_session_live(s, old(self).spec_lifetime(), now);
        let initial_count = self.sessions.len();
        let lifetime = self.session_lifetime_secs;
        let mut i: usize = 0;
        proof {
            assert(orig.take(0) =~= Seq::<Session>::empty());
            assert(orig.skip(0) =~= orig);
            reveal(Seq::filter);
        }
        while i < self.sessions.len()
            invariant
                old(self).wf(),
                i <= self.sessions@.len(),
                self.sessions@.len() <= orig.len(),
                lifetime == old(self).spec_lifetime(),
                self.session_lifetime_secs == old(self).spec_lifetime(),
                pred == (|s: Session| spec_session_live(s, old(self).spec_lifetime(), now)),
                orig == old(self).spec_sessions(),
                self.sessions@.take(i as int) == orig.take(
                    i + orig.len() - self.sessions@.len(),
                ).filter(pred),
                self.sessions@.skip(i as int) == orig.skip(i + orig.len() - self.sessions@.len()),
            decreases self.sessions@.len() - i,
        {
            let ghost j = i + orig.len() - self.sessions@.len();
            let ghost pre = self.sessions@;
            proof {
                assert(pre.skip(i as int)[0] == orig.skip(j)[0]);
                assert(pre[i as int] == orig[j]);
            }
            let live = {
                let s = &self.sessions[i];
                let expired = s.is_expired(lifetime, now);
                let timed_out = s.is_keepalive_timeout(now);
                !expired && !timed_out
            };
            proof {
                assert(live == pred(orig[j]));
                assert(orig.take(j + 1) =~= orig.take(j).push(orig[j]));
                lemma_filter_push(orig.take(j), orig[j], pred);
            }
            if live {
                i = i + 1;
                proof {
                    assert(self.sessions@.take(i as int) =~= pre.take(i - 1).push(orig[j]));
                    assert(self.sessions@.skip(i as int) =~= pre.skip(i - 1).drop_first());
                    assert(orig.skip(j + 1) =~= orig.skip(j).drop_first());
                }
            } else {
                let _ = self.sessions.remove(i);
                proof {
                    assert(self.sessions@ =~= pre.remove(i as int));
                    assert(self.sessions@.take(i as int) =~= pre.take(i as int));
                    assert(self.sessions@.skip(i as int) =~= pre.skip(i + 1));
                    assert(pre.skip(i + 1) =~= pre.skip(i as int).drop_first());
                    assert(orig.skip(j + 1) =~= orig.skip(j).drop_first());
                }
            }
        }
        proof {
            let j = i + orig.len() - self.sessions@.len();
            assert(self.sessions@.skip(i as int).len() == 0);
            assert(orig.skip(j).len() == 0);
            assert(j == orig.len());
            assert(orig.take(j) =~= orig);
            assert(self.sessions@.take(i as int) =~= self.sessions@);
            lemma_filter_distinct_ids(orig, pred);
            assert forall|k: int| 0 <= k < self.sessions@.len() implies (
            #[trigger] self.sessions@[k]).wf() by {
                assert(orig.contains(self.sessions@[k]));
            }
        }
        initial_count - self.sessions.len()
    }

    /// The ids of the sessions that have idled past the keepalive interval,
    /// in storage order.
    pub fn sessions_needing_keepalive(&self, now: u64) -> (r: Vec<u64>)
        requires
            self.wf(),
        ensures
            r@ == self.spec_sessions().filter(
                |s: Session| spec_elapsed(s.spec_last_activity(), now) > KEEPALIVE_INTERVAL_SECS,
            ).map_values(|s: Session| s.spec_session_id()),
    {
        let ghost pred = |s: Session|
            spec_elapsed(s.spec_last_activity(), now) > KEEPALIVE_INTERVAL_SECS;
        let mut out: Vec<u64> = Vec::new();
        let mut i: usize = 0;
        proof {
            assert(self.spec_sessions().take(0) =~= Seq::<Session>::empty());
            reveal(Seq::filter);
        }
        while i < self.sessions.len()
            invariant
                self.wf(),
                i <= self.spec_sessions().len(),
                pred == (|s: Session|
                    spec_elapsed(s.spec_last_activity(), now) > KEEPALIVE_INTERVAL_SECS),
                out@ == self.spec_sessions().take(i as int).filter(pred).map_values(
                    |s: Session| s.spec_session_id(),
                ),
            decreases self.spec_sessions().len() - i,
        {
            let ghost prefix = self.spec_sessions().take(i as int);
            proof {
                assert(self.spec_sessions().take(i + 1) =~= prefix.push(
                    self.spec_sessions()[i as int],
                ));
                lemma_filter_push(prefix, self.spec_sessions()[i as int], pred);
            }
            if self.sessions[i].needs_keepalive(now) {
                out.push(self.sessions[i].session_id());
                proof {
                    assert(out@ =~= self.spec_sessions().take(i + 1).filter(pred).map_values(
                        |s: Session| s.spec_session_id(),
                    ));
                }
            } else {
                proof {
                    assert(out@ =~= self.spec_sessions().take(i + 1).filter(pred).map_values(
                        |s: Session| s.spec_session_id(),
                    ));
                }
            }
            i = i + 1;
        }
        proof {
            assert(self.spec_sessions().take(i as int) =~= self.spec_sessions());
        }
        out
    }

    /// The ids of the sessions whose TX counter crossed the rekey threshold,
    /// in storage order.
    pub fn sessions_needing_rekey(&self) -> (r: Vec<u64>)
        requires
            self.wf(),
        ensures
            r@ == self.spec_sessions().filter(|s: Session| s.spec_rekey_required()).map_values(
                |s: Session| s.spec_session_id(),
            ),
    {
        let ghost pred = |s: Session| s.spec_rekey_required();
        let mut out: Vec<u64> = Vec::new();
        let mut i: usize = 0;
        proof {
            assert(self.spec_sessions().take(0) =~= Seq::<Session>::empty());
            reveal(Seq::filter);
        }
        while i < self.sessions.len()
            invariant
                self.wf(),
                i <= self.spec_sessions().len(),
                pred == (|s: Session| s.spec_rekey_required()),
                out@ == self.spec_sessions().take(i as int).filter(pred).map_values(
                    |s: Session| s.spec_session_id(),
                ),
            decreases self.spec_sessions().len() - i,
        {
            let ghost prefix = self.spec_sessions().take(i as int);
            proof {
                assert(self.spec_sessions().take(i + 1) =~= prefix.push(
                    self.spec_sessions()[i as int],
                ));
                lemma_filter_push(prefix, self.spec_sessions()[i as int], pred);
            }
            if self.sessions[i].needs_rekey() {
                out.push(self.sessions[i].session_id());
                proof {
                    assert(out@ =~= self.spec_sessions().take(i + 1).filter(pred).map_values(
                        |s: Session| s.spec_session_id(),
                    ));
                }
            } else {
                proof {
                    assert(out@ =~= self.spec_sessions().take(i + 1).filter(pred).map_values(
                        |s: Session| s.spec_session_id(),
                    ));
                }
            }
            i = i + 1;
        }
        proof {
            assert(self.spec_sessions().take(i as int) =~= self.spec_sessions());
        }
        out
    }

    /// How many sessions are stored.
    pub fn session_count(&self) -> (r: usize)
        ensures
            r == self.spec_sessions().len(),
    {
        self.sessions.len()
    }

    /// Whether a session with this id is stored.
    pub fn has_session(&self, session_id: u64) -> (r: bool)
        ensures
            r == self.spec_has(session_id),
    {
        match self.find_index(session_id) {
            Some(_) => true,
            None => false,
        }
    }
}

} // verus!
