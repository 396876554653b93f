//! The ordered chat log.
//!
//! Messages carry a closed role tag and are never mutated after creation.
//! The log is append-only except for a wholesale clear; polling feeds it
//! through [`ChatLog::ingest_remote`], which drops candidates at or below
//! the watermark and candidates whose role and timestamp are already known,
//! and persistence reads it through [`ChatLog::trim_for_persistence`], which
//! keeps the newest entries without touching the live log.

use vstd::prelude::*;

use crate::strings::str_eq;
use crate::time::format_timestamp;

verus! {

/// Who a chat message comes from.
#[derive(Clone, Copy, PartialEq, Eq, Structural, Debug)]
pub enum Role {
    User,
    Assistant,
    System,
    Error,
}

/// The role that a wire string denotes; anything unrecognised reads as a
/// local notice.
pub open spec fn wire_role(s: Seq<char>) -> Role {
    if s == "user"@ {
        Role::User
    } else if s == "assistant"@ {
        Role::Assistant
    } else if s == "error"@ {
        Role::Error
    } else {
        Role::System
    }
}

impl Role {
    /// The role a server-reported role string denotes.
    pub fn parse(s: &str) -> (r: Role)
        ensures
            r == wire_role(s@),
    {
        if str_eq(s, "user") {
            Role::User
        } else if str_eq(s, "assistant") {
            Role::Assistant
        } else if str_eq(s, "error") {
            Role::Error
        } else {
            Role::System
        }
    }
}

/// One chat message. `created_at` is its wall-clock display string;
/// `created_at_ms` is set for every message except local display banners and
/// keys de-duplication together with the role.
pub struct Message {
    pub role: Role,
    pub content: String,
    pub created_at: String,
    pub created_at_ms: Option<u64>,
}

impl Message {
    /// A copy equal to this message.
    pub fn duplicate(&self) -> (m: Message)
        ensures
            m == *self,
    {
        Message {
            role: self.role,
            content: self.content.clone(),
            created_at: self.created_at.clone(),
            created_at_ms: self.created_at_ms,
        }
    }
}

/// A message as the server reports it from polling.
pub struct RemoteMessage {
    pub role: Role,
    pub content: String,
    pub timestamp: u64,
}

/// The de-duplication key of each message: its role and timestamp.
pub open spec fn message_keys(log: Seq<Message>) -> Seq<(Role, Option<u64>)> {
    log.map_values(|m: Message| (m.role, m.created_at_ms))
}

/// Whether a role/timestamp pair is already among the keys.
pub open spec fn key_known(keys: Seq<(Role, Option<u64>)>, role: Role, ts: u64) -> bool {
    exists|k: int| 0 <= k < keys.len() && keys[k] == (role, Some(ts))
}

/// Which candidates an ingestion keeps: those strictly newer than the
/// watermark whose role and timestamp are not yet known, each kept one
/// making its key known to the candidates after it.
pub open spec fn ingest_kept(
    keys: Seq<(Role, Option<u64>)>,
    cands: Seq<RemoteMessage>,
    watermark: u64,
) -> Seq<RemoteMessage>
    decreases cands.len(),
{
    if cands.len() == 0 {
        Seq::empty()
    } else {
        let c = cands[0];
        let rest = cands.drop_first();
        if c.timestamp > watermark && !key_known(keys, c.role, c.timestamp) {
            seq![c] + ingest_kept(keys.push((c.role, Some(c.timestamp))), rest, watermark)
        } else {
            ingest_kept(keys, rest, watermark)
        }
    }
}

/// The watermark an ingestion ends with: `acc` raised to the timestamp of
/// every kept candidate.
pub open spec fn ingest_watermark(
    keys: Seq<(Role, Option<u64>)>,
    cands: Seq<RemoteMessage>,
    watermark: u64,
    acc: u64,
) -> u64
    decreases cands.len(),
{
    if cands.len() == 0 {
        acc
    } else {
        let c = cands[0];
        let rest = cands.drop_first();
        if c.timestamp > watermark && !key_known(keys, c.role, c.timestamp) {
            ingest_watermark(
                keys.push((c.role, Some(c.timestamp))),
                rest,
                watermark,
                if c.timestamp > acc {
                    c.timestamp
                } else {
                    acc
                },
            )
        } else {
            ingest_watermark(keys, rest, watermark, acc)
        }
    }
}

/// A key is known after a push exactly when it was known before or is the
/// pushed key.
proof fn lemma_key_known_push(
    keys: Seq<(Role, Option<u64>)>,
    k: (Role, Option<u64>),
    role: Role,
    ts: u64,
)
    ensures
        key_known(keys.push(k), role, ts) <==> (key_known(keys, role, ts) || k == (
            role,
            Some(ts),
        )),
{
    if key_known(keys.push(k), role, ts) {
        let idx = choose|idx: int|
            0 <= idx < keys.push(k).len() && keys.push(k)[idx] == (role, Some(ts));
        if idx < keys.len() {
            assert(keys[idx] == (role, Some(ts)));
        }
    }
    if key_known(keys, role, ts) {
        let idx = choose|idx: int| 0 <= idx < keys.len() && keys[idx] == (role, Some(ts));
        assert(keys.push(k)[idx] == (role, Some(ts)));
    }
    if k == (role, Some(ts)) {
        assert(keys.push(k)[keys.len() as int] == (role, Some(ts)));
    }
}

/// The watermark an ingestion returns never sinks below its accumulator.
proof fn lemma_ingest_watermark_ge(
    keys: Seq<(Role, Option<u64>)>,
    cands: Seq<RemoteMessage>,
    watermark: u64,
    acc: u64,
)
    ensures
        ingest_watermark(keys, cands, watermark, acc) >= acc,
    decreases cands.len(),
{
    if cands.len() > 0 {
        let c = cands[0];
        let rest = cands.drop_first();
        if c.timestamp > watermark && !key_known(keys, c.role, c.timestamp) {
            lemma_ingest_watermark_ge(
                keys.push((c.role, Some(c.timestamp))),
                rest,
                watermark,
                if c.timestamp > acc {
                    c.timestamp
                } else {
                    acc
                },
            );
        } else {
            lemma_ingest_watermark_ge(keys, rest, watermark, acc);
        }
    }
}

/// Core of the idempotence law: once every kept candidate's key is known and
/// the watermark has not sunk, re-ingesting the same batch keeps nothing and
/// leaves the accumulator alone.
proof fn lemma_ingest_blocked(
    keys0: Seq<(Role, Option<u64>)>,
    keys1: Seq<(Role, Option<u64>)>,
    cands: Seq<RemoteMessage>,
    wm0: u64,
    wm1: u64,
    acc: u64,
)
    requires
        wm0 <= wm1,
        forall|r: Role, t: u64| key_known(keys0, r, t) ==> key_known(keys1, r, t),
        forall|j: int|
            0 <= j < ingest_kept(keys0, cands, wm0).len() ==> key_known(
                keys1,
                (#[trigger] ingest_kept(keys0, cands, wm0)[j]).role,
                ingest_kept(keys0, cands, wm0)[j].timestamp,
            ),
    ensures
        ingest_kept(keys1, cands, wm1) == Seq::<RemoteMessage>::empty(),
        ingest_watermark(keys1, cands, wm1, acc) == acc,
    decreases cands.len(),
{
    if cands.len() > 0 {
        let c = cands[0];
        let rest = cands.drop_first();
        let kept0 = ingest_kept(keys0, cands, wm0);
        if c.timestamp > wm0 && !key_known(keys0, c.role, c.timestamp) {
            let keys0p = keys0.push((c.role, Some(c.timestamp)));
            let keptp = ingest_kept(keys0p, rest, wm0);
            assert(kept0 == seq![c] + keptp);
            assert(kept0[0] == c);
            assert(key_known(keys1, c.role, c.timestamp));
            assert forall|r: Role, t: u64| key_known(keys0p, r, t) implies key_known(
                keys1,
                r,
                t,
            ) by {
                lemma_key_known_push(keys0, (c.role, Some(c.timestamp)), r, t);
            }
            assert forall|j: int| 0 <= j < keptp.len() implies key_known(
                keys1,
                (#[trigger] keptp[j]).role,
                keptp[j].timestamp,
            ) by {
                assert(kept0[j + 1] == keptp[j]);
            }
            lemma_ingest_blocked(keys0p, keys1, rest, wm0, wm1, acc);
        } else {
            if c.timestamp > wm1 {
                assert(key_known(keys0, c.role, c.timestamp));
            }
            assert(ingest_kept(keys0, cands, wm0) == ingest_kept(keys0, rest, wm0));
            lemma_ingest_blocked(keys0, keys1, rest, wm0, wm1, acc);
        }
    }
}

/// Law: ingestion is idempotent. Against the log and watermark that a first
/// ingestion of a candidate batch produced, ingesting the same batch again
/// keeps nothing: the log changes only once and the watermark stays put.
pub proof fn lemma_ingest_remote_idempotent(
    log0: Seq<Message>,
    log1: Seq<Message>,
    cands: Seq<RemoteMessage>,
    watermark: u64,
)
    requires
        ({
            let kept = ingest_kept(message_keys(log0), cands, watermark);
            &&& log1.len() == log0.len() + kept.len()
            &&& forall|i: int| 0 <= i < log0.len() ==> log1[i] == log0[i]
            &&& forall|i: int|
                0 <= i < kept.len() ==> (#[trigger] kept[i]).role == log1[log0.len() + i].role
                    && Some(kept[i].timestamp) == log1[log0.len() + i].created_at_ms
        }),
    ensures
        ({
            let wm1 = ingest_watermark(message_keys(log0), cands, watermark, watermark);
            &&& ingest_kept(message_keys(log1), cands, wm1) == Seq::<RemoteMessage>::empty()
            &&& ingest_watermark(message_keys(log1), cands, wm1, wm1) == wm1
        }),
{
    let keys0 = message_keys(log0);
    let keys1 = message_keys(log1);
    let kept = ingest_kept(keys0, cands, watermark);
    let wm1 = ingest_watermark(keys0, cands, watermark, watermark);
    lemma_ingest_watermark_ge(keys0, cands, watermark, watermark);
    assert forall|r: Role, t: u64| key_known(keys0, r, t) implies key_known(keys1, r, t) by {
        let k = choose|k: int| 0 <= k < keys0.len() && keys0[k] == (r, Some(t));
        assert(log1[k] == log0[k]);
        assert(keys1[k] == (r, Some(t)));
    }
    assert forall|j: int| 0 <= j < kept.len() implies key_known(
        keys1,
        (#[trigger] kept[j]).role,
        kept[j].timestamp,
    ) by {
        assert(keys1[log0.len() + j] == (kept[j].role, Some(kept[j].timestamp)));
    }
    lemma_ingest_blocked(keys0, keys1, cands, watermark, wm1, wm1);
}

/// The newest `limit` entries of a sequence, in their original order; a
/// sequence already within the limit is kept whole.
pub open spec fn newest<T>(s: Seq<T>, limit: int) -> Seq<T> {
    if s.len() <= limit {
        s
    } else {
        s.subrange(s.len() - limit, s.len() as int)
    }
}

/// Law: persistence trimming is idempotent and order-preserving — a
/// sequence already within the limit comes back unchanged, and trimming what
/// a trim returned changes nothing further.
pub proof fn lemma_trim_idempotent<T>(s: Seq<T>, limit: int)
    requires
        limit >= 0,
    ensures
        s.len() <= limit ==> newest(s, limit) == s,
        newest(newest(s, limit), limit) == newest(s, limit),
{
}

pub struct ChatLog {
    pub messages: Vec<Message>,
}

impl ChatLog {
    /// An empty log.
    pub fn new() -> (log: ChatLog)
        ensures
            log.messages@ == Seq::<Message>::empty(),
    {
        ChatLog { messages: Vec::new() }
    }

    /// Number of messages in the log.
    pub fn len(&self) -> (n: usize)
        ensures
            n == self.messages@.len(),
    {
        self.messages.len()
    }

    /// Append one message at the end.
    pub fn append(&mut self, m: Message)
        ensures
            final(self).messages@ == old(self).messages@.push(m),
    {
        self.messages.push(m);
    }

    /// Empty the log.
    pub fn clear(&mut self)
        ensures
            final(self).messages@ == Seq::<Message>::empty(),
    {
        self.messages.clear();
    }

    /// The newest `limit` messages in their original order, for persistence;
    /// the live log is left untouched.
    pub fn trim_for_persistence(&self, limit: usize) -> (r: Vec<Message>)
        ensures
            r@ == newest(self.messages@, limit as int),
    {
        let n = self.messages.len();
        let start = if n > limit {
            n - limit
        } else {
            0
        };
        let mut r: Vec<Message> = Vec::new();
        let mut i: usize = start;
        while i < n
            invariant
                n == self.messages@.len(),
                start <= i <= n,
                r@ == self.messages@.subrange(start as int, i as int),
            decreases n - i,
        {
            r.push(self.messages[i].duplicate());
            proof {
                assert(r@ =~= self.messages@.subrange(start as int, i + 1));
            }
            i = i + 1;
        }
        proof {
            assert(r@ =~= newest(self.messages@, limit as int));
        }
        r
    }

    /// Whether a message with this role and timestamp is already in the log.
    fn contains_key(&self, role: Role, ts: u64) -> (r: bool)
        ensures
            r == key_known(message_keys(self.messages@), role, ts),
    {
        let n = self.messages.len();
        let mut i: usize = 0;
        while i < n
            invariant
                n == self.messages@.len(),
                i <= n,
                forall|j: int|
                    0 <= j < i ==> !(self.messages@[j].role == role
                        && self.messages@[j].created_at_ms == Some(ts)),
            decreases n - i,
        {
            let m = &self.messages[i];
            let hit = match m.created_at_ms {
                Some(t) => t == ts && m.role == role,
                None => false,
            };
            if hit {
                proof {
                    assert(message_keys(self.messages@)[i as int] == (role, Some(ts)));
                }
                return true;
            }
            i = i + 1;
        }
        proof {
            assert forall|k: int| 0 <= k < n implies message_keys(self.messages@)[k] != (
                role,
                Some(ts),
            ) by {
                assert(message_keys(self.messages@)[k] == (
                    self.messages@[k].role,
                    self.messages@[k].created_at_ms,
                ));
            }
        }
        false
    }

    /// Fold a batch of server-reported messages into the log. A candidate is
    /// appended only if its timestamp lies strictly above the watermark and
    /// no message with its role and timestamp is known yet; the returned
    /// pair is the new watermark and how many candidates were appended.
    pub fn ingest_remote(&mut self, candidates: &Vec<RemoteMessage>, watermark: u64) -> (r: (
        u64,
        usize,
    ))
        ensures
            ({
                let kept = ingest_kept(message_keys(old(self).messages@), candidates@, watermark);
                &&& final(self).messages@.len() == old(self).messages@.len() + kept.len()
                &&& forall|i: int|
                    0 <= i < old(self).messages@.len() ==> final(self).messages@[i] == old(self).messages@[i]
                &&& forall|i: int|
                    0 <= i < kept.len() ==> {
                        let m = final(self).messages@[old(self).messages@.len() + i];
                        (#[trigger] kept[i]).role == m.role && kept[i].content == m.content
                            && Some(kept[i].timestamp) == m.created_at_ms
                    }
                &&& r.1 == kept.len()
                &&& r.0 == ingest_watermark(
                    message_keys(old(self).messages@),
                    candidates@,
                    watermark,
                    watermark,
                )
            }),
    {
        let ghost log0 = self.messages@;
        let ghost full_kept = ingest_kept(message_keys(log0), candidates@, watermark);
        let ghost full_wm = ingest_watermark(message_keys(log0), candidates@, watermark, watermark);
        let n = candidates.len();
        let mut i: usize = 0;
        let mut appended: usize = 0;
        let mut wm: u64 = watermark;
        proof {
            assert(candidates@.skip(0) =~= candidates@);
            assert(full_kept.take(0) + ingest_kept(message_keys(log0), candidates@, watermark)
                =~= full_kept);
        }
        while i < n
            invariant
                n == candidates@.len(),
                i <= n,
                appended <= i,
                appended <= full_kept.len(),
                self.messages@.len() == log0.len() + appended,
                forall|j: int| 0 <= j < log0.len() ==> self.messages@[j] == log0[j],
                full_kept == full_kept.take(appended as int) + ingest_kept(
                    message_keys(self.messages@),
                    candidates@.skip(i as int),
                    watermark,
                ),
                full_wm == ingest_watermark(
                    message_keys(self.messages@),
                    candidates@.skip(i as int),
                    watermark,
                    wm,
                ),
                forall|j: int|
                    0 <= j < appended ==> {
                        let m = self.messages@[log0.len() + j];
                        (#[trigger] full_kept[j]).role == m.role && full_kept[j].content
                            == m.content && Some(full_kept[j].timestamp) == m.created_at_ms
                    },
            decreases n - i,
        {
            let ghost keys_i = message_keys(self.messages@);
            let ghost rest = candidates@.skip(i as int);
            let ghost ck = (candidates@[i as int].role, Some(candidates@[i as int].timestamp));
            proof {
                assert(rest[0] == candidates@[i as int]);
                assert(rest.drop_first() =~= candidates@.skip(i + 1));
            }
            let c = &candidates[i];
            let fresh = c.timestamp > watermark && !self.contains_key(c.role, c.timestamp);
            if fresh {
                let m = Message {
                    role: c.role,
                    content: c.content.clone(),
                    created_at: format_timestamp(c.timestamp),
                    created_at_ms: Some(c.timestamp),
                };
                self.messages.push(m);
                proof {
                    let tail = ingest_kept(keys_i.push(ck), rest.drop_first(), watermark);
                    assert(message_keys(self.messages@) =~= keys_i.push(ck));
                    assert(ingest_kept(keys_i, rest, watermark) == seq![rest[0]] + tail);
                    assert(full_kept == full_kept.take(appended as int) + (seq![rest[0]] + tail));
                    assert(full_kept[appended as int] == candidates@[i as int]);
                    assert(appended + 1 <= full_kept.len());
                    assert(full_kept.take(appended + 1) =~= full_kept.take(appended as int)
                        + seq![rest[0]]);
                    assert((full_kept.take(appended as int) + seq![rest[0]]) + tail
                        =~= full_kept.take(appended as int) + (seq![rest[0]] + tail));
                    assert(full_kept == full_kept.take(appended + 1) + ingest_kept(
                        message_keys(self.messages@),
                        candidates@.skip(i + 1),
                        watermark,
                    ));
                    assert(ingest_watermark(keys_i, rest, watermark, wm) == ingest_watermark(
                        keys_i.push(ck),
                        rest.drop_first(),
                        watermark,
                        if candidates@[i as int].timestamp > wm {
                            candidates@[i as int].timestamp
                        } else {
                            wm
                        },
                    ));
                }
                if c.timestamp > wm {
                    wm = c.timestamp;
                }
                appended = appended + 1;
            } else {
                proof {
                    assert(ingest_kept(keys_i, rest, watermark) == ingest_kept(
                        keys_i,
                        rest.drop_first(),
                        watermark,
                    ));
                    assert(ingest_watermark(keys_i, rest, watermark, wm) == ingest_watermark(
                        keys_i,
                        rest.drop_first(),
                        watermark,
                        wm,
                    ));
                }
            }
            i = i + 1;
        }
        proof {
            assert(candidates@.skip(n as int) =~= Seq::<RemoteMessage>::empty());
            assert(full_kept =~= full_kept.take(appended as int));
        }
        (wm, appended)
    }
}

} // verus!
