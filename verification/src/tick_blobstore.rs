//! A blobstore for tests whose operations complete only when it is ticked, and a
//! log of the puts that a multiplexed blobstore reports.
use vstd::prelude::*;
use std::collections::VecDeque;
use vstd::hash_map::StringHashMap;
use vstd::string::StringSliceAdditionalSpecFns;

verus! {

/// The state of a tick-driven blobstore: the stored blobs, and the waiters of the
/// operations that are still pending, in the order in which they registered.
///
/// A waiter is whatever the caller uses to resume a pending operation (a channel's
/// sending end, say). An operation registers its waiter with `on_tick`; a `tick`
/// answers every pending waiter with the same message, `None` for success or the
/// error's text; once its waiter is answered with success, a read takes its value
/// with `get` and a write stores its value with `put`.
pub struct TickBlobstore<S> {
    storage: StringHashMap<Vec<u8>>,
    queue: VecDeque<S>,
}

/// The abstract state of a `TickBlobstore`.
pub struct TickBlobstoreView<S> {
    pub storage: Map<Seq<char>, Seq<u8>>,
    pub pending: Seq<S>,
}

impl<S> TickBlobstoreView<S> {
    /// The state after a new operation registered `send` as its waiter.
    pub open spec fn after_on_tick(self, send: S) -> Self {
        TickBlobstoreView { storage: self.storage, pending: self.pending.push(send) }
    }

    /// The waiters that a tick in this state answers, in the order it answers them.
    pub open spec fn answered(self) -> Seq<S> {
        self.pending
    }

    /// The state after a tick.
    pub open spec fn after_tick(self) -> Self {
        TickBlobstoreView { storage: self.storage, pending: Seq::empty() }
    }

    /// The state after `value` was stored under `key`.
    pub open spec fn after_put(self, key: Seq<char>, value: Seq<u8>) -> Self {
        TickBlobstoreView { storage: self.storage.insert(key, value), pending: self.pending }
    }

    /// What a read of `key` finds in this state.
    pub open spec fn lookup(self, key: Seq<char>) -> Option<Seq<u8>> {
        if self.storage.contains_key(key) {
            Some(self.storage[key])
        } else {
            None
        }
    }
}

impl<S> View for TickBlobstore<S> {
    type V = TickBlobstoreView<S>;

    closed spec fn view(&self) -> TickBlobstoreView<S> {
        TickBlobstoreView {
            storage: self.storage@.map_values(|v: Vec<u8>| v@),
            pending: self.queue@,
        }
    }
}

/// `message` is what a waiter receives from a tick with `error`: nothing on
/// success, the error's text on failure.
pub open spec fn tick_message_is(message: Option<String>, error: Option<&str>) -> bool {
    match error {
        None => message is None,
        Some(e) => message matches Some(m) && m@ == e@,
    }
}

fn tick_message(error: Option<&str>) -> (message: Option<String>)
    ensures
        tick_message_is(message, error),
{
    match error {
        None => None,
        Some(e) => Some(e.to_owned()),
    }
}

impl<S> TickBlobstore<S> {
    /// An empty blobstore with nothing pending.
    pub fn new() -> (bs: Self)
        ensures
            bs@.storage == Map::<Seq<char>, Seq<u8>>::empty(),
            bs@.pending == Seq::<S>::empty(),
    {
        let bs = TickBlobstore { storage: StringHashMap::new(), queue: VecDeque::new() };
        assert(bs@.storage =~= Map::<Seq<char>, Seq<u8>>::empty());
        bs
    }

    /// The number of operations waiting for a tick.
    pub fn pending(&self) -> (n: usize)
        ensures
            n == self@.pending.len(),
    {
        self.queue.len()
    }

    /// Registers the waiter of a new pending operation, after all earlier ones.
    pub fn on_tick(&mut self, send: S)
        ensures
            final(self)@ == old(self)@.after_on_tick(send),
            final(self)@.pending == old(self)@.pending.push(send),
            final(self)@.storage == old(self)@.storage,
    {
        self.queue.push_back(send);
    }

    /// Completes every pending operation: hands back each waiter, in the order in
    /// which they registered, with the message it is to receive (`None` when
    /// `error` is `None`, else the text of `error`), and leaves nothing pending.
    pub fn tick(&mut self, error: Option<&str>) -> (answered: Vec<(S, Option<String>)>)
        ensures
            answered@.len() == old(self)@.answered().len(),
            forall|i: int|
                0 <= i < answered@.len() ==> #[trigger] answered@[i].0 == old(self)@.answered()[i]
                    && tick_message_is(answered@[i].1, error),
            final(self)@ == old(self)@.after_tick(),
            answered@.len() == old(self)@.pending.len(),
            forall|i: int| 0 <= i < answered@.len() ==> #[trigger] answered@[i].0 == old(self)@.pending[i],
            forall|i: int|
                0 <= i < answered@.len() ==> match error {
                    None => (#[trigger] answered@[i]).1 is None,
                    Some(e) => answered@[i].1 matches Some(m) && m@ == e@,
                },
            final(self)@.pending.len() == 0,
            final(self)@.storage == old(self)@.storage,
    {
        let ghost waiting = self.queue@;
        let mut answered: Vec<(S, Option<String>)> = Vec::new();
        while self.queue.len() > 0
            invariant
                answered@.len() + self.queue@.len() == waiting.len(),
                self.queue@ == waiting.subrange(answered@.len() as int, waiting.len() as int),
                self.storage == old(self).storage,
                forall|i: int|
                    0 <= i < answered@.len() ==> #[trigger] answered@[i].0 == waiting[i]
                        && tick_message_is(answered@[i].1, error),
            decreases self.queue@.len(),
        {
            if let Some(send) = self.queue.pop_front() {
                answered.push((send, tick_message(error)));
            }
        }
        assert(self@.pending =~= Seq::<S>::empty());
        assert forall|i: int| 0 <= i < answered@.len() implies match error {
            None => (#[trigger] answered@[i]).1 is None,
            Some(e) => answered@[i].1 matches Some(m) && m@ == e@,
        } by {
            assert(answered@[i].0 == waiting[i]);
        }
        answered
    }

    /// The blob stored under `key`, if any.
    pub fn get(&self, key: &str) -> (value: Option<Vec<u8>>)
        ensures
            match value {
                Some(v) => self@.lookup(key@) == Some(v@),
                None => self@.lookup(key@) is None,
            },
            value is Some <==> self@.storage.contains_key(key@),
            value matches Some(v) ==> v@ == self@.storage[key@],
    {
        match self.storage.get(key) {
            Some(v) => Some(vstd::slice::slice_to_vec(v.as_slice())),
            None => None,
        }
    }

    /// Stores `value` under `key`, replacing what was there.
    pub fn put(&mut self, key: String, value: Vec<u8>)
        ensures
            final(self)@ == old(self)@.after_put(key@, value@),
            final(self)@.storage == old(self)@.storage.insert(key@, value@),
            final(self)@.pending == old(self)@.pending,
    {
        let ghost k = key@;
        let ghost v = value@;
        self.storage.insert(key, value);
        assert(self@.storage =~= old(self)@.storage.insert(k, v));
    }

    /// Completes a pending read once its waiter received `received`: when the
    /// tick succeeded, the read finds what is stored under `key`; otherwise it
    /// fails as `tick_outcome` says, and finds nothing.
    pub fn complete_get(&self, received: Option<Option<String>>, key: &str) -> (r: Result<
        Option<Vec<u8>>,
        TickError,
    >)
        ensures
            r is Ok <==> received == Some(None::<String>),
            r matches Ok(value) ==> match value {
                Some(v) => self@.lookup(key@) == Some(v@),
                None => self@.lookup(key@) is None,
            },
            r matches Ok(value) ==> (value is Some <==> self@.storage.contains_key(key@)),
            r matches Ok(Some(v)) ==> v@ == self@.storage[key@],
            received is None ==> r matches Err(TickError::Canceled),
            received matches Some(Some(m)) ==> (r matches Err(TickError::Failed(e)) && e == m),
            r matches Err(e) ==> outcome_of(received) == Err::<(), TickError>(e),
    {
        match tick_outcome(received) {
            Ok(()) => Ok(self.get(key)),
            Err(e) => Err(e),
        }
    }

    /// Completes a pending write once its waiter received `received`: when the
    /// tick succeeded, `value` is stored under `key`; otherwise nothing changes and
    /// the write fails as `tick_outcome` says.
    pub fn complete_put(
        &mut self,
        received: Option<Option<String>>,
        key: String,
        value: Vec<u8>,
    ) -> (r: Result<(), TickError>)
        ensures
            r == outcome_of(received),
            r is Ok <==> received == Some(None::<String>),
            r is Ok ==> final(self)@ == old(self)@.after_put(key@, value@),
            r is Ok ==> final(self)@.storage == old(self)@.storage.insert(key@, value@),
            final(self)@.pending == old(self)@.pending,
            r is Err ==> final(self)@ == old(self)@,
            received is None ==> r matches Err(TickError::Canceled),
            received matches Some(Some(m)) ==> (r matches Err(TickError::Failed(e)) && e == m),
    {
        let outcome = tick_outcome(received);
        if outcome.is_ok() {
            self.put(key, value);
        }
        outcome
    }

    /// Whether no blob is stored.
    pub fn is_empty(&self) -> (empty: bool)
        ensures
            empty == self@.storage.is_empty(),
    {
        self.storage.is_empty()
    }
}

/// A read finds something exactly for the keys that are stored, and then finds
/// what is stored; a read of a key that no write stored finds nothing.
pub proof fn lemma_lookup_finds_stored<S>(v: TickBlobstoreView<S>, key: Seq<char>)
    ensures
        v.lookup(key) is Some <==> v.storage.contains_key(key),
        v.storage.contains_key(key) ==> v.lookup(key) == Some(v.storage[key]),
        !v.storage.contains_key(key) ==> v.lookup(key) is None,
{
}

/// Nothing is found in a blobstore that stores nothing, whatever the key.
pub proof fn lemma_empty_store_finds_nothing<S>(v: TickBlobstoreView<S>, key: Seq<char>)
    requires
        v.storage == Map::<Seq<char>, Seq<u8>>::empty(),
    ensures
        v.lookup(key) is None,
{
}

/// A write stores the value under its key, keeps every other key and leaves the
/// pending waiters; registering a waiter appends it and keeps the blobs; a tick
/// answers the pending waiters in order and leaves none, keeping the blobs.
pub proof fn lemma_state_steps<S>(v: TickBlobstoreView<S>, key: Seq<char>, value: Seq<u8>, send: S)
    ensures
        v.after_put(key, value).storage == v.storage.insert(key, value),
        v.after_put(key, value).pending == v.pending,
        v.after_on_tick(send).pending == v.pending.push(send),
        v.after_on_tick(send).storage == v.storage,
        v.answered() == v.pending,
        v.after_tick().pending.len() == 0,
        v.after_tick().storage == v.storage,
{
}

/// A tick without error sends each waiter no message; a failing tick sends each
/// the full text of its error.
pub proof fn lemma_tick_message(message: Option<String>, error: Option<&str>)
    ensures
        error is None ==> (tick_message_is(message, error) <==> message is None),
        error matches Some(e) ==> (tick_message_is(message, error) <==> (message matches Some(m)
            && m@ == e@)),
{
}

/// An operation succeeds exactly when its waiter received a message of no error;
/// it is canceled when nothing was received, and otherwise fails with the message.
pub proof fn lemma_outcome_of(received: Option<Option<String>>)
    ensures
        outcome_of(received) is Ok <==> received == Some(None::<String>),
        received is None ==> outcome_of(received) matches Err(TickError::Canceled),
        received matches Some(Some(m)) ==> (outcome_of(received) matches Err(TickError::Failed(e))
            && e == m),
{
}

/// A read after a write of the same key finds the value written.
pub proof fn lemma_read_after_write<S>(v: TickBlobstoreView<S>, key: Seq<char>, value: Seq<u8>)
    ensures
        v.after_put(key, value).lookup(key) == Some(value),
{
}

/// A write of one key leaves what a read of any other key finds.
pub proof fn lemma_write_leaves_other_keys<S>(
    v: TickBlobstoreView<S>,
    key: Seq<char>,
    other: Seq<char>,
    value: Seq<u8>,
)
    requires
        key != other,
    ensures
        v.after_put(key, value).lookup(other) == v.lookup(other),
{
}

/// Registering a waiter and ticking store and remove nothing.
pub proof fn lemma_ticks_keep_blobs<S>(v: TickBlobstoreView<S>, send: S, key: Seq<char>)
    ensures
        v.after_on_tick(send).lookup(key) == v.lookup(key),
        v.after_tick().lookup(key) == v.lookup(key),
{
}

/// A tick answers every waiter: a second tick right after it answers nobody.
pub proof fn lemma_second_tick_answers_nobody<S>(v: TickBlobstoreView<S>)
    ensures
        v.after_tick().answered() == Seq::<S>::empty(),
{
}

/// A newly registered waiter is answered by the next tick, after every waiter
/// that registered before it.
pub proof fn lemma_next_tick_answers_new_waiter<S>(v: TickBlobstoreView<S>, send: S)
    ensures
        v.after_on_tick(send).answered() == v.answered().push(send),
        v.after_on_tick(send).answered().last() == send,
{
}

/// An operation answered by a tick succeeds exactly when the tick carried no error.
pub proof fn lemma_outcome_follows_tick(message: Option<String>, error: Option<&str>)
    requires
        tick_message_is(message, error),
    ensures
        message is None <==> error is None,
        outcome_of(Some(message)) is Ok <==> error is None,
{
}

/// Why an operation of a `TickBlobstore` failed.
pub enum TickError {
    /// The blobstore went away before the operation's tick.
    Canceled,
    /// The tick carried this error.
    Failed(String),
}

/// How a pending operation ends, given what its waiter received.
pub open spec fn outcome_of(received: Option<Option<String>>) -> Result<(), TickError> {
    match received {
        None => Err(TickError::Canceled),
        Some(None) => Ok(()),
        Some(Some(error)) => Err(TickError::Failed(error)),
    }
}

/// How a pending operation ends, given what its waiter received: `None` when the
/// blobstore went away first, else the tick's message. An operation succeeds
/// exactly when its tick carried no error.
pub fn tick_outcome(received: Option<Option<String>>) -> (outcome: Result<(), TickError>)
    ensures
        outcome == outcome_of(received),
        outcome is Ok <==> received == Some(None::<String>),
        received is None ==> outcome matches Err(TickError::Canceled),
        received matches Some(Some(m)) ==> (outcome matches Err(TickError::Failed(e)) && e == m),
{
    match received {
        None => Err(TickError::Canceled),
        Some(None) => Ok(()),
        Some(Some(error)) => Err(TickError::Failed(error)),
    }
}

/// The puts that a multiplexed blobstore reported, in order, as pairs of the
/// blobstore's id and the key.
pub struct PutLog {
    pub entries: Vec<(u64, String)>,
}

impl PutLog {
    /// An empty log.
    pub fn new() -> (log: Self)
        ensures
            log.entries@ == Seq::<(u64, String)>::empty(),
    {
        PutLog { entries: Vec::new() }
    }

    /// Records that blobstore `blobstore_id` stored `key`.
    pub fn on_put(&mut self, blobstore_id: u64, key: String)
        ensures
            final(self).entries@ == old(self).entries@.push((blobstore_id, key)),
    {
        self.entries.push((blobstore_id, key));
    }

    /// Forgets every recorded put.
    pub fn clear(&mut self)
        ensures
            final(self).entries@ == Seq::<(u64, String)>::empty(),
    {
        self.entries.clear();
    }
}

/// The bytes of `value`, as a blob.
pub fn make_value(value: &str) -> (blob: Vec<u8>)
    ensures
        blob@ == value.spec_bytes(),
{
    vstd::slice::slice_to_vec(value.as_bytes())
}

} // verus!
