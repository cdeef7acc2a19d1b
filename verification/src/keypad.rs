//! The key handle, the keypad registry and the polling engine.
//!
//! A [`KeyHandle`] binds one open pin to an optional callback and caches the
//! pin's last observed level. The [`KeypadRegistry`] owns the handles of one
//! device in registration order, and [`KeypadRegistry::poll_all`] makes one
//! synchronous pass over them: read each level, fire the callback on a
//! change, stop at the first read failure.

use vstd::prelude::*;
use crate::backend::DigitalInput;
use crate::backend::GpioBackend;
use crate::backend::ScriptedInput;
use crate::errors::IoError;
use crate::errors::KeypadError;
use crate::errors::OpenError;
use crate::pins::DeviceVariant;
use crate::pins::pin_for;
use crate::pins::resolve_pin;
use crate::pins::valid_index;

verus! {

/// A per-key callback, invoked synchronously with the new level on every
/// observed transition. It must not block: it runs on the polling pass.
pub trait KeyCallback: Sized {
    /// The states this callback has been invoked with so far, oldest
    /// first. Every verified implementation must override this together
    /// with `on_change` — with the default empty history, `on_change`'s
    /// contract is unsatisfiable. The default exists only so that
    /// unverified embedding code, whose obligations nothing checks, can
    /// implement the trait without tracking a history.
    open spec fn calls(&self) -> Seq<bool> {
        Seq::empty()
    }

    /// Receive one transition: `state` is the newly observed level.
    fn on_change(&mut self, state: bool)
        ensures
            final(self).calls() == old(self).calls().push(state),
    ;
}

/// A callback that records every state it is invoked with, in order.
pub struct RecordingCallback {
    /// The recorded states, oldest first.
    pub log: Vec<bool>,
}

impl RecordingCallback {
    /// A recorder with an empty log.
    pub fn new() -> (r: RecordingCallback)
        ensures
            r.log@.len() == 0,
    {
        RecordingCallback { log: Vec::new() }
    }
}

impl KeyCallback for RecordingCallback {
    open spec fn calls(&self) -> Seq<bool> {
        self.log@
    }

    fn on_change(&mut self, state: bool) {
        self.log.push(state);
    }
}

/// What one poll of one key observed.
#[derive(Clone, Copy, PartialEq, Eq, Structural, Debug)]
pub enum PollOutcome {
    /// The level equals the cached state; nothing fired.
    NoChange,
    /// The level changed to the carried value; the callback (if any) fired
    /// once with it.
    Transition(bool),
}

/// One key: an open pin, an optional callback, and the last observed level.
/// The cached state starts `false` ("released"), so a key already held down
/// at startup fires a spurious press on the very first poll.
pub struct KeyHandle<I, C> {
    /// The physical GPIO line number this key is wired to.
    pub pin: u32,
    /// The open pin resource, exclusively owned by this handle.
    pub input: I,
    /// The callback to fire on transitions, if any.
    pub callback: Option<C>,
    /// The level returned by the most recent successful read.
    pub last_state: bool,
}

/// The invocation history of an optional callback; an absent callback has
/// an empty history.
pub open spec fn opt_calls<C: KeyCallback>(c: Option<C>) -> Seq<bool> {
    match c {
        Some(cb) => cb.calls(),
        None => Seq::empty(),
    }
}

/// How one successful poll that observed `level` relates a key's state
/// before (`pre`) and after (`post`): the cache now holds `level`; if the
/// level differs from the old cache the callback fired exactly once with
/// it, otherwise the key is untouched.
pub open spec fn applied_level<I, C: KeyCallback>(
    pre: KeyHandle<I, C>,
    post: KeyHandle<I, C>,
    level: bool,
) -> bool {
    &&& post.pin == pre.pin
    &&& post.last_state == level
    &&& (level == pre.last_state ==> post.callback == pre.callback)
    &&& (level != pre.last_state ==> match (pre.callback, post.callback) {
        (Some(a), Some(b)) => b.calls() == a.calls().push(level),
        (None, None) => true,
        _ => false,
    })
}

/// The level a poll must have observed, given its outcome and the cached
/// state before the poll.
pub open spec fn outcome_level(o: PollOutcome, last: bool) -> bool {
    match o {
        PollOutcome::NoChange => last,
        PollOutcome::Transition(s) => s,
    }
}

impl<I: DigitalInput, C: KeyCallback> KeyHandle<I, C> {
    /// Bind an open pin to an optional callback. The cached state starts
    /// `false`, regardless of the pin's actual level.
    pub fn new(pin: u32, input: I, callback: Option<C>) -> (r: KeyHandle<I, C>)
        ensures
            r.pin == pin,
            r.input == input,
            r.callback == callback,
            r.last_state == false,
    {
        KeyHandle { pin, input, callback, last_state: false }
    }

    /// Digest one successfully read level: compare it to the cached state,
    /// fire the callback once on a change, update the cache. Never fails —
    /// in particular, an absent callback is not an error.
    pub fn apply_level(&mut self, level: bool) -> (r: PollOutcome)
        ensures
            applied_level(*old(self), *final(self), level),
            final(self).input == old(self).input,
            level == old(self).last_state ==> r == PollOutcome::NoChange && *final(self) == *old(
                self,
            ),
            level != old(self).last_state ==> r == PollOutcome::Transition(level),
    {
        if level != self.last_state {
            match &mut self.callback {
                Some(c) => c.on_change(level),
                None => {},
            }
            self.last_state = level;
            PollOutcome::Transition(level)
        } else {
            PollOutcome::NoChange
        }
    }

    /// Poll this key once: read the current level and digest it. A read
    /// failure is returned as-is and leaves the cache and the callback
    /// untouched. Exactly one read happens, and on success the level it
    /// yielded is the level that was applied.
    pub fn poll_once(&mut self) -> (r: Result<PollOutcome, IoError>)
        ensures
            final(self).pin == old(self).pin,
            old(self).input.sure_read() ==> r is Ok,
            match r {
                Ok(o) => {
                    &&& applied_level(
                        *old(self),
                        *final(self),
                        outcome_level(o, old(self).last_state),
                    )
                    &&& I::read_rel(
                        old(self).input,
                        final(self).input,
                        Ok::<bool, IoError>(outcome_level(o, old(self).last_state)),
                    )
                    &&& (o matches PollOutcome::Transition(s) ==> s != old(self).last_state)
                },
                Err(e) => {
                    &&& e == IoError
                    &&& I::read_rel(old(self).input, final(self).input, Err::<bool, IoError>(e))
                    &&& final(self).last_state == old(self).last_state
                    &&& final(self).callback == old(self).callback
                },
            },
    {
        let level = match self.input.read_level() {
            Ok(v) => v,
            Err(e) => {
                return Err(e);
            },
        };
        Ok(self.apply_level(level))
    }
}

/// Whether a poll pass left a key's observable state alone: same pin, same
/// cached state, same callback (so nothing fired).
pub open spec fn key_untouched<I, C>(pre: KeyHandle<I, C>, post: KeyHandle<I, C>) -> bool {
    &&& post.pin == pre.pin
    &&& post.last_state == pre.last_state
    &&& post.callback == pre.callback
}

/// Whether a key went through exactly one successful poll: its input was
/// read once, the read yielded some level, and that level was applied.
pub open spec fn key_polled<I: DigitalInput, C: KeyCallback>(
    pre: KeyHandle<I, C>,
    post: KeyHandle<I, C>,
) -> bool {
    exists|level: bool|
        applied_level(pre, post, level) && I::read_rel(
            pre.input,
            post.input,
            Ok::<bool, IoError>(level),
        )
}

/// Whether a key's one read failed: its cache, callback and pin are
/// untouched, and the input went through exactly one failing read.
pub open spec fn key_read_failed<I: DigitalInput, C: KeyCallback>(
    pre: KeyHandle<I, C>,
    post: KeyHandle<I, C>,
) -> bool {
    &&& key_untouched(pre, post)
    &&& I::read_rel(pre.input, post.input, Err::<bool, IoError>(IoError))
}

/// How a failed poll pass relates the key sequence before and after: the
/// read of key `k` failed; every key before `k` was polled successfully
/// (its callbacks already fired, its cache already updated) and the pass
/// is not rolled back; key `k` keeps its state, and the keys after `k`
/// are wholly untouched — not even their inputs were read.
pub open spec fn pass_failed_at<I: DigitalInput, C: KeyCallback>(
    pre: Seq<KeyHandle<I, C>>,
    post: Seq<KeyHandle<I, C>>,
    k: int,
) -> bool {
    &&& 0 <= k < pre.len()
    &&& forall|i: int| 0 <= i < k ==> key_polled(pre[i], #[trigger] post[i])
    &&& key_read_failed(pre[k], post[k])
    &&& forall|i: int| k < i < pre.len() ==> #[trigger] post[i] == pre[i]
}

/// One keypad: its device variant, its GPIO backend, and its keys in
/// registration order.
pub struct KeypadRegistry<B: GpioBackend, C> {
    /// Which physical keypad this registry drives.
    pub variant: DeviceVariant,
    /// The GPIO access mechanism used to open pins.
    pub backend: B,
    /// The registered keys, in registration order.
    pub keys: Vec<KeyHandle<B::Input, C>>,
}

impl<B: GpioBackend, C: KeyCallback> KeypadRegistry<B, C> {
    /// An empty registry for `variant`, reading pins through `backend`.
    pub fn new(variant: DeviceVariant, backend: B) -> (r: Self)
        ensures
            r.variant == variant,
            r.backend == backend,
            r.keys@.len() == 0,
    {
        KeypadRegistry { variant, backend, keys: Vec::new() }
    }

    /// Register the key at logical `index`: resolve its pin from the
    /// variant's wiring table, open the pin through the backend, and append
    /// a fresh handle. Registration is atomic: on any failure the key list
    /// is left exactly as it was.
    ///
    /// Fails with `InvalidIndex` exactly on the indices outside the
    /// variant's range, and with `BackendOpen` exactly when the backend
    /// refused the resolved pin; on a valid index it succeeds whenever the
    /// backend promises the open.
    pub fn register(&mut self, index: usize, callback: Option<C>) -> (r: Result<(), KeypadError>)
        ensures
            final(self).variant == old(self).variant,
            valid_index(old(self).variant, index as int) && old(self).backend.sure_open(
                pin_for(old(self).variant, index as int),
            ) ==> r is Ok,
            !valid_index(old(self).variant, index as int) <==> r == Err::<(), KeypadError>(
                KeypadError::InvalidIndex,
            ),
            !valid_index(old(self).variant, index as int) ==> *final(self) == *old(self),
            r is Err ==> final(self).keys == old(self).keys,
            r is Err ==> (r->Err_0 == KeypadError::InvalidIndex || r->Err_0
                == KeypadError::BackendOpen),
            r == Err::<(), KeypadError>(KeypadError::BackendOpen) ==> valid_index(
                old(self).variant,
                index as int,
            ) && B::open_rel(
                old(self).backend,
                final(self).backend,
                pin_for(old(self).variant, index as int),
                Err::<B::Input, OpenError>(OpenError),
            ),
            r is Ok ==> {
                &&& valid_index(old(self).variant, index as int)
                &&& final(self).keys@.len() == old(self).keys@.len() + 1
                &&& forall|j: int|
                    0 <= j < old(self).keys@.len() ==> final(self).keys@[j] == old(self).keys@[j]
                &&& final(self).keys@.last().pin == pin_for(old(self).variant, index as int)
                &&& final(self).keys@.last().last_state == false
                &&& final(self).keys@.last().callback == callback
                &&& B::open_rel(
                    old(self).backend,
                    final(self).backend,
                    pin_for(old(self).variant, index as int),
                    Ok::<B::Input, OpenError>(final(self).keys@.last().input),
                )
            },
    {
        let pin = match resolve_pin(self.variant, index) {
            Ok(p) => p,
            Err(e) => {
                return Err(e);
            },
        };
        let input = match self.backend.open(pin) {
            Ok(i) => i,
            Err(e) => {
                proof {
                    assert(e == OpenError);
                }
                return Err(KeypadError::BackendOpen);
            },
        };
        let handle = KeyHandle::new(pin, input, callback);
        self.keys.push(handle);
        Ok(())
    }

    /// One synchronous poll pass, in registration order: read each key's
    /// input exactly once and apply the level it yielded; the first read
    /// failure aborts the rest of the pass and is returned as `Io`. Keys
    /// polled before the failure keep their updated cache and their
    /// callbacks stay fired — the pass is not rolled back; the keys after
    /// the failed one are not even read. Registration-time errors never
    /// occur here.
    pub fn poll_all(&mut self) -> (r: Result<(), KeypadError>)
        ensures
            final(self).variant == old(self).variant,
            (forall|i: int|
                0 <= i < old(self).keys@.len() ==> (#[trigger] old(
                    self,
                ).keys@[i]).input.sure_read()) ==> r is Ok,
            final(self).backend == old(self).backend,
            final(self).keys@.len() == old(self).keys@.len(),
            r is Ok ==> forall|i: int|
                0 <= i < old(self).keys@.len() ==> key_polled(
                    old(self).keys@[i],
                    #[trigger] final(self).keys@[i],
                ),
            r is Err ==> r == Err::<(), KeypadError>(KeypadError::Io) && exists|k: int|
                pass_failed_at(old(self).keys@, final(self).keys@, k),
    {
        let n = self.keys.len();
        let mut i: usize = 0;
        while i < n
            invariant
                i <= n,
                n == self.keys@.len(),
                self.keys@.len() == old(self).keys@.len(),
                self.variant == old(self).variant,
                self.backend == old(self).backend,
                forall|j: int|
                    0 <= j < i ==> key_polled(old(self).keys@[j], #[trigger] self.keys@[j]),
                forall|j: int| i <= j < n ==> self.keys@[j] == old(self).keys@[j],
            decreases n - i,
        {
            let h = &mut self.keys[i];
            let res = h.poll_once();
            match res {
                Ok(o) => {
                    proof {
                        let lvl = outcome_level(o, old(self).keys@[i as int].last_state);
                        assert(applied_level(old(self).keys@[i as int], self.keys@[i as int], lvl)
                            && B::Input::read_rel(
                            old(self).keys@[i as int].input,
                            self.keys@[i as int].input,
                            Ok::<bool, IoError>(lvl),
                        ));
                        assert(key_polled(old(self).keys@[i as int], self.keys@[i as int]));
                    }
                },
                Err(_) => {
                    proof {
                        assert(pass_failed_at(old(self).keys@, self.keys@, i as int));
                    }
                    return Err(KeypadError::Io);
                },
            }
            i = i + 1;
        }
        Ok(())
    }
}

/// Law: polling a key twice with the same underlying level fires nothing
/// the second time — after the first poll the cache already holds that
/// level, so the second poll changes neither the cache nor the callback's
/// invocation history.
pub proof fn lemma_second_poll_same_level_silent<I, C: KeyCallback>(
    h0: KeyHandle<I, C>,
    h1: KeyHandle<I, C>,
    h2: KeyHandle<I, C>,
    level: bool,
)
    requires
        applied_level(h0, h1, level),
        applied_level(h1, h2, level),
    ensures
        h2.last_state == h1.last_state,
        h2.callback == h1.callback,
{
}

/// Law: a whole poll pass is idempotent — if a second pass reads, key by
/// key, the same levels as the first, the second pass fires no callback
/// and changes no cached state anywhere.
pub proof fn lemma_second_pass_idempotent<I, C: KeyCallback>(
    s0: Seq<KeyHandle<I, C>>,
    s1: Seq<KeyHandle<I, C>>,
    s2: Seq<KeyHandle<I, C>>,
    levels: Seq<bool>,
)
    requires
        s0.len() == levels.len(),
        s1.len() == levels.len(),
        s2.len() == levels.len(),
        forall|i: int| 0 <= i < levels.len() ==> applied_level(s0[i], #[trigger] s1[i], levels[i]),
        forall|i: int| 0 <= i < levels.len() ==> applied_level(s1[i], #[trigger] s2[i], levels[i]),
    ensures
        forall|i: int|
            0 <= i < levels.len() ==> (#[trigger] s2[i]).last_state == s1[i].last_state
                && s2[i].callback == s1[i].callback,
{
    assert forall|i: int|
        0 <= i < levels.len() implies (#[trigger] s2[i]).last_state == s1[i].last_state
        && s2[i].callback == s1[i].callback by {
        lemma_second_poll_same_level_silent(s0[i], s1[i], s2[i], levels[i]);
    }
}

/// Law: for a scripted key, two consecutive successful polls whose script
/// yields the same level twice (no underlying level change) leave the
/// second poll silent: no callback fires and the cache keeps its value.
pub proof fn lemma_scripted_second_poll_silent<C: KeyCallback>(
    h0: KeyHandle<ScriptedInput, C>,
    h1: KeyHandle<ScriptedInput, C>,
    h2: KeyHandle<ScriptedInput, C>,
)
    requires
        key_polled(h0, h1),
        key_polled(h1, h2),
        h0.input.levels@[h0.input.pos as int] == h0.input.levels@[h0.input.pos + 1],
    ensures
        h2.last_state == h1.last_state,
        h2.callback == h1.callback,
{
    let l1 = choose|l: bool|
        applied_level(h0, h1, l) && ScriptedInput::read_rel(
            h0.input,
            h1.input,
            Ok::<bool, IoError>(l),
        );
    let l2 = choose|l: bool|
        applied_level(h1, h2, l) && ScriptedInput::read_rel(
            h1.input,
            h2.input,
            Ok::<bool, IoError>(l),
        );
    assert(l2 == l1);
    lemma_second_poll_same_level_silent(h0, h1, h2, l1);
}

/// Law: a second whole pass over scripted keys whose scripts yield, key by
/// key, the same level as in the first pass fires no callback and changes
/// no cached state anywhere. Together with `poll_all`'s contract (two
/// passes that return success satisfy `key_polled` key by key) this is the
/// pass-level idempotence of polling.
pub proof fn lemma_scripted_second_pass_idempotent<C: KeyCallback>(
    s0: Seq<KeyHandle<ScriptedInput, C>>,
    s1: Seq<KeyHandle<ScriptedInput, C>>,
    s2: Seq<KeyHandle<ScriptedInput, C>>,
)
    requires
        s1.len() == s0.len(),
        s2.len() == s0.len(),
        forall|i: int| 0 <= i < s0.len() ==> key_polled(s0[i], #[trigger] s1[i]),
        forall|i: int| 0 <= i < s0.len() ==> key_polled(s1[i], #[trigger] s2[i]),
        forall|i: int|
            0 <= i < s0.len() ==> (#[trigger] s0[i]).input.levels@[s0[i].input.pos as int]
                == s0[i].input.levels@[s0[i].input.pos + 1],
    ensures
        forall|i: int|
            0 <= i < s0.len() ==> (#[trigger] s2[i]).last_state == s1[i].last_state
                && s2[i].callback == s1[i].callback,
{
    assert forall|i: int|
        0 <= i < s0.len() implies (#[trigger] s2[i]).last_state == s1[i].last_state
        && s2[i].callback == s1[i].callback by {
        lemma_scripted_second_poll_silent(s0[i], s1[i], s2[i]);
    }
}

/// Law: a key with no callback still tracks the pin: one successful poll
/// always leaves the observed level in the cache, and the callback stays
/// absent — its absence is never an error.
pub proof fn lemma_no_callback_still_updates<I, C: KeyCallback>(
    pre: KeyHandle<I, C>,
    post: KeyHandle<I, C>,
    level: bool,
)
    requires
        applied_level(pre, post, level),
        pre.callback is None,
    ensures
        post.last_state == level,
        post.callback is None,
{
}

} // verus!
