//! The callbacks hooked to observed mouse events.

use vstd::prelude::*;
use crate::common::{CallbackId, MouseError, MouseEvent};

verus! {

pub struct RegistryView<C> {
    /// The hooked callbacks with their identifiers, oldest first.
    pub entries: Seq<(CallbackId, C)>,
    /// The identifier that the next hooked callback gets.
    pub next_id: nat,
    /// Whether the device listener has been started.
    pub listening: bool,
}

pub open spec fn has_id<C>(entries: Seq<(CallbackId, C)>, id: CallbackId) -> bool {
    exists|i: int| 0 <= i < entries.len() && #[trigger] entries[i].0 == id
}

/// Identifiers increase along the entries and stay below the next one.
pub open spec fn ids_ordered<C>(v: RegistryView<C>) -> bool {
    &&& forall|i: int, j: int| 0 <= i < j < v.entries.len() ==> v.entries[i].0 < v.entries[j].0
    &&& forall|i: int| 0 <= i < v.entries.len() ==> v.entries[i].0 < v.next_id
}

/// Whether hooking a callback in this state starts the listener.
pub open spec fn starts_listener<C>(v: RegistryView<C>) -> bool {
    !v.listening
}

/// The result and the next state of hooking a callback, given how starting the
/// listener went (consulted only when it is not running yet).
pub open spec fn hook_result<C>(v: RegistryView<C>, callback: C, started: Result<(), MouseError>) -> (
    Result<CallbackId, MouseError>,
    RegistryView<C>,
) {
    if v.listening || started is Ok {
        (
            Ok(v.next_id as CallbackId),
            RegistryView {
                entries: v.entries.push((v.next_id as CallbackId, callback)),
                next_id: v.next_id + 1,
                listening: true,
            },
        )
    } else {
        (Err(started->Err_0), v)
    }
}

/// How starting the listener went, read off the result of a hook.
pub open spec fn listener_outcome(r: Result<CallbackId, MouseError>) -> Result<(), MouseError> {
    match r {
        Ok(_) => Ok(()),
        Err(e) => Err(e),
    }
}

/// A map from identifiers to callbacks.
pub struct CallbackRegistry<C> {
    entries: Vec<(CallbackId, C)>,
    next_id: CallbackId,
    listening: bool,
}

impl<C> View for CallbackRegistry<C> {
    type V = RegistryView<C>;

    closed spec fn view(&self) -> RegistryView<C> {
        RegistryView { entries: self.entries@, next_id: self.next_id as nat, listening: self.listening }
    }
}

impl<C> CallbackRegistry<C> {
    pub open spec fn wf(&self) -> bool {
        ids_ordered(self@)
    }

    pub fn new() -> (r: CallbackRegistry<C>)
        ensures
            r.wf(),
            r@.entries.len() == 0,
            r@.next_id == 0,
            !r@.listening,
    {
        CallbackRegistry { entries: Vec::new(), next_id: 0, listening: false }
    }

    /// Whether the listener is running.
    pub fn is_listening(&self) -> (r: bool)
        ensures
            r == self@.listening,
    {
        self.listening
    }

    /// Whether another callback can be given an identifier.
    pub fn has_room(&self) -> (r: bool)
        ensures
            r == (self@.next_id < CallbackId::MAX),
    {
        self.next_id < CallbackId::MAX
    }

    /// Hooks a callback. The first hook starts the listener through
    /// `start_listener`; if that fails, nothing is hooked and its error is
    /// returned. Later hooks only register.
    pub fn hook<F: FnOnce() -> Result<(), MouseError>>(
        &mut self,
        callback: C,
        start_listener: F,
    ) -> (r: Result<CallbackId, MouseError>)
        requires
            old(self).wf(),
            old(self)@.next_id < CallbackId::MAX,
            starts_listener(old(self)@) ==> call_requires(start_listener, ()),
        ensures
            final(self).wf(),
            (r, final(self)@) == hook_result(old(self)@, callback, listener_outcome(r)),
            starts_listener(old(self)@) ==> call_ensures(start_listener, (), listener_outcome(r)),
    {
        if !self.listening {
            let started = start_listener();
            match started {
                Ok(u) => {
                    assert(u == ());
                    self.listening = true;
                },
                Err(e) => {
                    return Err(e);
                },
            }
        }
        let id = self.next_id;
        let ghost before = self@;
        self.entries.push((id, callback));
        self.next_id = id + 1;
        assert(self@.entries == before.entries.push((id, callback)));
        assert(forall|i: int| 0 <= i < before.entries.len() ==> self@.entries[i] == before.entries[i]);
        Ok(id)
    }

    /// Unhooks the callback with the given identifier.
    pub fn unhook(&mut self, callback_id: CallbackId) -> (r: Result<(), MouseError>)
        requires
            old(self).wf(),
        ensures
            final(self).wf(),
            r is Ok <==> has_id(old(self)@.entries, callback_id),
            r is Err ==> r == Err::<(), MouseError>(MouseError::NotFound) && final(self)@ == old(self)@,
            r is Ok ==> exists|i: int|
                0 <= i < old(self)@.entries.len() && old(self)@.entries[i].0 == callback_id
                    && final(self)@ == (RegistryView {
                    entries: old(self)@.entries.remove(i),
                    ..old(self)@
                }),
            !has_id(final(self)@.entries, callback_id),
    {
        let mut i: usize = 0;
        while i < self.entries.len()
            invariant
                self@ == old(self)@,
                self.wf(),
                i <= self.entries@.len(),
                forall|k: int| 0 <= k < i ==> self.entries@[k].0 != callback_id,
            decreases self.entries@.len() - i,
        {
            if self.entries[i].0 == callback_id {
                let ghost before = self@;
                self.entries.remove(i);
                assert(self@.entries =~= before.entries.remove(i as int));
                assert(forall|k: int| 0 <= k < i ==> self@.entries[k] == before.entries[k]);
                assert(forall|k: int| i <= k < self@.entries.len() ==> self@.entries[k] == before.entries[k + 1]);
                assert(!has_id(self@.entries, callback_id)) by {
                    if has_id(self@.entries, callback_id) {
                        let k = choose|k: int|
                            0 <= k < self@.entries.len() && #[trigger] self@.entries[k].0
                                == callback_id;
                        if k < i {
                            assert(before.entries[k].0 == callback_id);
                            assert(before.entries[k].0 < before.entries[i as int].0);
                        } else {
                            assert(before.entries[k + 1].0 == callback_id);
                            assert(before.entries[i as int].0 < before.entries[k + 1].0);
                        }
                    }
                }
                return Ok(());
            }
            i = i + 1;
        }
        assert(!has_id(self@.entries, callback_id)) by {
            if has_id(self@.entries, callback_id) {
                let k = choose|k: int|
                    0 <= k < self@.entries.len() && #[trigger] self@.entries[k].0 == callback_id;
                assert(self.entries@[k].0 == callback_id);
            }
        }
        Err(MouseError::NotFound)
    }

    /// Unhooks every callback.
    pub fn unhook_all(&mut self) -> (r: Result<(), MouseError>)
        requires
            old(self).wf(),
        ensures
            final(self).wf(),
            r is Ok,
            final(self)@ == (RegistryView { entries: Seq::<(CallbackId, C)>::empty(), ..old(self)@ }),
    {
        self.entries.clear();
        Ok(())
    }

    /// Hands an event to every hooked callback, oldest first.
    pub fn dispatch(&self, event: &MouseEvent)
        where
            C: Fn(&MouseEvent),
        requires
            forall|i: int|
                0 <= i < self@.entries.len() ==> call_requires(#[trigger] self@.entries[i].1, (event,)),
        ensures
            forall|i: int|
                0 <= i < self@.entries.len() ==> call_ensures(
                    #[trigger] self@.entries[i].1,
                    (event,),
                    (),
                ),
    {
        let mut i: usize = 0;
        while i < self.entries.len()
            invariant
                i <= self.entries@.len(),
                forall|k: int|
                    0 <= k < self@.entries.len() ==> call_requires(
                        #[trigger] self@.entries[k].1,
                        (event,),
                    ),
                forall|k: int|
                    0 <= k < i ==> call_ensures(#[trigger] self@.entries[k].1, (event,), ()),
            decreases self.entries@.len() - i,
        {
            let callback = &self.entries[i].1;
            assert(self@.entries[i as int].1 == *callback);
            callback(event);
            i = i + 1;
        }
    }
}

/// Hooking twice starts the listener at most once: after a successful hook
/// the listener runs, and a second hook only registers, whatever starting the
/// listener would give.
pub proof fn lemma_listener_started_once<C>(
    v: RegistryView<C>,
    first: C,
    second: C,
    started: Result<(), MouseError>,
    again: Result<(), MouseError>,
)
    requires
        hook_result(v, first, started).0 is Ok,
    ensures
        !starts_listener(hook_result(v, first, started).1),
        hook_result(hook_result(v, first, started).1, second, again) == hook_result(
            hook_result(v, first, started).1,
            second,
            Ok(()),
        ),
        hook_result(hook_result(v, first, started).1, second, again).0 is Ok,
{
}

/// An identifier that was never handed out is not hooked, so unhooking it
/// fails; one that a hook just handed out is hooked, so unhooking it succeeds.
pub proof fn lemma_hooked_ids<C>(v: RegistryView<C>, callback: C, started: Result<(), MouseError>)
    requires
        ids_ordered(v),
        v.next_id <= CallbackId::MAX,
    ensures
        !has_id(v.entries, v.next_id as CallbackId),
        hook_result(v, callback, started).0 matches Ok(id) ==> has_id(
            hook_result(v, callback, started).1.entries,
            id,
        ),
{
    if has_id(v.entries, v.next_id as CallbackId) {
        let i = choose|i: int| 0 <= i < v.entries.len() && #[trigger] v.entries[i].0 == v.next_id as CallbackId;
        assert(v.entries[i].0 < v.next_id);
    }
    if hook_result(v, callback, started).0 is Ok {
        let e = hook_result(v, callback, started).1.entries;
        assert(e[e.len() - 1].0 == v.next_id as CallbackId);
    }
}

} // verus!
