//! The dispatch engine: hotkey-identity lookup and the re-arm state machine.
//!
//! One engine drives the whole run. Each slot's hotkey walks
//! `Unregistered -> Registered -> Playing -> Registered`: only the release of
//! a registered hotkey starts playback; while the clip plays the slot's own
//! hotkey is withdrawn, so the OS cannot re-trigger it, and once playback has
//! ended — however it ended — the slot is re-armed. A slot whose registration
//! or re-registration is refused by the OS stays `Disabled` for the rest of
//! the run; every other slot keeps working.
//!
//! The surrounding shell performs the OS calls (register, unregister, play)
//! and feeds their outcomes back in; the engine decides what each event and
//! each outcome means.

use vstd::prelude::*;

use crate::bindings::Binding;
use crate::bindings::BindingTable;
use crate::bindings::bindings_wf;
use crate::errors::PlaybackError;

verus! {

/// Where one slot's hotkey stands with the OS hotkey subsystem.
#[derive(Clone, Copy, Debug, PartialEq, Eq, Structural)]
pub enum SlotState {
    /// Not yet offered to the OS.
    Unregistered,
    /// Armed: a release of its key triggers playback.
    Registered,
    /// Its clip is playing; the hotkey is withdrawn so the slot cannot
    /// trigger itself again until playback ends.
    Playing,
    /// The OS refused the registration; the slot is inert for this run.
    Disabled,
}

/// A key-state transition reported by the OS hotkey subsystem.
#[derive(Clone, Copy, Debug, PartialEq, Eq, Structural)]
pub enum KeyTransition {
    Pressed,
    Released,
}

/// Whether the event `(identity, transition)` fires slot `s`: only the
/// release of a hotkey that is currently registered triggers playback. A
/// press, an unknown identity, or a slot that is unregistered, playing or
/// disabled fires nothing.
pub open spec fn event_fires(
    identities: Seq<u32>,
    states: Seq<SlotState>,
    identity: u32,
    transition: KeyTransition,
    s: int,
) -> bool {
    &&& transition == KeyTransition::Released
    &&& 0 <= s < states.len()
    &&& s < identities.len()
    &&& states[s] == SlotState::Registered
    &&& identities[s] == identity
}

/// Slot states after playback of slot `s` ended and the re-registration call
/// answered `rearm_ok`. The playback outcome takes no part in the result: a
/// playback failure re-arms the slot exactly as a success does, and only the
/// re-registration answer decides between `Registered` and `Disabled`.
pub open spec fn states_after_playback(
    states: Seq<SlotState>,
    s: int,
    outcome: Result<(), PlaybackError>,
    rearm_ok: bool,
) -> Seq<SlotState> {
    states.update(
        s,
        if rearm_ok {
            SlotState::Registered
        } else {
            SlotState::Disabled
        },
    )
}

/// True exactly when no two positions hold the same hotkey identity, so an
/// inbound identity can fire at most one slot.
pub fn identities_distinct(ids: &Vec<u32>) -> (r: bool)
    ensures
        r == (forall|i: int, j: int| 0 <= i < j < ids@.len() ==> ids@[i] != ids@[j]),
{
    let n = ids.len();
    let mut i: usize = 0;
    while i < n
        invariant
            i <= n,
            n == ids@.len(),
            forall|p: int, q: int| 0 <= p < q < ids@.len() && q < i ==> ids@[p] != ids@[q],
        decreases n - i,
    {
        let mut j: usize = 0;
        while j < i
            invariant
                j <= i,
                i < n,
                n == ids@.len(),
                forall|p: int| 0 <= p < j ==> ids@[p] != ids@[i as int],
            decreases i - j,
        {
            if ids[j] == ids[i] {
                return false;
            }
            j = j + 1;
        }
        i = i + 1;
    }
    true
}

/// The dispatch engine: the binding table, each slot's hotkey identity, and
/// each slot's place in the re-arm cycle.
pub struct Engine {
    table: BindingTable,
    identities: Vec<u32>,
    states: Vec<SlotState>,
}

impl Engine {
    /// The bindings, slot order.
    pub closed spec fn bindings(&self) -> Seq<Binding> {
        self.table@
    }

    /// Each slot's hotkey identity.
    pub closed spec fn identity_seq(&self) -> Seq<u32> {
        self.identities@
    }

    /// Each slot's current hotkey state.
    pub closed spec fn state_seq(&self) -> Seq<SlotState> {
        self.states@
    }

    /// Number of slots.
    pub open spec fn num_slots(&self) -> int {
        self.bindings().len() as int
    }

    /// Well-formedness: a well-formed binding table, one identity and one
    /// state per slot, and no identity shared between two slots.
    pub open spec fn wf(&self) -> bool {
        &&& bindings_wf(self.bindings())
        &&& self.identity_seq().len() == self.num_slots()
        &&& self.state_seq().len() == self.num_slots()
        &&& forall|i: int, j: int|
            0 <= i < j < self.num_slots() ==> self.identity_seq()[i] != self.identity_seq()[j]
    }

    /// Sets the engine up over a built table and the hotkey identity chosen
    /// for each slot; every slot starts unregistered.
    pub fn new(table: BindingTable, identities: Vec<u32>) -> (engine: Engine)
        requires
            table.wf(),
            identities@.len() == table@.len(),
            forall|i: int, j: int|
                0 <= i < j < identities@.len() ==> identities@[i] != identities@[j],
        ensures
            engine.wf(),
            engine.bindings() == table@,
            engine.identity_seq() == identities@,
            engine.state_seq().len() == table@.len(),
            forall|i: int|
                0 <= i < table@.len() ==> engine.state_seq()[i] == SlotState::Unregistered,
    {
        let n = table.len();
        let mut states: Vec<SlotState> = Vec::new();
        while states.len() < n
            invariant
                states@.len() <= n,
                n == table@.len(),
                forall|i: int| 0 <= i < states@.len() ==> states@[i] == SlotState::Unregistered,
            decreases n - states@.len(),
        {
            states.push(SlotState::Unregistered);
        }
        Engine { table, identities, states }
    }

    /// Records the outcome of the one registration attempt made for `slot`
    /// at startup: the slot becomes armed, or — when the OS refused the key
    /// combination — stays inert for the rest of the run.
    pub fn note_registration(&mut self, slot: usize, ok: bool)
        requires
            old(self).wf(),
            slot < old(self).num_slots(),
            old(self).state_seq()[slot as int] == SlotState::Unregistered,
        ensures
            final(self).wf(),
            final(self).bindings() == old(self).bindings(),
            final(self).identity_seq() == old(self).identity_seq(),
            final(self).state_seq() == old(self).state_seq().update(
                slot as int,
                if ok {
                    SlotState::Registered
                } else {
                    SlotState::Disabled
                },
            ),
    {
        let next = if ok {
            SlotState::Registered
        } else {
            SlotState::Disabled
        };
        self.states[slot] = next;
    }

    /// Answers one polled hotkey event. When the transition is the release
    /// of some registered slot's hotkey, that slot moves to `Playing` — its
    /// hotkey is to be withdrawn while the clip plays — and is returned so
    /// the shell can start playback. A press is consumed without any change,
    /// as is an identity that belongs to no registered slot.
    pub fn on_event(&mut self, identity: u32, transition: KeyTransition) -> (fired: Option<
        usize,
    >)
        requires
            old(self).wf(),
        ensures
            final(self).wf(),
            final(self).bindings() == old(self).bindings(),
            final(self).identity_seq() == old(self).identity_seq(),
            match fired {
                Some(slot) => {
                    &&& event_fires(
                        old(self).identity_seq(),
                        old(self).state_seq(),
                        identity,
                        transition,
                        slot as int,
                    )
                    &&& final(self).state_seq() == old(self).state_seq().update(
                        slot as int,
                        SlotState::Playing,
                    )
                },
                None => {
                    &&& final(self).state_seq() == old(self).state_seq()
                    &&& forall|s: int|
                        !event_fires(
                            old(self).identity_seq(),
                            old(self).state_seq(),
                            identity,
                            transition,
                            s,
                        )
                },
            },
    {
        let n = self.states.len();
        let mut i: usize = 0;
        while i < n
            invariant
                i <= n,
                old(self).wf(),
                *self == *old(self),
                n == self.states@.len(),
                n == self.identities@.len(),
                forall|s: int|
                    0 <= s < i ==> !event_fires(
                        self.identity_seq(),
                        self.state_seq(),
                        identity,
                        transition,
                        s,
                    ),
            decreases n - i,
        {
            if self.identities[i] == identity && self.states[i] == SlotState::Registered
                && transition == KeyTransition::Released {
                self.states[i] = SlotState::Playing;
                return Some(i);
            }
            i = i + 1;
        }
        None
    }

    /// Settles `slot` once its playback attempt has ended with `outcome` and
    /// the re-registration call has answered `rearm_ok`. Success and every
    /// `PlaybackError` re-arm the slot alike; only a refused re-registration
    /// disables it, and no other slot is touched.
    #[allow(unused_variables)]
    pub fn finish_playback(
        &mut self,
        slot: usize,
        outcome: Result<(), PlaybackError>,
        rearm_ok: bool,
    )
        requires
            old(self).wf(),
            slot < old(self).num_slots(),
            old(self).state_seq()[slot as int] == SlotState::Playing,
        ensures
            final(self).wf(),
            final(self).bindings() == old(self).bindings(),
            final(self).identity_seq() == old(self).identity_seq(),
            final(self).state_seq() == states_after_playback(
                old(self).state_seq(),
                slot as int,
                outcome,
                rearm_ok,
            ),
    {
        let next = if rearm_ok {
            SlotState::Registered
        } else {
            SlotState::Disabled
        };
        self.states[slot] = next;
    }

    /// Number of slots.
    pub fn slot_count(&self) -> (n: usize)
        ensures
            n == self.num_slots(),
    {
        self.table.len()
    }

    /// The state of one slot's hotkey.
    pub fn slot_state(&self, slot: usize) -> (st: SlotState)
        requires
            self.wf(),
            slot < self.num_slots(),
        ensures
            st == self.state_seq()[slot as int],
    {
        self.states[slot]
    }

    /// The hotkey identity of one slot.
    pub fn identity(&self, slot: usize) -> (id: u32)
        requires
            self.wf(),
            slot < self.num_slots(),
        ensures
            id == self.identity_seq()[slot as int],
    {
        self.identities[slot]
    }

    /// The clip path bound to one slot.
    pub fn resource(&self, slot: usize) -> (path: &String)
        requires
            self.wf(),
            slot < self.num_slots(),
        ensures
            path@ == self.bindings()[slot as int].resource@,
    {
        &self.table.binding(slot).resource
    }

    /// The digit key under which one slot sits.
    pub fn digit(&self, slot: usize) -> (digit: u8)
        requires
            self.wf(),
            slot < self.num_slots(),
        ensures
            digit == self.bindings()[slot as int].digit,
    {
        self.table.binding(slot).digit
    }
}

/// A pressed transition never fires a slot: only a release triggers playback.
pub proof fn lemma_pressed_never_fires(
    identities: Seq<u32>,
    states: Seq<SlotState>,
    identity: u32,
    s: int,
)
    ensures
        !event_fires(identities, states, identity, KeyTransition::Pressed, s),
{
}

/// Re-arm idempotence: after a successful playback of slot `s` and a
/// successful re-registration, the slot's hotkey identity is registered
/// again, and a release carrying that identity fires the same slot once
/// more.
pub proof fn lemma_rearm_idempotence(identities: Seq<u32>, states: Seq<SlotState>, s: int)
    requires
        0 <= s < states.len(),
        states.len() == identities.len(),
    ensures
        states_after_playback(states, s, Ok(()), true)[s] == SlotState::Registered,
        event_fires(
            identities,
            states_after_playback(states, s, Ok(()), true),
            identities[s],
            KeyTransition::Released,
            s,
        ),
{
}

/// A playback that failed with `DeviceUnavailable` re-arms its slot all the
/// same, and every other slot keeps exactly the standing it had, so the loop
/// goes on serving them: any event fires another slot after the failure if
/// and only if it fired that slot before.
pub proof fn lemma_device_unavailable_still_rearms(
    identities: Seq<u32>,
    states: Seq<SlotState>,
    s: int,
)
    requires
        0 <= s < states.len(),
    ensures
        states_after_playback(states, s, Err(PlaybackError::DeviceUnavailable), true)[s]
            == SlotState::Registered,
        forall|t: int|
            0 <= t < states.len() && t != s ==> states_after_playback(
                states,
                s,
                Err(PlaybackError::DeviceUnavailable),
                true,
            )[t] == states[t],
        forall|t: int, id: u32, tr: KeyTransition|
            t != s ==> (#[trigger] event_fires(
                identities,
                states_after_playback(states, s, Err(PlaybackError::DeviceUnavailable), true),
                id,
                tr,
                t,
            ) == event_fires(identities, states, id, tr, t)),
{
}

} // verus!
