//! The controller subsystem: two slots, each absent or holding a state
//! snapshot, optionally bound to a physical device UUID that an outside
//! input source refreshes. The V5 index namespace used by guest reads is
//! part of the guest ABI.

use vstd::prelude::*;
use vstd::string::StringSliceAdditionalSpecFns;

use crate::protocol::{ControllerState, ControllerUpdate};

verus! {

/// How a controller operation can fail.
#[derive(Debug, Clone, Copy, PartialEq, Eq, Structural)]
pub enum InputError {
    /// The controller id is not 0 or 1.
    InvalidControllerId,
    /// The V5 index selects no defined field.
    InvalidControllerIndex,
    /// A device UUID that the input source cannot take: its text holds a
    /// NUL, so it cannot cross the C boundary to the device layer.
    InvalidUuid,
}

/// Whether a device UUID can be handed to the input source: its UTF-8
/// bytes hold no NUL, the condition under which it forms a C string.
pub open spec fn spec_valid_uuid(s: Seq<char>) -> bool {
    forall|i: int|
        0 <= i < vstd::utf8::encode_utf8(s).len() ==> #[trigger] vstd::utf8::encode_utf8(s)[i] != 0
}

/// Check a device UUID: no NUL byte anywhere in its text.
pub fn uuid_is_valid(u: &str) -> (r: bool)
    ensures
        r == spec_valid_uuid(u@),
{
    let bytes = u.as_bytes();
    let mut i: usize = 0;
    while i < bytes.len()
        invariant
            bytes@ == u.spec_bytes(),
            0 <= i <= bytes@.len(),
            forall|j: int| 0 <= j < i ==> bytes@[j] != 0,
        decreases bytes@.len() - i,
    {
        if *crate::memory::slice_index_get(bytes, i) == 0 {
            return false;
        }
        i = i + 1;
    }
    true
}

/// Whether a frontend update can be installed: a UUID binding needs a
/// valid UUID; raw snapshots and clears always can.
pub open spec fn spec_update_valid(update: Option<ControllerUpdate>) -> bool {
    match update {
        Some(ControllerUpdate::UUID(u)) => spec_valid_uuid(u@),
        _ => true,
    }
}

/// One controller slot: the last known state, and the UUID of the
/// physical device it is bound to, if any. A bound slot is refreshed from
/// the outside input source before non-lazy reads; an unbound slot keeps
/// a frozen state.
pub struct V5Controller {
    pub current_state: ControllerState,
    pub uuid: Option<String>,
}

/// The two controller slots.
pub struct Inputs {
    pub primary: Option<V5Controller>,
    pub partner: Option<V5Controller>,
}

/// The value a V5 index reads from a controller state, or nothing when
/// the index is not defined. Axes follow the ABI aliasing: analog left
/// maps to axes 1 and 2, analog right to axes 4 and 3.
pub open spec fn spec_controller_index_value(s: ControllerState, index: u32) -> Option<i32> {
    if index == 0 {  // analog left x
        Some(s.axis1)
    } else if index == 1 {  // analog left y
        Some(s.axis2)
    } else if index == 2 {  // analog right x
        Some(s.axis4)
    } else if index == 3 {  // analog right y
        Some(s.axis3)
    } else if index == 6 {  // button L1
        Some(if s.button_l1 { 1i32 } else { 0i32 })
    } else if index == 7 {  // button L2
        Some(if s.button_l2 { 1i32 } else { 0i32 })
    } else if index == 8 {  // button R1
        Some(if s.button_r1 { 1i32 } else { 0i32 })
    } else if index == 9 {  // button R2
        Some(if s.button_r2 { 1i32 } else { 0i32 })
    } else if index == 10 {  // button up
        Some(if s.button_up { 1i32 } else { 0i32 })
    } else if index == 11 {  // button down
        Some(if s.button_down { 1i32 } else { 0i32 })
    } else if index == 12 {  // button left
        Some(if s.button_left { 1i32 } else { 0i32 })
    } else if index == 13 {  // button right
        Some(if s.button_right { 1i32 } else { 0i32 })
    } else if index == 14 {  // button X
        Some(if s.button_x { 1i32 } else { 0i32 })
    } else if index == 15 {  // button B
        Some(if s.button_b { 1i32 } else { 0i32 })
    } else if index == 16 {  // button Y
        Some(if s.button_y { 1i32 } else { 0i32 })
    } else if index == 17 {  // button A
        Some(if s.button_a { 1i32 } else { 0i32 })
    } else if index == 18 {  // select button
        Some(if s.button_sel { 1i32 } else { 0i32 })
    } else if index == 19 {  // battery level
        Some(s.battery_level)
    } else if index == 20 {  // all buttons
        Some(if s.button_all { 1i32 } else { 0i32 })
    } else if index == 21 {  // flags
        Some(s.flags)
    } else if index == 22 {  // battery capacity
        Some(s.battery_capacity)
    } else {
        None
    }
}

/// The slot a controller update installs: a raw snapshot unbinds the
/// slot, a UUID binds it starting from the all-zero state.
pub open spec fn spec_slot_of_update(update: Option<ControllerUpdate>) -> Option<V5Controller> {
    match update {
        Some(ControllerUpdate::Raw(state)) => Some(V5Controller { current_state: state, uuid: None }),
        Some(ControllerUpdate::UUID(u)) => Some(
            V5Controller { current_state: ControllerState::spec_zeroed(), uuid: Some(u) },
        ),
        None => None,
    }
}

impl Inputs {
    /// The slot a controller id selects.
    pub open spec fn spec_slot(&self, id: u32) -> Option<V5Controller> {
        if id == 0 {
            self.primary
        } else {
            self.partner
        }
    }

    /// Both slots start absent.
    pub fn new() -> (r: Inputs)
        ensures
            r.primary is None,
            r.partner is None,
    {
        Inputs { primary: None, partner: None }
    }

    /// Install, bind or clear a controller slot from a frontend update. A
    /// UUID binding whose text cannot cross to the input source is
    /// refused and changes nothing.
    pub fn set_controller(&mut self, id: u32, update: Option<ControllerUpdate>) -> (r: Result<
        (),
        InputError,
    >)
        ensures
            id >= 2 ==> r == Err::<(), InputError>(InputError::InvalidControllerId) && *final(self)
                == *old(self),
            id < 2 && !spec_update_valid(update) ==> r == Err::<(), InputError>(
                InputError::InvalidUuid,
            ) && *final(self) == *old(self),
            id < 2 && spec_update_valid(update) ==> r == Ok::<(), InputError>(()) && final(self).spec_slot(id) == spec_slot_of_update(update) && final(self).spec_slot((1 - id) as u32)
                == old(self).spec_slot((1 - id) as u32),
    {
        if id >= 2 {
            return Err(InputError::InvalidControllerId);
        }
        let slot = match update {
            Some(ControllerUpdate::Raw(state)) => Some(
                V5Controller { current_state: state, uuid: None },
            ),
            Some(ControllerUpdate::UUID(u)) => {
                if !uuid_is_valid(u.as_str()) {
                    return Err(InputError::InvalidUuid);
                }
                Some(V5Controller { current_state: ControllerState::zeroed(), uuid: Some(u) })
            },
            None => None,
        };
        if id == 0 {
            self.primary = slot;
        } else {
            self.partner = slot;
        }
        Ok(())
    }

    /// Whether the controller with the given id is connected: its slot is
    /// present. Fails on an id out of range.
    pub fn connected(&self, id: u32) -> (r: Result<bool, InputError>)
        ensures
            id >= 2 ==> r == Err::<bool, InputError>(InputError::InvalidControllerId),
            id < 2 ==> r == Ok::<bool, InputError>(self.spec_slot(id) is Some),
    {
        if id >= 2 {
            return Err(InputError::InvalidControllerId);
        }
        let present = if id == 0 {
            self.primary.is_some()
        } else {
            self.partner.is_some()
        };
        Ok(present)
    }

    /// The UUID the slot is bound to, when a non-lazy read must first ask
    /// the outside input source for a fresh state.
    pub fn poll_request(&self, id: u32) -> (r: Option<String>)
        ensures
            match self.spec_slot(id) {
                Some(slot) => match slot.uuid {
                    Some(u) => r matches Some(v) && v@ == u@,
                    None => r is None,
                },
                None => r is None,
            },
    {
        let slot = if id == 0 {
            &self.primary
        } else {
            &self.partner
        };
        match slot {
            Some(c) => match &c.uuid {
                Some(u) => Some(u.clone()),
                None => None,
            },
            None => None,
        }
    }

    /// Apply the input source's answer to a poll: a fresh state replaces
    /// the slot's snapshot, no answer keeps the last known state. An
    /// absent slot stays absent.
    pub fn apply_poll_result(&mut self, id: u32, result: Option<ControllerState>)
        requires
            id < 2,
        ensures
            final(self).spec_slot((1 - id) as u32) == old(self).spec_slot((1 - id) as u32),
            match old(self).spec_slot(id) {
                Some(slot) => match result {
                    Some(state) => final(self).spec_slot(id) matches Some(updated) && updated.uuid
                        == slot.uuid && updated.current_state == state,
                    None => final(self).spec_slot(id) == old(self).spec_slot(id),
                },
                None => final(self).spec_slot(id) is None,
            },
    {
        let slot = if id == 0 {
            &mut self.primary
        } else {
            &mut self.partner
        };
        match slot {
            Some(c) => match result {
                Some(state) => {
                    c.current_state = state;
                },
                None => {},
            },
            None => {},
        }
    }

    /// Read a controller field by V5 index: 0 for an absent slot, the
    /// selected field otherwise; an undefined index is an error, as is an
    /// id out of range.
    pub fn controller_get(&self, id: u32, index: u32) -> (r: Result<i32, InputError>)
        ensures
            id >= 2 ==> r == Err::<i32, InputError>(InputError::InvalidControllerId),
            id < 2 ==> match self.spec_slot(id) {
                Some(slot) => match spec_controller_index_value(slot.current_state, index) {
                    Some(v) => r == Ok::<i32, InputError>(v),
                    None => r == Err::<i32, InputError>(InputError::InvalidControllerIndex),
                },
                None => r == Ok::<i32, InputError>(0i32),
            },
    {
        if id >= 2 {
            return Err(InputError::InvalidControllerId);
        }
        let slot = if id == 0 {
            &self.primary
        } else {
            &self.partner
        };
        let s = match slot {
            Some(c) => c.current_state,
            None => {
                return Ok(0);
            },
        };
        if index == 0 {
            Ok(s.axis1)
        } else if index == 1 {
            Ok(s.axis2)
        } else if index == 2 {
            Ok(s.axis4)
        } else if index == 3 {
            Ok(s.axis3)
        } else if index == 6 {
            Ok(if s.button_l1 { 1 } else { 0 })
        } else if index == 7 {
            Ok(if s.button_l2 { 1 } else { 0 })
        } else if index == 8 {
            Ok(if s.button_r1 { 1 } else { 0 })
        } else if index == 9 {
            Ok(if s.button_r2 { 1 } else { 0 })
        } else if index == 10 {
            Ok(if s.button_up { 1 } else { 0 })
        } else if index == 11 {
            Ok(if s.button_down { 1 } else { 0 })
        } else if index == 12 {
            Ok(if s.button_left { 1 } else { 0 })
        } else if index == 13 {
            Ok(if s.button_right { 1 } else { 0 })
        } else if index == 14 {
            Ok(if s.button_x { 1 } else { 0 })
        } else if index == 15 {
            Ok(if s.button_b { 1 } else { 0 })
        } else if index == 16 {
            Ok(if s.button_y { 1 } else { 0 })
        } else if index == 17 {
            Ok(if s.button_a { 1 } else { 0 })
        } else if index == 18 {
            Ok(if s.button_sel { 1 } else { 0 })
        } else if index == 19 {
            Ok(s.battery_level)
        } else if index == 20 {
            Ok(if s.button_all { 1 } else { 0 })
        } else if index == 21 {
            Ok(s.flags)
        } else if index == 22 {
            Ok(s.battery_capacity)
        } else {
            Err(InputError::InvalidControllerIndex)
        }
    }

    /// Connection status by id: 1 when the slot is present (tethered), 0
    /// when absent or the id is out of range is an error.
    pub fn connection_status(&self, id: u32) -> (r: Result<i32, InputError>)
        ensures
            id >= 2 ==> r == Err::<i32, InputError>(InputError::InvalidControllerId),
            id < 2 ==> r == Ok::<i32, InputError>(
                if self.spec_slot(id) is Some {
                    1i32
                } else {
                    0i32
                },
            ),
    {
        match self.connected(id) {
            Ok(true) => Ok(1),
            Ok(false) => Ok(0),
            Err(e) => Err(e),
        }
    }
}

} // verus!
