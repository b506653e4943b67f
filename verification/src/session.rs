//! Session role binding: locating the vendor read and write characteristics
//! among the discovered characteristic list. Each characteristic is reduced to
//! the 16-bit short form of its UUID, widened to the 32-bit leading field in
//! which it is embedded.

use vstd::prelude::*;

use crate::error::CharacteristicRole;
use crate::error::SessionError;

verus! {

/// Leading 32-bit UUID field of the telemetry (read) characteristic.
pub const READ_CHARACTERISTIC_CODE: u32 = 0xfe01;

/// Leading 32-bit UUID field of the command (write) characteristic.
pub const WRITE_CHARACTERISTIC_CODE: u32 = 0xfe02;

/// True when `codes` holds `code` somewhere.
pub open spec fn has_code(codes: Seq<u32>, code: u32) -> bool {
    exists|i: int| 0 <= i < codes.len() && codes[i] == code
}

/// True when `i` is the first position of `code` in `codes`.
pub open spec fn is_first_with(codes: Seq<u32>, code: u32, i: int) -> bool {
    &&& 0 <= i < codes.len()
    &&& codes[i] == code
    &&& forall|j: int| 0 <= j < i ==> codes[j] != code
}

/// The two bound characteristic positions of one session: indices into the
/// discovered characteristic list.
#[derive(Clone, Copy, Debug, PartialEq, Eq, Structural)]
pub struct RoleBinding {
    pub read_index: usize,
    pub write_index: usize,
}

/// Finds the first characteristic carrying `code`, if any.
pub fn find_characteristic(codes: &Vec<u32>, code: u32) -> (r: Option<usize>)
    ensures
        match r {
            Some(i) => is_first_with(codes@, code, i as int),
            None => !has_code(codes@, code),
        },
{
    let mut i: usize = 0;
    while i < codes.len()
        invariant
            i <= codes@.len(),
            forall|j: int| 0 <= j < i ==> codes@[j] != code,
        decreases codes@.len() - i,
    {
        if codes[i] == code {
            return Some(i);
        }
        i = i + 1;
    }
    None
}

/// Binds both roles over the discovered characteristic list: the read role to
/// the first characteristic carrying the read code, the write role to the
/// first carrying the write code; the absence of either is fatal, the read
/// role being checked first.
pub fn bind_roles(codes: &Vec<u32>) -> (r: Result<RoleBinding, SessionError>)
    ensures
        match r {
            Ok(b) => is_first_with(codes@, READ_CHARACTERISTIC_CODE, b.read_index as int)
                && is_first_with(codes@, WRITE_CHARACTERISTIC_CODE, b.write_index as int),
            Err(e) => (e == SessionError::CharacteristicNotFound(CharacteristicRole::ReadTelemetry)
                && !has_code(codes@, READ_CHARACTERISTIC_CODE)) || (e
                == SessionError::CharacteristicNotFound(CharacteristicRole::WriteCommand)
                && has_code(codes@, READ_CHARACTERISTIC_CODE) && !has_code(
                codes@,
                WRITE_CHARACTERISTIC_CODE,
            )),
        },
{
    let read_index = match find_characteristic(codes, READ_CHARACTERISTIC_CODE) {
        Some(i) => i,
        None => {
            return Err(
                SessionError::CharacteristicNotFound(CharacteristicRole::ReadTelemetry),
            );
        },
    };
    let write_index = match find_characteristic(codes, WRITE_CHARACTERISTIC_CODE) {
        Some(i) => i,
        None => {
            return Err(
                SessionError::CharacteristicNotFound(CharacteristicRole::WriteCommand),
            );
        },
    };
    Ok(RoleBinding { read_index, write_index })
}

} // verus!
