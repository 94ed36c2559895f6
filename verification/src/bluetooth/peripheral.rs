//! The decisions of a connection to a Bluetooth peripheral: retrying a
//! connection, finding a characteristic or service, checking that a
//! characteristic notifies, and routing notifications to their handlers.

use std::time::Duration;
use uuid::Uuid;
use vstd::prelude::*;
use vstd::string::StringExecFns;

use crate::error::BluetoothError;
use crate::text::{concat2, concat3, decimal_chars, decimal_string};
use crate::time::{duration_from_millis, duration_nanos};

verus! {

/// Maximum connection attempts
pub const MAX_CONNECTION_ATTEMPTS: u8 = 3;

/// Milliseconds waited before a retry, per failed attempt so far.
pub const RETRY_DELAY_STEP_MILLIS: u64 = 500;

/// The lower-case hexadecimal digit of a value below 16.
pub open spec fn lower_hex_char(d: nat) -> char {
    if d < 10 {
        ('0' as nat + d) as char
    } else {
        ('a' as nat + (d - 10)) as char
    }
}

/// The `n` lowest hexadecimal digits of `v`, most significant first, in
/// lower case.
pub open spec fn lower_hex_digits(v: nat, n: nat) -> Seq<char>
    decreases n,
{
    if n == 0 {
        Seq::empty()
    } else {
        lower_hex_digits(v / 16, (n - 1) as nat).push(lower_hex_char(v % 16))
    }
}

/// The text of a 128-bit id in the hyphenated form: its 32 lower-case
/// hexadecimal digits, most significant first, in groups of 8, 4, 4, 4 and
/// 12 joined by hyphens.
pub open spec fn spec_uuid_text(v: u128) -> Seq<char> {
    let d = lower_hex_digits(v as nat, 32);
    d.subrange(0, 8) + "-"@ + d.subrange(8, 12) + "-"@ + d.subrange(12, 16) + "-"@ + d.subrange(
        16,
        20,
    ) + "-"@ + d.subrange(20, 32)
}

/// Formats the id with `Uuid::from_u128` and `to_string`: the bytes of the
/// value, most significant first, each written as two lower-case
/// hexadecimal digits, with hyphens after the 4th, 6th, 8th and 10th byte.
#[verifier::external_body]
pub fn uuid_text(uuid: u128) -> (s: String)
    ensures
        s@ == spec_uuid_text(uuid),
{
    Uuid::from_u128(uuid).to_string()
}

/// A characteristic of a peripheral as the connection logic reads it: its id
/// and whether it can notify.
#[derive(Debug, Clone, Copy, PartialEq, Eq, Structural)]
pub struct CharacteristicInfo {
    pub uuid: u128,
    pub notify: bool,
}

/// What to do after a connection attempt.
#[derive(Debug)]
pub enum ConnectStep {
    /// The peripheral is connected.
    Connected,
    /// Wait this long, then try again.
    Retry { delay: Duration },
    /// Give up with this error.
    Failed(BluetoothError),
}

/// The text of the error after the last failed attempt.
pub open spec fn spec_gave_up_text(error: Seq<char>) -> Seq<char> {
    "Failed after "@ + decimal_chars(MAX_CONNECTION_ATTEMPTS as nat) + " attempts: "@ + error
}

/// The decision after connection attempt number `attempt` (counting from
/// one) came back: success connects; a failure before the last attempt waits
/// 500 ms per attempt made and retries; a failure of the last attempt gives
/// up with a connection error that quotes the failure.
pub fn connect_step(attempt: u8, outcome: &Result<(), String>) -> (step: ConnectStep)
    requires
        1 <= attempt <= MAX_CONNECTION_ATTEMPTS,
    ensures
        outcome is Ok ==> step is Connected,
        outcome is Err && attempt < MAX_CONNECTION_ATTEMPTS ==> (step matches ConnectStep::Retry {
            delay,
        } && duration_nanos(delay) == attempt * RETRY_DELAY_STEP_MILLIS * 1_000_000),
        attempt == MAX_CONNECTION_ATTEMPTS ==> (outcome matches Err(e) ==> (step matches ConnectStep::Failed(
            BluetoothError::ConnectionFailed(m),
        ) && m@ == spec_gave_up_text(e@))),
{
    match outcome {
        Ok(()) => ConnectStep::Connected,
        Err(e) => {
            if attempt < MAX_CONNECTION_ATTEMPTS {
                ConnectStep::Retry {
                    delay: duration_from_millis(RETRY_DELAY_STEP_MILLIS * attempt as u64),
                }
            } else {
                let count = decimal_string(MAX_CONNECTION_ATTEMPTS as u64);
                let mut m = concat3("Failed after ", count.as_str(), " attempts: ");
                m.append(e.as_str());
                proof {
                    reveal_strlit("Failed after ");
                    reveal_strlit(" attempts: ");
                }
                ConnectStep::Failed(BluetoothError::ConnectionFailed(m))
            }
        },
    }
}

/// The outcome of looking up a characteristic by id: the position of the
/// first one with the id, or, when none has it, an invalid-data error that
/// names the id.
pub open spec fn spec_lookup(chars: Seq<CharacteristicInfo>, uuid: u128, r: Result<usize, BluetoothError>) -> bool {
    match r {
        Ok(i) => i < chars.len() && chars[i as int].uuid == uuid && forall|j: int|
            0 <= j < i ==> chars[j].uuid != uuid,
        Err(e) => (forall|j: int| 0 <= j < chars.len() ==> chars[j].uuid != uuid) && (e matches BluetoothError::InvalidData(m)
            && m@ == "Characteristic not found: "@ + spec_uuid_text(uuid)),
    }
}

/// The first characteristic with the id, by position; not finding one is an
/// invalid-data error that names the id.
pub fn find_characteristic(chars: &Vec<CharacteristicInfo>, uuid: u128) -> (r: Result<
    usize,
    BluetoothError,
>)
    ensures
        spec_lookup(chars@, uuid, r),
{
    for i in 0..chars.len()
        invariant
            forall|j: int| 0 <= j < i ==> chars@[j].uuid != uuid,
    {
        if chars[i].uuid == uuid {
            return Ok(i);
        }
    }
    let text = uuid_text(uuid);
    proof {
        reveal_strlit("Characteristic not found: ");
    }
    Err(BluetoothError::InvalidData(concat2("Characteristic not found: ", text.as_str())))
}

/// The first service with the id, by position; not finding one is an
/// invalid-data error that names the id.
pub fn find_service(services: &Vec<u128>, uuid: u128) -> (r: Result<usize, BluetoothError>)
    ensures
        match r {
            Ok(i) => i < services@.len() && services@[i as int] == uuid && forall|j: int|
                0 <= j < i ==> services@[j] != uuid,
            Err(e) => (forall|j: int| 0 <= j < services@.len() ==> services@[j] != uuid) && (e matches BluetoothError::InvalidData(m)
                && m@ == "Service not found: "@ + spec_uuid_text(uuid)),
        },
{
    for i in 0..services.len()
        invariant
            forall|j: int| 0 <= j < i ==> services@[j] != uuid,
    {
        if services[i] == uuid {
            return Ok(i);
        }
    }
    let text = uuid_text(uuid);
    proof {
        reveal_strlit("Service not found: ");
    }
    Err(BluetoothError::InvalidData(concat2("Service not found: ", text.as_str())))
}

/// The error of a peripheral operation the Bluetooth API refused: what was
/// tried, a colon and the API's own words.
pub fn api_failure(what: &str, error: &str) -> (e: BluetoothError)
    ensures
        e matches BluetoothError::ApiError(m) && m@ == what@ + ": "@ + error@,
{
    proof {
        reveal_strlit(": ");
    }
    BluetoothError::ApiError(concat3(what, ": ", error))
}

/// The error for an operation on a peripheral that is not connected.
pub open spec fn spec_not_connected(e: BluetoothError) -> bool {
    e matches BluetoothError::ConnectionFailed(m) && m@ == "Not connected"@
}

/// A peripheral's connection status and the characteristic ids that
/// notification handlers were registered for, in order of registration.
#[derive(Debug, Clone)]
pub struct PeripheralState {
    pub is_connected: bool,
    pub handlers: Vec<u128>,
}

impl PeripheralState {
    /// Not connected, with no handlers.
    pub fn new() -> (s: Self)
        ensures
            !s.is_connected,
            s.handlers@.len() == 0,
    {
        PeripheralState { is_connected: false, handlers: Vec::new() }
    }

    /// An operation on the peripheral needs a connection.
    pub fn ensure_connected(&self) -> (r: Result<(), BluetoothError>)
        ensures
            r is Ok <==> self.is_connected,
            r matches Err(e) ==> spec_not_connected(e),
    {
        if self.is_connected {
            Ok(())
        } else {
            Err(BluetoothError::ConnectionFailed(String::from_str("Not connected")))
        }
    }

    /// The characteristic an operation works on: the peripheral must be
    /// connected, and the characteristic is found by id.
    pub fn characteristic_for(&self, chars: &Vec<CharacteristicInfo>, uuid: u128) -> (r: Result<
        usize,
        BluetoothError,
    >)
        ensures
            !self.is_connected ==> (r matches Err(e) && spec_not_connected(e)),
            self.is_connected ==> spec_lookup(chars@, uuid, r),
    {
        if !self.is_connected {
            return Err(BluetoothError::ConnectionFailed(String::from_str("Not connected")));
        }
        find_characteristic(chars, uuid)
    }

    /// The characteristic to subscribe to: the peripheral must be connected,
    /// the characteristic is found by id, and it must notify; otherwise an
    /// invalid-data error says it does not.
    pub fn subscription_target(&self, chars: &Vec<CharacteristicInfo>, uuid: u128) -> (r: Result<
        usize,
        BluetoothError,
    >)
        ensures
            !self.is_connected ==> (r matches Err(e) && spec_not_connected(e)),
            self.is_connected && (forall|j: int| 0 <= j < chars@.len() ==> chars@[j].uuid != uuid)
                ==> (r matches Err(e) && e matches BluetoothError::InvalidData(m) && m@
                == "Characteristic not found: "@ + spec_uuid_text(uuid)),
            r matches Ok(i) ==> self.is_connected && i < chars@.len() && chars@[i as int].uuid
                == uuid && chars@[i as int].notify && forall|j: int|
                0 <= j < i ==> chars@[j].uuid != uuid,
            self.is_connected && (exists|i: int| 0 <= i < chars@.len() && chars@[i].uuid == uuid
                && chars@[i].notify && forall|j: int| 0 <= j < i ==> chars@[j].uuid != uuid) ==> r is Ok,
            self.is_connected && (exists|i: int| 0 <= i < chars@.len() && chars@[i].uuid == uuid
                && !chars@[i].notify && forall|j: int| 0 <= j < i ==> chars@[j].uuid != uuid) ==> (r matches Err(e)
                && e matches BluetoothError::InvalidData(m) && m@ == "Characteristic "@
                + spec_uuid_text(uuid) + " doesn't support notifications"@),
    {
        if !self.is_connected {
            return Err(BluetoothError::ConnectionFailed(String::from_str("Not connected")));
        }
        let i = match find_characteristic(chars, uuid) {
            Ok(i) => i,
            Err(e) => {
                return Err(e);
            },
        };
        if !chars[i].notify {
            let text = uuid_text(uuid);
            proof {
                reveal_strlit("Characteristic ");
                reveal_strlit(" doesn't support notifications");
            }
            return Err(
                BluetoothError::InvalidData(
                    concat3("Characteristic ", text.as_str(), " doesn't support notifications"),
                ),
            );
        }
        Ok(i)
    }

    /// Register a handler for a characteristic's notifications.
    pub fn add_handler(&mut self, uuid: u128)
        ensures
            final(self).handlers@ == old(self).handlers@.push(uuid),
            final(self).is_connected == old(self).is_connected,
    {
        self.handlers.push(uuid);
    }

    /// The positions of the handlers registered for a characteristic, in
    /// order: those a notification from it is handed to.
    pub fn handlers_for(&self, uuid: u128) -> (r: Vec<usize>)
        ensures
            forall|k: int| 0 <= k < r@.len() ==> #[trigger] r@[k] < self.handlers@.len()
                && self.handlers@[r@[k] as int] == uuid,
            forall|a: int, b: int| 0 <= a < b < r@.len() ==> r@[a] < r@[b],
            forall|j: int| 0 <= j < self.handlers@.len() && self.handlers@[j] == uuid ==> r@.contains(j as usize),
    {
        let mut r: Vec<usize> = Vec::new();
        for i in 0..self.handlers.len()
            invariant
                forall|k: int| 0 <= k < r@.len() ==> #[trigger] r@[k] < i && self.handlers@[r@[k] as int] == uuid,
                forall|a: int, b: int| 0 <= a < b < r@.len() ==> r@[a] < r@[b],
                forall|j: int| 0 <= j < i && self.handlers@[j] == uuid ==> r@.contains(j as usize),
        {
            if self.handlers[i] == uuid {
                let ghost r0 = r@;
                r.push(i);
                proof {
                    assert forall|j: int| 0 <= j < i + 1 && self.handlers@[j] == uuid implies r@.contains(j as usize) by {
                        if j < i {
                            let k = choose|k: int| 0 <= k < r0.len() && r0[k] == j as usize;
                            assert(r@[k] == j as usize);
                        } else {
                            assert(r@[r0.len() as int] == j as usize);
                        }
                    }
                }
            }
        }
        r
    }

    /// Take the outcome of a disconnection: success leaves the peripheral
    /// disconnected; a failure keeps it connected and is reported.
    pub fn disconnected(&mut self, outcome: &Result<(), String>) -> (r: Result<(), BluetoothError>)
        ensures
            outcome is Ok ==> r is Ok && !final(self).is_connected,
            outcome matches Err(e) ==> (r matches Err(BluetoothError::DeviceDisconnected(m))
                && m@ == "Failed to disconnect: "@ + e@) && final(self).is_connected
                == old(self).is_connected,
            final(self).handlers@ == old(self).handlers@,
    {
        match outcome {
            Ok(()) => {
                self.is_connected = false;
                Ok(())
            },
            Err(e) => {
                proof {
                    reveal_strlit("Failed to disconnect: ");
                }
                Err(BluetoothError::DeviceDisconnected(concat2("Failed to disconnect: ", e.as_str())))
            },
        }
    }
}

} // verus!
