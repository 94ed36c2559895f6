//! AirPods battery data and model identification.



use vstd::prelude::*;

pub mod detector;
pub mod filter;
pub mod battery;
pub mod battery_intelligence;

use crate::error::AirPodsError;
use crate::text::{
    ascii_lowercase, ascii_uppercase, concat3, decimal_chars, decimal_string, is_ascii_text,
    lowercase_chars, seq_contains, str_contains, to_lowercase,
};

verus! {

/// AirPods device types
#[derive(Debug, Clone, Copy, PartialEq, Eq, Structural)]
pub enum AirPodsType {
    /// Original AirPods
    AirPods1,
    /// AirPods 2nd generation
    AirPods2,
    /// AirPods 3rd generation
    AirPods3,
    /// AirPods Pro
    AirPodsPro,
    /// AirPods Pro 2nd generation
    AirPodsPro2,
    /// AirPods Max
    AirPodsMax,
    /// Unknown AirPods type
    Unknown,
}

impl AirPodsType {
    /// The name of the model, as `{:?}` writes it.
    pub open spec fn spec_debug_name(self) -> Seq<char> {
        match self {
            AirPodsType::AirPods1 => "AirPods1"@,
            AirPodsType::AirPods2 => "AirPods2"@,
            AirPodsType::AirPods3 => "AirPods3"@,
            AirPodsType::AirPodsPro => "AirPodsPro"@,
            AirPodsType::AirPodsPro2 => "AirPodsPro2"@,
            AirPodsType::AirPodsMax => "AirPodsMax"@,
            AirPodsType::Unknown => "Unknown"@,
        }
    }

    /// The name of the model, as `{:?}` writes it.
    pub fn debug_name(&self) -> (s: &'static str)
        ensures
            s@ == self.spec_debug_name(),
    {
        match self {
            AirPodsType::AirPods1 => "AirPods1",
            AirPodsType::AirPods2 => "AirPods2",
            AirPodsType::AirPods3 => "AirPods3",
            AirPodsType::AirPodsPro => "AirPodsPro",
            AirPodsType::AirPodsPro2 => "AirPodsPro2",
            AirPodsType::AirPodsMax => "AirPodsMax",
            AirPodsType::Unknown => "Unknown",
        }
    }
}

/// The model that a lower-cased device name designates.
pub open spec fn spec_type_from_lowercase_name(n: Seq<char>) -> AirPodsType {
    if seq_contains(n, "airpods pro"@) {
        if seq_contains(n, "2"@) || seq_contains(n, "second"@) {
            AirPodsType::AirPodsPro2
        } else {
            AirPodsType::AirPodsPro
        }
    } else if seq_contains(n, "airpods max"@) {
        AirPodsType::AirPodsMax
    } else if seq_contains(n, "airpods"@) {
        if seq_contains(n, "3"@) || seq_contains(n, "third"@) {
            AirPodsType::AirPods3
        } else if seq_contains(n, "2"@) || seq_contains(n, "second"@) {
            AirPodsType::AirPods2
        } else {
            AirPodsType::AirPods1
        }
    } else {
        AirPodsType::Unknown
    }
}

/// A needle found in a text has each of its prefixes found there too.
proof fn lemma_contains_prefix(hay: Seq<char>, needle: Seq<char>, k: int)
    requires
        seq_contains(hay, needle),
        0 <= k <= needle.len(),
    ensures
        seq_contains(hay, needle.take(k)),
{
    let i = choose|i: int|
        0 <= i && i + needle.len() <= hay.len() && #[trigger] hay.subrange(i, i + needle.len())
            == needle;
    assert(hay.subrange(i, i + k) =~= needle.take(k));
}

/// A name is of no known model exactly when it does not mention "airpods",
/// and a name that mentions "airpods pro" is one of the Pro models.
pub proof fn lemma_detection_needs_airpods(name_lower: Seq<char>)
    ensures
        (spec_type_from_lowercase_name(name_lower) == AirPodsType::Unknown) <==> !seq_contains(
            name_lower,
            "airpods"@,
        ),
        seq_contains(name_lower, "airpods pro"@) ==> (spec_type_from_lowercase_name(name_lower)
            == AirPodsType::AirPodsPro || spec_type_from_lowercase_name(name_lower)
            == AirPodsType::AirPodsPro2),
{
    reveal_strlit("airpods");
    reveal_strlit("airpods pro");
    reveal_strlit("airpods max");
    assert("airpods pro"@.take(7) =~= "airpods"@);
    assert("airpods max"@.take(7) =~= "airpods"@);
    if seq_contains(name_lower, "airpods pro"@) {
        lemma_contains_prefix(name_lower, "airpods pro"@, 7);
    }
    if seq_contains(name_lower, "airpods max"@) {
        lemma_contains_prefix(name_lower, "airpods max"@, 7);
    }
}

/// The model a lower-cased name designates: a name with "airpods pro" is
/// the Pro 2 when it also mentions "2" or "second", else the Pro; otherwise
/// one with "airpods max" is the Max; otherwise one with "airpods" is the
/// third generation when it mentions "3" or "third", else the second when it
/// mentions "2" or "second", else the first.
pub proof fn lemma_detection_models(n: Seq<char>)
    ensures
        seq_contains(n, "airpods pro"@) && (seq_contains(n, "2"@) || seq_contains(n, "second"@))
            ==> spec_type_from_lowercase_name(n) == AirPodsType::AirPodsPro2,
        seq_contains(n, "airpods pro"@) && !seq_contains(n, "2"@) && !seq_contains(n, "second"@)
            ==> spec_type_from_lowercase_name(n) == AirPodsType::AirPodsPro,
        !seq_contains(n, "airpods pro"@) && seq_contains(n, "airpods max"@)
            ==> spec_type_from_lowercase_name(n) == AirPodsType::AirPodsMax,
        seq_contains(n, "airpods"@) && !seq_contains(n, "airpods pro"@) && !seq_contains(
            n,
            "airpods max"@,
        ) && (seq_contains(n, "3"@) || seq_contains(n, "third"@))
            ==> spec_type_from_lowercase_name(n) == AirPodsType::AirPods3,
        seq_contains(n, "airpods"@) && !seq_contains(n, "airpods pro"@) && !seq_contains(
            n,
            "airpods max"@,
        ) && !seq_contains(n, "3"@) && !seq_contains(n, "third"@) && (seq_contains(n, "2"@)
            || seq_contains(n, "second"@))
            ==> spec_type_from_lowercase_name(n) == AirPodsType::AirPods2,
        seq_contains(n, "airpods"@) && !seq_contains(n, "airpods pro"@) && !seq_contains(
            n,
            "airpods max"@,
        ) && !seq_contains(n, "3"@) && !seq_contains(n, "third"@) && !seq_contains(n, "2"@)
            && !seq_contains(n, "second"@)
            ==> spec_type_from_lowercase_name(n) == AirPodsType::AirPods1,
        spec_type_from_lowercase_name(n) == AirPodsType::AirPods2 ==> !seq_contains(n, "3"@)
            && !seq_contains(n, "third"@),
{
}

/// Detection does not depend on letter case: an ASCII name and its
/// upper-case form are both ASCII and designate the same model.
pub proof fn lemma_detection_ignores_case(name: Seq<char>)
    requires
        is_ascii_text(name),
    ensures
        is_ascii_text(ascii_uppercase(name)),
        spec_type_from_lowercase_name(ascii_lowercase(ascii_uppercase(name)))
            == spec_type_from_lowercase_name(ascii_lowercase(name)),
{
    assert(ascii_lowercase(ascii_uppercase(name)) =~= ascii_lowercase(name));
}

impl AirPodsType {
    /// Detect the model from a device name that is already in lower case.
    pub fn detect_from_lowercase_name(name_lower: &str) -> (t: Self)
        ensures
            t == spec_type_from_lowercase_name(name_lower@),
    {
        if str_contains(name_lower, "airpods pro") {
            if str_contains(name_lower, "2") || str_contains(name_lower, "second") {
                AirPodsType::AirPodsPro2
            } else {
                AirPodsType::AirPodsPro
            }
        } else if str_contains(name_lower, "airpods max") {
            AirPodsType::AirPodsMax
        } else if str_contains(name_lower, "airpods") {
            if str_contains(name_lower, "3") || str_contains(name_lower, "third") {
                AirPodsType::AirPods3
            } else if str_contains(name_lower, "2") || str_contains(name_lower, "second") {
                AirPodsType::AirPods2
            } else {
                AirPodsType::AirPods1
            }
        } else {
            AirPodsType::Unknown
        }
    }

    /// Detect AirPods model based on device name (compared in lower case)
    pub fn detect_from_name(name: &str) -> (t: Self)
        ensures
            t == spec_type_from_lowercase_name(lowercase_chars(name@)),
            is_ascii_text(name@) ==> t == spec_type_from_lowercase_name(ascii_lowercase(name@)),
    {
        let name_lower = to_lowercase(name);
        Self::detect_from_lowercase_name(name_lower.as_str())
    }
}

/// Charging state for AirPods
#[derive(Debug, Clone, Copy, PartialEq, Eq, Structural)]
pub enum AirPodsChargingState {
    /// Nothing is charging
    NotCharging,
    /// Left AirPod is charging
    LeftCharging,
    /// Right AirPod is charging
    RightCharging,
    /// Case is charging
    CaseCharging,
    /// Both AirPods are charging
    BothBudsCharging,
}

impl AirPodsChargingState {
    /// Some component charges.
    pub open spec fn spec_any(self) -> bool {
        self != AirPodsChargingState::NotCharging
    }

    /// The left bud charges.
    pub open spec fn spec_left(self) -> bool {
        self == AirPodsChargingState::LeftCharging || self == AirPodsChargingState::BothBudsCharging
    }

    /// The right bud charges.
    pub open spec fn spec_right(self) -> bool {
        self == AirPodsChargingState::RightCharging || self == AirPodsChargingState::BothBudsCharging
    }

    /// The case charges.
    pub open spec fn spec_case(self) -> bool {
        self == AirPodsChargingState::CaseCharging
    }

    /// Returns true if any component is charging
    pub fn is_any_charging(&self) -> (r: bool)
        ensures
            r == self.spec_any(),
    {
        !matches!(self, AirPodsChargingState::NotCharging)
    }

    /// Check if left AirPod is charging
    pub fn is_left_charging(&self) -> (r: bool)
        ensures
            r == self.spec_left(),
    {
        matches!(self, AirPodsChargingState::LeftCharging | AirPodsChargingState::BothBudsCharging)
    }

    /// Check if right AirPod is charging
    pub fn is_right_charging(&self) -> (r: bool)
        ensures
            r == self.spec_right(),
    {
        matches!(self, AirPodsChargingState::RightCharging | AirPodsChargingState::BothBudsCharging)
    }

    /// Check if case is charging
    pub fn is_case_charging(&self) -> (r: bool)
        ensures
            r == self.spec_case(),
    {
        matches!(self, AirPodsChargingState::CaseCharging)
    }
}

/// Battery status for AirPods
#[derive(Debug, Clone, Copy, PartialEq, Eq, Structural)]
pub struct AirPodsBattery {
    /// Left AirPod battery level (percent)
    pub left: Option<u8>,
    /// Right AirPod battery level (percent)
    pub right: Option<u8>,
    /// AirPods case battery level (percent)
    pub case: Option<u8>,
    /// Charging status
    pub charging: Option<AirPodsChargingState>,
}

impl AirPodsBattery {
    /// The battery with nothing known.
    pub open spec fn spec_unknown() -> AirPodsBattery {
        AirPodsBattery { left: None, right: None, case: None, charging: None }
    }
}

impl Default for AirPodsBattery {
    fn default() -> (b: Self)
        ensures
            b == AirPodsBattery::spec_unknown(),
    {
        AirPodsBattery { left: None, right: None, case: None, charging: None }
    }
}

/// Offset of the left bud battery byte in the Apple advertisement.
pub const LEFT_BATTERY_OFFSET: usize = 12;
/// Offset of the right bud battery byte.
pub const RIGHT_BATTERY_OFFSET: usize = 13;
/// Offset of the charging status byte.
pub const CHARGING_STATUS_OFFSET: usize = 14;
/// Offset of the case battery byte.
pub const CASE_BATTERY_OFFSET: usize = 15;
/// Smallest advertisement that holds the battery section.
pub const MIN_BATTERY_DATA_LEN: usize = 16;

/// Battery percentage encoded by one raw advertisement byte: `0..=10`
/// scale to tens of percent, `0xFF` is unknown, anything else is capped at 100.
pub open spec fn spec_battery_level(raw: u8) -> Option<u8> {
    if raw <= 10 {
        Some((raw * 10) as u8)
    } else if raw == 0xFF {
        None
    } else {
        Some(100u8)
    }
}

/// Helper function to extract battery level from raw value.
///
/// Returns None if the battery value can't be determined (0xFF),
/// otherwise the percentage (0-100).
pub fn extract_battery_level(raw_value: u8) -> (level: Option<u8>)
    ensures
        level == spec_battery_level(raw_value),
        level matches Some(p) ==> p <= 100,
{
    if raw_value <= 10 {
        Some(raw_value * 10)
    } else if raw_value == 0xFF {
        None
    } else {
        Some(100)
    }
}

/// Charging state encoded by the status byte; other values are unknown.
pub open spec fn spec_charging_state(raw: u8) -> Option<AirPodsChargingState> {
    if raw == 0 {
        Some(AirPodsChargingState::NotCharging)
    } else if raw == 1 {
        Some(AirPodsChargingState::LeftCharging)
    } else if raw == 2 {
        Some(AirPodsChargingState::RightCharging)
    } else if raw == 4 {
        Some(AirPodsChargingState::CaseCharging)
    } else if raw == 5 {
        Some(AirPodsChargingState::BothBudsCharging)
    } else {
        None
    }
}

/// Decode the charging status byte.
pub fn extract_charging_state(raw: u8) -> (s: Option<AirPodsChargingState>)
    ensures
        s == spec_charging_state(raw),
{
    match raw {
        0 => Some(AirPodsChargingState::NotCharging),
        1 => Some(AirPodsChargingState::LeftCharging),
        2 => Some(AirPodsChargingState::RightCharging),
        4 => Some(AirPodsChargingState::CaseCharging),
        5 => Some(AirPodsChargingState::BothBudsCharging),
        _ => None,
    }
}

/// The battery section of an advertisement long enough to hold it.
pub open spec fn spec_decoded_battery(data: Seq<u8>) -> AirPodsBattery {
    AirPodsBattery {
        left: spec_battery_level(data[LEFT_BATTERY_OFFSET as int]),
        right: spec_battery_level(data[RIGHT_BATTERY_OFFSET as int]),
        case: spec_battery_level(data[CASE_BATTERY_OFFSET as int]),
        charging: spec_charging_state(data[CHARGING_STATUS_OFFSET as int]),
    }
}

/// An advertisement from which a battery reading is decoded: long enough,
/// and with at least one of the three levels known.
pub open spec fn spec_has_battery_data(data: Seq<u8>) -> bool {
    &&& data.len() >= MIN_BATTERY_DATA_LEN
    &&& {
        let b = spec_decoded_battery(data);
        b.left is Some || b.right is Some || b.case is Some
    }
}

/// The message of the error for an advertisement that is too short.
pub open spec fn spec_too_short_message(len: nat) -> Seq<char> {
    "Data too short for battery parsing: "@ + decimal_chars(len) + " bytes (need at least 16)"@
}

/// Helper function to parse AirPods data from manufacturer data.
///
/// The battery section sits at offsets 12 (left), 13 (right), 14 (charging
/// status) and 15 (case); at least 16 bytes are needed.
pub fn parse_airpods_data(data: &[u8]) -> (r: Result<AirPodsBattery, AirPodsError>)
    ensures
        data@.len() < MIN_BATTERY_DATA_LEN ==> (r matches Err(AirPodsError::InvalidData(msg))
            && msg@ == spec_too_short_message(data@.len())),
        data@.len() >= MIN_BATTERY_DATA_LEN && !spec_has_battery_data(data@) ==> (r matches Err(
            AirPodsError::ParseError(msg),
        ) && msg@ == "No valid battery data found in manufacturer data"@),
        spec_has_battery_data(data@) ==> r == Ok::<AirPodsBattery, AirPodsError>(
            spec_decoded_battery(data@),
        ),
        r is Ok <==> spec_has_battery_data(data@),
{
    if data.len() < MIN_BATTERY_DATA_LEN {
        let n = decimal_string(data.len() as u64);
        let msg = concat3(
            "Data too short for battery parsing: ",
            n.as_str(),
            " bytes (need at least 16)",
        );
        return Err(AirPodsError::InvalidData(msg));
    }
    let left_battery = extract_battery_level(data[LEFT_BATTERY_OFFSET]);
    let right_battery = extract_battery_level(data[RIGHT_BATTERY_OFFSET]);
    let case_battery = extract_battery_level(data[CASE_BATTERY_OFFSET]);
    let charging_status = extract_charging_state(data[CHARGING_STATUS_OFFSET]);

    if left_battery.is_none() && right_battery.is_none() && case_battery.is_none() {
        return Err(
            AirPodsError::ParseError(
                String::from_str("No valid battery data found in manufacturer data"),
            ),
        );
    }
    Ok(
        AirPodsBattery {
            left: left_battery,
            right: right_battery,
            case: case_battery,
            charging: charging_status,
        },
    )
}

/// Struct version of charging status for individual components
#[derive(Debug, Clone, Copy, PartialEq, Eq, Structural)]
pub struct ChargingStatus {
    /// Left earbud charging status
    pub left: bool,
    /// Right earbud charging status
    pub right: bool,
    /// Case charging status
    pub case: bool,
}

impl ChargingStatus {
    /// Some component charges.
    pub open spec fn spec_any(self) -> bool {
        self.left || self.right || self.case
    }

    /// Check if any component is charging
    pub fn is_any_charging(&self) -> (r: bool)
        ensures
            r == self.spec_any(),
    {
        self.left || self.right || self.case
    }

    /// Create a new charging status with all values set to false
    pub fn none() -> (s: Self)
        ensures
            !s.left && !s.right && !s.case,
    {
        ChargingStatus { left: false, right: false, case: false }
    }

    /// Convert from AirPodsChargingState enum
    pub fn from_state(state: AirPodsChargingState) -> (s: Self)
        ensures
            s.left == state.spec_left(),
            s.right == state.spec_right(),
            s.case == state.spec_case(),
    {
        ChargingStatus {
            left: state.is_left_charging(),
            right: state.is_right_charging(),
            case: state.is_case_charging(),
        }
    }
}

/// How one raw level byte decodes: `0` to `10` are tens of percent (`n`
/// gives `10 * n`), `0xFF` is unknown, and every other byte means 100%.
pub proof fn lemma_battery_level_rules(raw: u8)
    ensures
        raw <= 10 ==> spec_battery_level(raw) == Some((10 * raw) as u8) && 10 * raw <= 100,
        raw == 0xFF ==> spec_battery_level(raw) is None,
        10 < raw < 0xFF ==> spec_battery_level(raw) == Some(100u8),
{
}

/// How the charging byte decodes: 0 nothing, 1 the left bud, 2 the right bud,
/// 4 the case, 5 both buds; any other byte is unknown.
pub proof fn lemma_charging_state_rules(raw: u8)
    ensures
        raw == 0 ==> spec_charging_state(raw) == Some(AirPodsChargingState::NotCharging),
        raw == 1 ==> spec_charging_state(raw) == Some(AirPodsChargingState::LeftCharging),
        raw == 2 ==> spec_charging_state(raw) == Some(AirPodsChargingState::RightCharging),
        raw == 4 ==> spec_charging_state(raw) == Some(AirPodsChargingState::CaseCharging),
        raw == 5 ==> spec_charging_state(raw) == Some(AirPodsChargingState::BothBudsCharging),
        (raw == 3 || raw > 5) ==> spec_charging_state(raw) is None,
        (spec_charging_state(raw) matches Some(s) && s == AirPodsChargingState::LeftCharging)
            ==> raw == 1,
{
}

/// Which components a charging state says charge: the left bud under
/// `LeftCharging` and `BothBudsCharging`, the right bud under `RightCharging`
/// and `BothBudsCharging`, the case under `CaseCharging` only; something
/// charges in every state but `NotCharging`.
pub proof fn lemma_charging_components(s: AirPodsChargingState)
    ensures
        s.spec_left() <==> (s == AirPodsChargingState::LeftCharging || s
            == AirPodsChargingState::BothBudsCharging),
        s.spec_right() <==> (s == AirPodsChargingState::RightCharging || s
            == AirPodsChargingState::BothBudsCharging),
        s.spec_case() <==> s == AirPodsChargingState::CaseCharging,
        s.spec_any() <==> s != AirPodsChargingState::NotCharging,
{
}

/// Every level that the advertisement decoder reports is a percentage of at most 100.
pub proof fn lemma_decoded_levels_are_percentages(data: Seq<u8>)
    requires
        data.len() >= MIN_BATTERY_DATA_LEN,
    ensures
        spec_decoded_battery(data).left matches Some(p) ==> p <= 100,
        spec_decoded_battery(data).right matches Some(p) ==> p <= 100,
        spec_decoded_battery(data).case matches Some(p) ==> p <= 100,
{
}

/// The per-component view of a charging state agrees with the state on
/// whether anything charges.
pub proof fn lemma_charging_status_agrees(state: AirPodsChargingState)
    ensures
        (ChargingStatus {
            left: state.spec_left(),
            right: state.spec_right(),
            case: state.spec_case(),
        }).spec_any() == state.spec_any(),
{
}

} // verus!
