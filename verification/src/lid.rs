//! The laptop lid: what the kernel's ACPI and power-supply files say about it.
use vstd::prelude::*;

use crate::text::{chars_of, chars_eq, contains_chars, contains_seq, trim_chars, trim_seq};

verus! {

/// Whether the laptop lid is open, closed, or cannot be told.
#[derive(Debug, Clone, Copy, PartialEq, Eq, Structural)]
pub enum LidState {
    Open,
    Closed,
    Unknown,
}

/// What the text of an ACPI lid button `state` file says: closed when the text
/// contains `closed` anywhere, otherwise open when it contains `open`, otherwise
/// nothing.
pub open spec fn acpi_reading(content: Seq<char>) -> Option<LidState> {
    if contains_seq(content, "closed"@) {
        Some(LidState::Closed)
    } else if contains_seq(content, "open"@) {
        Some(LidState::Open)
    } else {
        None
    }
}

/// What the text of a power-supply `device/lid_state` file says: closed when
/// the text, without surrounding whitespace, is exactly `closed`; open when it
/// is exactly `open`; otherwise nothing.
pub open spec fn power_supply_reading(content: Seq<char>) -> Option<LidState> {
    if trim_seq(content) == "closed"@ {
        Some(LidState::Closed)
    } else if trim_seq(content) == "open"@ {
        Some(LidState::Open)
    } else {
        None
    }
}

/// The first reading that tells something, if any does.
pub open spec fn first_decided(readings: Seq<Option<LidState>>) -> Option<LidState>
    decreases readings.len(),
{
    if readings.len() == 0 {
        None
    } else if readings[0] is Some {
        readings[0]
    } else {
        first_decided(readings.drop_first())
    }
}

/// The views of a list of strings.
pub open spec fn string_views(v: Seq<String>) -> Seq<Seq<char>> {
    v.map_values(|s: String| s@)
}

/// The lid state that the ACPI files tell (in the order given) and, failing
/// them, the power-supply files; `Unknown` when none tells anything.
pub open spec fn lid_state_of(acpi: Seq<Seq<char>>, power_supply: Seq<Seq<char>>) -> LidState {
    match first_decided(acpi.map_values(|c: Seq<char>| acpi_reading(c))) {
        Some(state) => state,
        None => match first_decided(power_supply.map_values(|c: Seq<char>| power_supply_reading(c))) {
            Some(state) => state,
            None => LidState::Unknown,
        },
    }
}

proof fn lemma_first_decided_skip(r: Seq<Option<LidState>>, k: int)
    requires
        0 <= k < r.len(),
        r[k] is None,
    ensures
        first_decided(r.skip(k)) == first_decided(r.skip(k + 1)),
{
    assert(r.skip(k).drop_first() =~= r.skip(k + 1));
}

proof fn lemma_first_decided_hit(r: Seq<Option<LidState>>, k: int)
    requires
        0 <= k < r.len(),
        r[k] is Some,
    ensures
        first_decided(r.skip(k)) == r[k],
{
}

/// A decided lid state needs a lid file that could be read: when neither list
/// of file texts holds anything, the state is `Unknown`. The program reads
/// only files under the ACPI lid directory and under power-supply entries that
/// it found, so a decided state is only ever read where `is_supported` holds
/// (see `lemma_decided_lid_is_supported`).
pub proof fn lemma_decided_lid_needs_files(acpi: Seq<Seq<char>>, power_supply: Seq<Seq<char>>)
    ensures
        lid_state_of(acpi, power_supply) != LidState::Unknown ==> acpi.len() > 0
            || power_supply.len() > 0,
{
    if acpi.len() == 0 && power_supply.len() == 0 {
        assert(acpi.map_values(|c: Seq<char>| acpi_reading(c)).len() == 0);
        assert(power_supply.map_values(|c: Seq<char>| power_supply_reading(c)).len() == 0);
    }
}

/// A lid state is decided only where the lid counts as supported: when every
/// ACPI text comes from an existing ACPI lid directory, and every
/// power-supply text from an entry whose `device/lid_state` file exists, a
/// decided state implies what `LidState::is_supported` answers `true` to.
pub proof fn lemma_decided_lid_is_supported(
    acpi: Seq<Seq<char>>,
    power_supply: Seq<Seq<char>>,
    acpi_lid_present: bool,
    power_supply_has_lid_state: Seq<bool>,
)
    requires
        acpi.len() > 0 ==> acpi_lid_present,
        power_supply.len() > 0 ==> power_supply_has_lid_state.contains(true),
    ensures
        lid_state_of(acpi, power_supply) != LidState::Unknown ==> acpi_lid_present
            || power_supply_has_lid_state.contains(true),
{
    lemma_decided_lid_needs_files(acpi, power_supply);
}

impl LidState {
    /// The reading of one ACPI lid button `state` file.
    pub fn from_acpi_state(content: &str) -> (r: Option<LidState>)
        ensures
            r == acpi_reading(content@),
    {
        let text = chars_of(content);
        if contains_chars(&text, &chars_of("closed")) {
            Some(LidState::Closed)
        } else if contains_chars(&text, &chars_of("open")) {
            Some(LidState::Open)
        } else {
            None
        }
    }

    /// The reading of one power-supply `device/lid_state` file.
    pub fn from_power_supply_state(content: &str) -> (r: Option<LidState>)
        ensures
            r == power_supply_reading(content@),
    {
        let trimmed = trim_chars(&chars_of(content));
        if chars_eq(&trimmed, &chars_of("closed")) {
            Some(LidState::Closed)
        } else if chars_eq(&trimmed, &chars_of("open")) {
            Some(LidState::Open)
        } else {
            None
        }
    }

    /// The first decided reading among ACPI state file contents.
    fn first_acpi(contents: &Vec<String>) -> (r: Option<LidState>)
        ensures
            r == first_decided(
                string_views(contents@).map_values(|c: Seq<char>| acpi_reading(c)),
            ),
    {
        let ghost readings = string_views(contents@).map_values(|c: Seq<char>| acpi_reading(c));
        assert(readings.skip(0) =~= readings);
        let mut k: usize = 0;
        while k < contents.len()
            invariant
                k <= contents@.len(),
                readings == string_views(contents@).map_values(|c: Seq<char>| acpi_reading(c)),
                first_decided(readings) == first_decided(readings.skip(k as int)),
            decreases contents@.len() - k,
        {
            let reading = LidState::from_acpi_state(contents[k].as_str());
            assert(reading == readings[k as int]);
            if reading.is_some() {
                proof {
                    lemma_first_decided_hit(readings, k as int);
                }
                return reading;
            }
            proof {
                lemma_first_decided_skip(readings, k as int);
            }
            k = k + 1;
        }
        assert(readings.skip(k as int).len() == 0);
        None
    }

    /// The first decided reading among power-supply lid file contents.
    fn first_power_supply(contents: &Vec<String>) -> (r: Option<LidState>)
        ensures
            r == first_decided(
                string_views(contents@).map_values(|c: Seq<char>| power_supply_reading(c)),
            ),
    {
        let ghost readings = string_views(contents@).map_values(
            |c: Seq<char>| power_supply_reading(c),
        );
        assert(readings.skip(0) =~= readings);
        let mut k: usize = 0;
        while k < contents.len()
            invariant
                k <= contents@.len(),
                readings == string_views(contents@).map_values(
                    |c: Seq<char>| power_supply_reading(c),
                ),
                first_decided(readings) == first_decided(readings.skip(k as int)),
            decreases contents@.len() - k,
        {
            let reading = LidState::from_power_supply_state(contents[k].as_str());
            assert(reading == readings[k as int]);
            if reading.is_some() {
                proof {
                    lemma_first_decided_hit(readings, k as int);
                }
                return reading;
            }
            proof {
                lemma_first_decided_skip(readings, k as int);
            }
            k = k + 1;
        }
        assert(readings.skip(k as int).len() == 0);
        None
    }

    /// The lid state, from the texts of the ACPI lid button `state` files
    /// and of the power-supply `device/lid_state` files that could be read, each
    /// list in directory order. The ACPI files are asked first.
    pub fn check(acpi_states: &Vec<String>, power_supply_states: &Vec<String>) -> (r: LidState)
        ensures
            r == lid_state_of(string_views(acpi_states@), string_views(power_supply_states@)),
    {
        match LidState::first_acpi(acpi_states) {
            Some(state) => state,
            None => match LidState::first_power_supply(power_supply_states) {
                Some(state) => state,
                None => LidState::Unknown,
            },
        }
    }

    /// Whether the lid can be watched at all: the ACPI lid directory exists, or
    /// some power-supply device has a `device/lid_state` file (one flag per
    /// power-supply entry).
    pub fn is_supported(acpi_lid_present: bool, power_supply_has_lid_state: &Vec<bool>) -> (r:
        bool)
        ensures
            r == (acpi_lid_present || power_supply_has_lid_state@.contains(true)),
    {
        if acpi_lid_present {
            return true;
        }
        let mut k: usize = 0;
        while k < power_supply_has_lid_state.len()
            invariant
                k <= power_supply_has_lid_state@.len(),
                forall|j: int| 0 <= j < k ==> !power_supply_has_lid_state@[j],
            decreases power_supply_has_lid_state@.len() - k,
        {
            if power_supply_has_lid_state[k] {
                assert(power_supply_has_lid_state@[k as int] == true);
                return true;
            }
            k = k + 1;
        }
        false
    }
}

} // verus!
