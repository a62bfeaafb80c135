//! What the heater is told, and when.
use crate::temperature::{self, Temperature};
use crate::text;
use vstd::arithmetic::power2;
use vstd::prelude::*;

verus! {

/// The flow temperature that an active heater is asked for, in degrees.
pub const ACTIVE_FLOW_TEMP: u8 = 60;

/// One second, in nanoseconds.
pub const SECOND: u64 = 1_000_000_000;

/// How the heater is operated.
#[derive(Clone, Copy, Debug, PartialEq, Eq)]
pub enum HeaterMode {
    AUTO,
    HEAT,
    OFF,
}

/// The mode that a name stands for.
pub open spec fn mode_named(name: Seq<char>) -> Option<HeaterMode> {
    if name == "auto"@ {
        Some(HeaterMode::AUTO)
    } else if name == "heat"@ {
        Some(HeaterMode::HEAT)
    } else if name == "off"@ {
        Some(HeaterMode::OFF)
    } else {
        None
    }
}

impl HeaterMode {
    /// The name of the mode.
    pub open spec fn name(self) -> Seq<char> {
        match self {
            HeaterMode::AUTO => "auto"@,
            HeaterMode::HEAT => "heat"@,
            HeaterMode::OFF => "off"@,
        }
    }

    /// What the mode is in a command.
    pub open spec fn command_value(self) -> Seq<char> {
        match self {
            HeaterMode::AUTO => "0"@,
            HeaterMode::HEAT => "0"@,
            HeaterMode::OFF => "off"@,
        }
    }

    /// What stands for the mode in a command to the heater.
    pub fn to_command_value(&self) -> (value: String)
        ensures
            value@ == self.command_value(),
    {
        match self {
            HeaterMode::AUTO => "0".to_string(),
            HeaterMode::HEAT => "0".to_string(),
            HeaterMode::OFF => "off".to_string(),
        }
    }

    /// The name of the mode.
    pub fn to_string(&self) -> (name: String)
        ensures
            name@ == self.name(),
    {
        match self {
            HeaterMode::AUTO => "auto".to_string(),
            HeaterMode::HEAT => "heat".to_string(),
            HeaterMode::OFF => "off".to_string(),
        }
    }

    /// The mode of that name, if there is one.
    pub fn from_str(s: &str) -> (mode: Result<HeaterMode, ()>)
        ensures
            mode == (match mode_named(s@) {
                Some(m) => Ok::<HeaterMode, ()>(m),
                None => Err(()),
            }),
    {
        if text::same_text(s, "auto") {
            Ok(HeaterMode::AUTO)
        } else if text::same_text(s, "heat") {
            Ok(HeaterMode::HEAT)
        } else if text::same_text(s, "off") {
            Ok(HeaterMode::OFF)
        } else {
            Err(())
        }
    }
}

/// What the heater is asked to do.
#[derive(Clone, Copy, Debug, PartialEq, Eq)]
pub struct HeaterSettings {
    pub hc_mode: HeaterMode,
    /// The flow temperature of the heating circuit; zero while it is inactive.
    pub flow_temp_desired: u8,
    /// The temperature of the tap water.
    pub hwc_temp_desired: u8,
    pub hwc_flow_temp_desired: Option<u8>,
    pub disable_hc: bool,
    pub disable_hwc_load: bool,
}

/// A flag in a command.
pub open spec fn flag(set: bool) -> Seq<char> {
    if set {
        "1"@
    } else {
        "0"@
    }
}

fn flag_text(set: bool) -> (value: String)
    ensures
        value@ == flag(set),
{
    if set {
        "1".to_string()
    } else {
        "0".to_string()
    }
}

impl HeaterSettings {
    /// The values of a SetModeOverride command, in the order of the message
    /// definition: the mode, the flow and the tap water temperature, the flow
    /// temperature for tap water, the first set mode byte, the three flags of
    /// the first flag byte, the second set mode byte, and the three flags of
    /// the second.
    pub open spec fn cmd_fields(self) -> Seq<Seq<char>> {
        seq![
            self.hc_mode.command_value(),
            text::decimal(self.flow_temp_desired as nat),
            text::decimal(self.hwc_temp_desired as nat),
            match self.hwc_flow_temp_desired {
                Some(v) => text::decimal(v as nat),
                None => "-"@,
            },
            "-"@,
            flag(self.disable_hc),
            "0"@,
            flag(self.disable_hwc_load),
            "-"@,
            "0"@,
            "0"@,
            "0"@,
        ]
    }

    /// The argument of a SetModeOverride command.
    pub open spec fn cmd_arg(self) -> Seq<char> {
        text::join_with(self.cmd_fields(), ';')
    }

    /// The argument of the SetModeOverride command that asks for the settings.
    pub fn into_cmd_arg(self) -> (arg: String)
        ensures
            arg@ == self.cmd_arg(),
    {
        let hwc_flow = match self.hwc_flow_temp_desired {
            Some(v) => text::decimal_text(v),
            None => "-".to_string(),
        };
        let fields: Vec<String> = vec![
            self.hc_mode.to_command_value(),
            text::decimal_text(self.flow_temp_desired),
            text::decimal_text(self.hwc_temp_desired),
            hwc_flow,
            "-".to_string(),
            flag_text(self.disable_hc),
            "0".to_string(),
            flag_text(self.disable_hwc_load),
            "-".to_string(),
            "0".to_string(),
            "0".to_string(),
            "0".to_string(),
        ];
        assert(Seq::new(fields@.len(), |i: int| fields@[i]@) =~= self.cmd_fields());
        text::join(&fields, ';')
    }

    /// The settings with another flow temperature.
    pub open spec fn with_flow(self, flow_temp: u8) -> HeaterSettings {
        HeaterSettings { flow_temp_desired: flow_temp, ..self }
    }
}

/// The settings of a heater that was told nothing yet.
pub open spec fn default_settings() -> HeaterSettings {
    HeaterSettings {
        hc_mode: HeaterMode::AUTO,
        flow_temp_desired: 0,
        hwc_temp_desired: 0,
        hwc_flow_temp_desired: None,
        disable_hc: false,
        disable_hwc_load: false,
    }
}

impl Default for HeaterSettings {
    fn default() -> (settings: HeaterSettings)
        ensures
            settings == default_settings(),
    {
        HeaterSettings {
            hc_mode: HeaterMode::AUTO,
            flow_temp_desired: 0,
            hwc_temp_desired: 0,
            hwc_flow_temp_desired: None,
            disable_hc: false,
            disable_hwc_load: false,
        }
    }
}

/// What the household wants.
#[derive(Clone, Copy, Debug, PartialEq, Eq)]
pub struct TemperaturePreferences {
    /// How far the bounds lie from the set point.
    pub temperature_band: Temperature,
    /// At this temperature or below, heating begins.
    pub lower_bound: Temperature,
    /// At this temperature or above, heating ends.
    pub higher_bound: Temperature,
    pub set_point: Temperature,
    /// For how long a change of the heating is kept, in nanoseconds.
    pub maintain_state_for: u64,
    pub tap_water_set_point: Temperature,
}

/// `t` is a whole number of degrees.
pub open spec fn is_degrees(t: Temperature, degrees: u8) -> bool {
    !t.is_nan() && t.steps() == degrees * temperature::degree()
}

/// What is preferred where nothing else was said.
pub open spec fn default_preferences(prefs: TemperaturePreferences) -> bool {
    &&& is_degrees(prefs.temperature_band, 1)
    &&& is_degrees(prefs.lower_bound, 19)
    &&& is_degrees(prefs.higher_bound, 23)
    &&& is_degrees(prefs.set_point, 22)
    &&& prefs.maintain_state_for == 60 * SECOND
    &&& is_degrees(prefs.tap_water_set_point, 45)
}

impl Default for TemperaturePreferences {
    fn default() -> (prefs: TemperaturePreferences)
        ensures
            default_preferences(prefs),
    {
        TemperaturePreferences {
            temperature_band: Temperature::from_degrees(1),
            lower_bound: Temperature::from_degrees(19),
            higher_bound: Temperature::from_degrees(23),
            set_point: Temperature::from_degrees(22),
            maintain_state_for: 60 * SECOND,
            tap_water_set_point: Temperature::from_degrees(45),
        }
    }
}

/// The settings to change to when the room is at temperature `t`, if any: an
/// inactive heater starts at the lower bound or below, an active one stops at
/// the higher bound or above.
pub open spec fn heating_change(
    settings: HeaterSettings,
    prefs: TemperaturePreferences,
    t: Temperature,
) -> Option<HeaterSettings> {
    if settings.flow_temp_desired == 0 && t.at_most_spec(prefs.lower_bound) {
        Some(settings.with_flow(ACTIVE_FLOW_TEMP))
    } else if settings.flow_temp_desired != 0 && prefs.higher_bound.at_most_spec(t) {
        Some(settings.with_flow(0))
    } else {
        None
    }
}

/// The settings to change to when the room is at temperature `t`, if any.
pub fn change_heating(
    settings: HeaterSettings,
    prefs: &TemperaturePreferences,
    t: &Temperature,
) -> (change: Option<HeaterSettings>)
    ensures
        change == heating_change(settings, *prefs, *t),
{
    if settings.flow_temp_desired == 0 {
        // The heater is inactive.
        if t.at_most(&prefs.lower_bound) {
            return Some(HeaterSettings { flow_temp_desired: ACTIVE_FLOW_TEMP, ..settings });
        }
    } else {
        // The heater is active.
        if prefs.higher_bound.at_most(t) {
            return Some(HeaterSettings { flow_temp_desired: 0, ..settings });
        }
    }
    None
}

// ---------------------------------------------------------------------------
// Laws
// ---------------------------------------------------------------------------

/// Every mode is read back from its name.
pub proof fn law_mode_round_trip(mode: HeaterMode)
    ensures
        mode_named(mode.name()) == Some(mode),
{
    reveal_strlit("auto");
    reveal_strlit("heat");
    reveal_strlit("off");
    assert("auto"@[0] != "heat"@[0]);
    assert("auto"@[0] != "off"@[0]);
    assert("heat"@[0] != "off"@[0]);
}

/// A name stands for a mode only if it is that mode's own name.
pub proof fn law_mode_names(name: Seq<char>)
    ensures
        mode_named(name) matches Some(mode) ==> mode.name() == name,
        mode_named(name) is None ==> forall|mode: HeaterMode| #[trigger] mode.name() != name,
{
}

/// The argument of a command splits at its semicolons into exactly the twelve
/// values that the message definition asks for.
pub proof fn law_cmd_arg_splits(settings: HeaterSettings)
    ensures
        text::split_on(settings.cmd_arg(), ';') == settings.cmd_fields(),
        settings.cmd_fields().len() == 12,
{
    reveal_strlit("0");
    reveal_strlit("1");
    reveal_strlit("-");
    reveal_strlit("off");
    text::lemma_decimal_digits(settings.flow_temp_desired as nat);
    text::lemma_decimal_digits(settings.hwc_temp_desired as nat);
    if let Some(v) = settings.hwc_flow_temp_desired {
        text::lemma_decimal_digits(v as nat);
    }
    text::lemma_split_join(settings.cmd_fields(), ';');
}

/// Equal arguments ask for equal settings, except that a command does not tell
/// the modes AUTO and HEAT apart.
pub proof fn law_cmd_arg_tells_settings(a: HeaterSettings, b: HeaterSettings)
    requires
        a.cmd_arg() == b.cmd_arg(),
    ensures
        a == (HeaterSettings { hc_mode: a.hc_mode, ..b }),
        a.hc_mode is OFF <==> b.hc_mode is OFF,
{
    law_cmd_arg_splits(a);
    law_cmd_arg_splits(b);
    let fields = a.cmd_fields();
    assert(fields == b.cmd_fields());
    reveal_strlit("0");
    reveal_strlit("1");
    reveal_strlit("-");
    reveal_strlit("off");
    assert(fields[0] == a.hc_mode.command_value() && fields[0] == b.hc_mode.command_value());
    assert("0"@[0] != "off"@[0]);
    assert(fields[1] == text::decimal(b.flow_temp_desired as nat));
    text::law_decimal_tells_number(a.flow_temp_desired as nat, b.flow_temp_desired as nat);
    assert(fields[2] == text::decimal(b.hwc_temp_desired as nat));
    text::law_decimal_tells_number(a.hwc_temp_desired as nat, b.hwc_temp_desired as nat);
    assert("-"@[0] == '-');
    if let Some(v) = a.hwc_flow_temp_desired {
        text::lemma_decimal_digits(v as nat);
        assert(fields[3] == text::decimal(v as nat));
    }
    if let Some(w) = b.hwc_flow_temp_desired {
        text::lemma_decimal_digits(w as nat);
        assert(fields[3] == text::decimal(w as nat));
    }
    if let (Some(v), Some(w)) = (a.hwc_flow_temp_desired, b.hwc_flow_temp_desired) {
        text::law_decimal_tells_number(v as nat, w as nat);
    }
    assert("0"@[0] != "1"@[0]);
    assert(fields[5] == flag(a.disable_hc) && fields[5] == flag(b.disable_hc));
    assert(fields[7] == flag(a.disable_hwc_load) && fields[7] == flag(b.disable_hwc_load));
}

/// A change touches the flow temperature alone, and makes an inactive heater
/// active or an active one inactive.
pub proof fn law_change_toggles(
    settings: HeaterSettings,
    prefs: TemperaturePreferences,
    t: Temperature,
)
    ensures
        heating_change(settings, prefs, t) matches Some(next) ==> {
            &&& next == settings.with_flow(next.flow_temp_desired)
            &&& (next.flow_temp_desired == 0) != (settings.flow_temp_desired == 0)
            &&& next.flow_temp_desired == 0 || next.flow_temp_desired == ACTIVE_FLOW_TEMP
        },
{
}

/// Strictly between the bounds nothing changes, whether the heater is active
/// or not.
pub proof fn law_band_is_quiet(
    settings: HeaterSettings,
    prefs: TemperaturePreferences,
    t: Temperature,
)
    requires
        prefs.lower_bound.below_spec(t),
        t.below_spec(prefs.higher_bound),
    ensures
        heating_change(settings, prefs, t) is None,
{
}

/// What is no number changes nothing.
pub proof fn law_no_number_is_quiet(
    settings: HeaterSettings,
    prefs: TemperaturePreferences,
    t: Temperature,
)
    requires
        t.is_nan(),
    ensures
        heating_change(settings, prefs, t) is None,
{
}

/// Once changed, the settings stay at an unchanged temperature, provided that
/// the lower bound is below the higher one.
pub proof fn law_change_settles(
    settings: HeaterSettings,
    prefs: TemperaturePreferences,
    t: Temperature,
)
    requires
        prefs.lower_bound.below_spec(prefs.higher_bound),
    ensures
        heating_change(settings, prefs, t) matches Some(next) ==> heating_change(
            next,
            prefs,
            t,
        ) is None,
{
}

/// The modes have the names auto, heat and off, and are read from these alone; a
/// command asks for the first two by a zero.
pub proof fn law_mode_texts(name: Seq<char>)
    ensures
        HeaterMode::AUTO.name() == "auto"@,
        HeaterMode::HEAT.name() == "heat"@,
        HeaterMode::OFF.name() == "off"@,
        mode_named(name) == Some(HeaterMode::AUTO) <==> name == "auto"@,
        mode_named(name) == Some(HeaterMode::HEAT) <==> name == "heat"@,
        mode_named(name) == Some(HeaterMode::OFF) <==> name == "off"@,
        HeaterMode::AUTO.command_value() == "0"@,
        HeaterMode::HEAT.command_value() == "0"@,
        HeaterMode::OFF.command_value() == "off"@,
{
    law_mode_round_trip(HeaterMode::AUTO);
    law_mode_round_trip(HeaterMode::HEAT);
    law_mode_round_trip(HeaterMode::OFF);
    law_mode_names(name);
}

/// The twelve values of a command: the mode; the flow temperature and the tap
/// water temperature of these very settings; the flow temperature for tap water,
/// if there is one; the flags that switch off the heating circuit and the
/// loading of tap water; and what is always the same.
pub proof fn law_cmd_arg_values(settings: HeaterSettings)
    ensures
        ({
            let values = text::split_on(settings.cmd_arg(), ';');
            &&& values.len() == 12
            &&& settings.hc_mode is OFF ==> values[0] == "off"@
            &&& settings.hc_mode !is OFF ==> values[0] == "0"@
            &&& values[1] == text::decimal(settings.flow_temp_desired as nat)
            &&& values[2] == text::decimal(settings.hwc_temp_desired as nat)
            &&& settings.hwc_flow_temp_desired is None ==> values[3] == "-"@
            &&& settings.hwc_flow_temp_desired matches Some(v) ==> values[3] == text::decimal(
                v as nat,
            )
            &&& values[4] == "-"@
            &&& settings.disable_hc ==> values[5] == "1"@
            &&& !settings.disable_hc ==> values[5] == "0"@
            &&& values[6] == "0"@
            &&& settings.disable_hwc_load ==> values[7] == "1"@
            &&& !settings.disable_hwc_load ==> values[7] == "0"@
            &&& values[8] == "-"@
            &&& values[9] == "0"@
            &&& values[10] == "0"@
            &&& values[11] == "0"@
        }),
{
    law_cmd_arg_splits(settings);
}

/// A heater that was told nothing yet is automatic, inactive, without tap water,
/// and has nothing switched off.
pub proof fn law_default_settings(settings: HeaterSettings)
    ensures
        settings == default_settings() <==> {
            &&& settings.hc_mode is AUTO
            &&& settings.flow_temp_desired == 0
            &&& settings.hwc_temp_desired == 0
            &&& settings.hwc_flow_temp_desired is None
            &&& !settings.disable_hc
            &&& !settings.disable_hwc_load
        },
{
}

/// By default the room is kept between 19 and 23 degrees with a set point of 22
/// and a band of 1, a change is kept for a minute, and tap water has 45 degrees.
pub proof fn law_default_preferences(prefs: TemperaturePreferences)
    requires
        default_preferences(prefs),
    ensures
        !prefs.temperature_band.is_nan() && prefs.temperature_band.steps() == power2::pow2(149),
        !prefs.lower_bound.is_nan() && prefs.lower_bound.steps() == 19 * power2::pow2(149),
        !prefs.higher_bound.is_nan() && prefs.higher_bound.steps() == 23 * power2::pow2(149),
        !prefs.set_point.is_nan() && prefs.set_point.steps() == 22 * power2::pow2(149),
        prefs.maintain_state_for == 60_000_000_000,
        !prefs.tap_water_set_point.is_nan() && prefs.tap_water_set_point.steps() == 45
            * power2::pow2(149),
{
}

/// An inactive heater starts wherever the room is at the lower bound or below,
/// whatever its mode and its other settings are: it is asked for a flow of 60
/// degrees, and nothing else is changed.
pub proof fn law_heating_begins(
    settings: HeaterSettings,
    prefs: TemperaturePreferences,
    t: Temperature,
)
    requires
        settings.flow_temp_desired == 0,
        !t.is_nan(),
        !prefs.lower_bound.is_nan(),
        t.steps() <= prefs.lower_bound.steps(),
    ensures
        heating_change(settings, prefs, t) == Some(
            HeaterSettings { flow_temp_desired: 60, ..settings },
        ),
{
}

/// An active heater stops wherever the room is at the higher bound or above,
/// whatever its mode and its other settings are: it is asked for no flow, and
/// nothing else is changed.
pub proof fn law_heating_ends(
    settings: HeaterSettings,
    prefs: TemperaturePreferences,
    t: Temperature,
)
    requires
        settings.flow_temp_desired != 0,
        !t.is_nan(),
        !prefs.higher_bound.is_nan(),
        prefs.higher_bound.steps() <= t.steps(),
    ensures
        heating_change(settings, prefs, t) == Some(
            HeaterSettings { flow_temp_desired: 0, ..settings },
        ),
{
}

/// An inactive heater does not start above the lower bound, an active one does
/// not stop below the higher bound, and bounds that are no numbers are never
/// reached.
pub proof fn law_heating_stays(
    settings: HeaterSettings,
    prefs: TemperaturePreferences,
    t: Temperature,
)
    requires
        settings.flow_temp_desired == 0 ==> t.is_nan() || prefs.lower_bound.is_nan()
            || prefs.lower_bound.steps() < t.steps(),
        settings.flow_temp_desired != 0 ==> t.is_nan() || prefs.higher_bound.is_nan() || t.steps()
            < prefs.higher_bound.steps(),
    ensures
        heating_change(settings, prefs, t) is None,
{
}

/// Whether the heating changes, and to what, depends on the flow temperature and
/// the bounds alone: not on the mode, the tap water, the set point or the band.
pub proof fn law_change_depends(
    a: HeaterSettings,
    b: HeaterSettings,
    p: TemperaturePreferences,
    q: TemperaturePreferences,
    t: Temperature,
)
    requires
        a.flow_temp_desired == b.flow_temp_desired,
        p.lower_bound == q.lower_bound,
        p.higher_bound == q.higher_bound,
    ensures
        match (heating_change(a, p, t), heating_change(b, q, t)) {
            (Some(x), Some(y)) => x.flow_temp_desired == y.flow_temp_desired,
            (None, None) => true,
            (_, _) => false,
        },
{
}

/// A room that gets colder does not keep an inactive heater from starting, and
/// one that gets warmer does not keep an active heater from stopping.
pub proof fn law_change_is_monotone(
    settings: HeaterSettings,
    prefs: TemperaturePreferences,
    t: Temperature,
    u: Temperature,
)
    requires
        !u.is_nan(),
        settings.flow_temp_desired == 0 ==> u.steps() <= t.steps(),
        settings.flow_temp_desired != 0 ==> t.steps() <= u.steps(),
    ensures
        heating_change(settings, prefs, t) is Some ==> heating_change(settings, prefs, u)
            == heating_change(settings, prefs, t),
{
}

} // verus!
