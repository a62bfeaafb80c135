//! What the thermostat is told when it is started.
use crate::heater::{self, TemperaturePreferences};
use crate::temperature::Temperature;
use vstd::prelude::*;

verus! {

/// Where Home Assistant answers the add-ons that it supervises.
pub const SUPERVISOR_ADDRESS: &'static str = "http://supervisor/core";

/// The options of the program.
#[derive(Debug, PartialEq, Eq)]
pub struct Options {
    pub ha_api_address: Option<String>,
    pub ha_ws_address: Option<String>,
    pub ha_api_token: Option<String>,
    pub ebusd_address: String,
    pub thermometer_entity: String,
    pub temperature_band: Temperature,
    pub tap_water_temp: u8,
    pub mqtt_host: String,
    pub mqtt_username: String,
    pub mqtt_password: String,
}

/// Where requests go, and where the event stream comes from.
#[derive(Debug, PartialEq, Eq)]
pub struct Addresses {
    pub api: String,
    pub ws: String,
}

impl Options {
    /// The address for requests: the one given, or the supervisor's.
    pub open spec fn api_address(&self) -> Seq<char> {
        match self.ha_api_address {
            Some(address) => address@,
            None => SUPERVISOR_ADDRESS@,
        }
    }

    /// The address of the event stream: the one given, or that for requests.
    pub open spec fn ws_address(&self) -> Seq<char> {
        match self.ha_ws_address {
            Some(address) => address@,
            None => self.api_address(),
        }
    }

    /// The two addresses of Home Assistant.
    pub fn addresses(&self) -> (addresses: Addresses)
        ensures
            addresses.api@ == self.api_address(),
            addresses.ws@ == self.ws_address(),
    {
        let api = match &self.ha_api_address {
            Some(address) => address.clone(),
            None => SUPERVISOR_ADDRESS.to_string(),
        };
        let ws = match &self.ha_ws_address {
            Some(address) => address.clone(),
            None => api.clone(),
        };
        Addresses { api, ws }
    }

    /// The token for Home Assistant: the one given, else the supervisor's.
    pub fn token(&self, supervisor_token: Option<String>) -> (token: Option<String>)
        ensures
            match (self.ha_api_token, supervisor_token, token) {
                (Some(own), _, Some(t)) => t@ == own@,
                (None, Some(supervisor), Some(t)) => t@ == supervisor@,
                (None, None, None) => true,
                (_, _, _) => false,
            },
    {
        match &self.ha_api_token {
            Some(own) => Some(own.clone()),
            None => supervisor_token,
        }
    }

    /// The preferences: the band and the tap water as given, the rest by
    /// default.
    pub fn preferences(&self) -> (prefs: TemperaturePreferences)
        ensures
            prefs.temperature_band == self.temperature_band,
            heater::is_degrees(prefs.tap_water_set_point, self.tap_water_temp),
            !prefs.tap_water_set_point.negative(),
            heater::is_degrees(prefs.lower_bound, 19),
            heater::is_degrees(prefs.higher_bound, 23),
            heater::is_degrees(prefs.set_point, 22),
            prefs.maintain_state_for == 60 * heater::SECOND,
    {
        TemperaturePreferences {
            tap_water_set_point: Temperature::from_degrees(self.tap_water_temp),
            temperature_band: self.temperature_band,
            ..TemperaturePreferences::default()
        }
    }
}

/// Requests go to the address given, or else to the supervisor; the event stream
/// comes from the address given for it, or else from where requests go.
pub proof fn law_addresses(options: Options)
    ensures
        options.ha_api_address matches Some(a) ==> options.api_address() == a@,
        options.ha_api_address is None ==> options.api_address() == "http://supervisor/core"@,
        options.ha_ws_address matches Some(w) ==> options.ws_address() == w@,
        options.ha_ws_address is None ==> options.ws_address() == options.api_address(),
{
}

} // verus!
