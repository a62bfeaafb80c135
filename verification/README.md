# ebus-thermostat

A thermostat for heaters on an eBUS. It reads the room temperature from Home
Assistant, asks the heater for heat through ebusd, and is steered and watched
over MQTT.

- `src/` is the library: what the thermostat decides, proved with Verus.
  - `control` holds the state and says how each event moves it on;
    `thermostat` carries that out.
  - `heater`, `ebusd` and `homeassistant` are the settings of the heater, the
    commands of the daemon, and the requests and events of Home Assistant.
  - `temperature` compares temperatures by their binary32 patterns; `text`
    takes texts apart and puts them together; `options` are what the program
    is started with.
  - `laws` states what holds of the thermostat as a whole, and `repetition`
    how far apart the commands to the heater lie over a whole run.
- `tests/` runs the library on concrete values.
- `app/` is the program: connections, clocks, JSON, and floating point.
