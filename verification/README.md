# ms_air_filter

The logic of an air-filter system, verified with Verus: a controller decides
from presence and air-quality sensors what the fan should do, and sends an
`ExternalCommand` to a fan unit, whose run logic turns commands and timeouts
into fan speeds and relay switching, and whose network side keeps a session
with the MQTT broker.

- `src/protocol.rs`: the commands exchanged between controller and fan unit.
- `src/sensor.rs`, `src/presence.rs`, `src/air_quality.rs`: sensor readings.
- `src/control_logic.rs`, `src/zone.rs`: the controller's decisions.
- `src/client_id.rs`: the controller's MQTT client identifier.
- `src/run_logic.rs`, `src/fan.rs`: the fan unit's state machine and relay plans.
- `src/session.rs`: the fan unit's MQTT session and network link, step by step.
- `app/`: MQTT, configuration, JSON, floating-point parsing, and the fan
  unit's run-logic, fan, session and link tasks around the library. The
  board support of the fan unit (pins, WiFi chip, watchdog, temperature
  probe, executor start-up) is not here: the tasks take what they need from
  it as arguments.
