# be-strom

Verified core of a small metering setup: a BE-Strom three-phase meter is read
over Modbus/TCP and its snapshots are published over MQTT; a simulated room
sensor publishes temperature and humidity; two dashboards show what arrives.

- `src/` — the library, verified with Verus:
  - `registers`: the meter's register layout, splitting register words into
    bytes, decoding the device identifier, assigning measurement registers to
    quantities;
  - `text`: payload bytes to UTF-8 text;
  - `decimal`: decimal text of numbers;
  - `settings`: broker host/port/name settings and their defaults, including
    reading a port number from text;
  - `device_dashboard`, `sensor_dashboard`: the dashboards' state, how each MQTT
    link event changes it and what the link does next, and the texts shown;
  - `data_source`: the MQTT data source handle.
- `app/` — the programs around it (Modbus and MQTT I/O, JSON, the egui
  windows, floating-point scaling and the sensor's random walk). The first
  argument picks `meter-publisher`, `sensor-publisher`, `meter-dashboard` or
  `sensor-dashboard`.
- `tests/` — tests of the library.
