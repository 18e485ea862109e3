# yakka

The verified core of a quadcopter flight-control stack, and the programs around it.

- `src/` is the library, proved with Verus: the bit-level register model (`bit`, `register`),
  fixed-point numbers (`fixpoint`), normal numbers, ratios and units (`number`, `unit`, `time`),
  the register files, configurations and data decoding of the BMI160 and LSM6DS3 inertial
  measurement units (`imu`), motor throttles and the quadcopter layout (`motor`,
  `signed_motor`), control-system state (`control`), protocol packets (`protocol`), logging
  types (`log`), powerplant timing (`drone`) and the remote controller's editable terminal state
  (`remote`).
- `app/` is ordinary Rust: the remote controller program, the asynchronous device drivers that
  move the register values the library computes over an I2C bus, the PWM motor driver, the
  floating-point conversions and control cycle, the wire encoding of packets, and the firmware's
  subsystem and logging interfaces.
- `tests/` exercises the library on concrete values.
