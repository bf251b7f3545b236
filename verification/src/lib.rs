//! Control core of a small two-wheeled robot: the motor command mapping
//! (signed speed to a pair of PWM duty values), the sensor decision
//! predicates, the event-arbitration loop body, and the network link's
//! retry state machine. Hardware access (PWM registers, ADC, GPIO edge
//! waits, the radio and TCP stack) lives outside this crate; the functions
//! here take plain sensor values and hand back plain commands.

pub mod arbitration;
pub mod link;
pub mod motors;
pub mod sensors;
