//! Bidirectional motor control: a throttle biased around a zero level, running from `-100%` to
//! `100%`.

pub mod setting;

pub mod throttle;
