//! Real-time core of an alarm clock: when to sound an alarm, and how to render
//! it as a square wave on one digital output line.
//!
//! The detection loop samples the wall clock ([`clock`]), lets the schedule
//! evaluator decide ([`schedule`], [`detection`]), looks after the network
//! link and the time source ([`health`]), and hands alarm commands
//! ([`command`]) over the command channel ([`channel`]) to the tone actuator
//! ([`actuator`]), which plays them as patterns ([`pattern`]) of tones
//! ([`tone`]).
//!
//! Nothing here touches a pin, a clock or a network. Each component that
//! has outside work to do is a state machine: it names the next operation
//! ([`output`]), the program around the library carries it out and reports
//! how it ended. What the components do over whole runs is stated and proved
//! in [`history`] and [`ideal`].

pub mod actuator;
pub mod channel;
pub mod clock;
pub mod command;
pub mod config;
pub mod credentials;
pub mod detection;
pub mod health;
pub mod history;
pub mod ideal;
pub mod output;
pub mod pattern;
pub mod schedule;
pub mod tone;
