//! Building blocks for the firmware of the units of a home automation: the
//! state machines and the arithmetic, apart from the pins that they work on.
//!
//! The heart of it are three state machines that are fed what was read and
//! how much time has passed, and return what is to be done:
//!
//! - [`ir`] receives the frames of an infrared remote control,
//! - [`floor_heating`] supervises a floor-heating loop,
//! - [`ac_switch`] reads a wall switch on the mains.
//!
//! Beside them stand the meter of [`ac_sense`], the lamp of
//! [`light_control`] and the shutter of [`roll`], the values that they share
//! in [`temperature`] and [`timing`], and what the drivers of display,
//! converter, status light and bus need to know in [`display`], [`dac`],
//! [`rgb`] and [`messenger`].

pub mod ac_sense;
pub mod ac_switch;
pub mod dac;
pub mod display;
pub mod floor_heating;
pub mod floor_unit;
pub mod ir;
pub mod ir_remote;
pub mod light_control;
pub mod messenger;
pub mod pump;
pub mod rgb;
pub mod roll;
pub mod temperature;
pub mod ticker;
pub mod timing;
pub mod valve;
