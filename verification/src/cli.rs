//! The command line of the device tool, and the decisions it takes before
//! it talks to a device.

use vstd::prelude::*;

verus! {

/// How much the tool logs.
#[derive(Clone, Copy, Debug, PartialEq, Eq, Structural)]
pub enum LevelFilter {
    /// Nothing.
    Off,
    /// Errors only.
    Error,
    /// Warnings and errors.
    Warn,
    /// Information, warnings and errors.
    Info,
    /// Debug output too.
    Debug,
    /// Everything.
    Trace,
}

/// What the tool is asked to do.
#[derive(Clone, Debug, PartialEq)]
pub enum Commands {
    /// List available devices.
    List,
    /// Fetch device information.
    Info,
    /// Set the pin for a connected device.
    SetPin,
    /// A subcommand of a coin application, with its arguments.
    External(Vec<String>),
}

/// The tool's arguments.
#[derive(Clone, Debug, PartialEq)]
pub struct Args {
    /// The command to run.
    pub command: Commands,
    /// Device index (where multiple devices are available).
    index: usize,
    /// Use debug enabled devices.
    trezor_debug: bool,
    /// Application log level.
    pub log_level: LevelFilter,
}

/// Which device a command runs on, given how many were found.
#[derive(Clone, Copy, Debug, PartialEq, Eq, Structural)]
pub enum DeviceChoice {
    /// No device was found.
    NoDevices,
    /// The index names no device that was found.
    IndexOutOfRange,
    /// The device at this index.
    Use(usize),
}

impl Commands {
    /// Whether the command needs a connected device: all but `List` do.
    pub fn needs_device(&self) -> (r: bool)
        ensures
            r == !(*self is List),
    {
        match self {
            Commands::List => false,
            _ => true,
        }
    }
}

impl Args {
    /// The command to run.
    pub closed spec fn spec_command(&self) -> Commands {
        self.command
    }

    /// The log level.
    pub closed spec fn spec_log_level(&self) -> LevelFilter {
        self.log_level
    }

    /// The index of the device to use.
    pub closed spec fn spec_index(&self) -> usize {
        self.index
    }

    /// Whether debug-enabled devices are looked for.
    pub closed spec fn spec_trezor_debug(&self) -> bool {
        self.trezor_debug
    }

    /// Arguments from their parts.
    pub fn new(command: Commands, index: usize, trezor_debug: bool, log_level: LevelFilter) -> (r:
        Args)
        ensures
            r.spec_command() == command,
            r.spec_index() == index,
            r.spec_trezor_debug() == trezor_debug,
            r.spec_log_level() == log_level,
    {
        Args { command, index, trezor_debug, log_level }
    }

    /// The index of the device to use.
    pub fn index(&self) -> (r: usize)
        ensures
            r == self.spec_index(),
    {
        self.index
    }

    /// Whether debug-enabled devices are looked for.
    pub fn trezor_debug(&self) -> (r: bool)
        ensures
            r == self.spec_trezor_debug(),
    {
        self.trezor_debug
    }

    /// The device to run on among `count` found devices: none if none was
    /// found, none if the index is past the last, else the indexed one.
    pub fn choose_device(&self, count: usize) -> (r: DeviceChoice)
        ensures
            count == 0 ==> r == DeviceChoice::NoDevices,
            count > 0 && self.spec_index() >= count ==> r == DeviceChoice::IndexOutOfRange,
            count > 0 && self.spec_index() < count ==> r == DeviceChoice::Use(self.spec_index()),
    {
        if count == 0 {
            DeviceChoice::NoDevices
        } else if self.index >= count {
            DeviceChoice::IndexOutOfRange
        } else {
            DeviceChoice::Use(self.index)
        }
    }
}

} // verus!
