use vstd::prelude::*;
use vstd::string::StringSliceAdditionalSpecFns;

use crate::cstring::{has_null, spec_c_string, to_c_string};
use crate::error::Error;

verus! {

/// Where the engine runs its inference.
#[derive(Debug, Clone, Copy, PartialEq, Eq, Structural)]
pub enum AccelerationMode {
    Auto,
    Cpu,
    Gpu,
}

/// The integer with which the engine's C interface encodes each mode.
pub open spec fn spec_mode_code(m: AccelerationMode) -> int {
    match m {
        AccelerationMode::Auto => 0,
        AccelerationMode::Cpu => 1,
        AccelerationMode::Gpu => 2,
    }
}

impl AccelerationMode {
    /// The integer with which the engine's C interface encodes this mode.
    pub fn raw(&self) -> (r: i32)
        ensures
            r as int == spec_mode_code(*self),
    {
        match self {
            AccelerationMode::Auto => 0,
            AccelerationMode::Cpu => 1,
            AccelerationMode::Gpu => 2,
        }
    }
}

/// Options of one synthesis.
#[derive(Debug, Clone, Copy, PartialEq, Eq, Structural)]
pub struct TtsOptions {
    /// The text is written in AquesTalk-style kana.
    pub kana: bool,
    /// Questions end with a rising tone.
    pub enable_interrogative_upspeak: bool,
}

impl Default for TtsOptions {
    fn default() -> (r: TtsOptions)
        ensures
            !r.kana,
            !r.enable_interrogative_upspeak,
    {
        TtsOptions { kana: false, enable_interrogative_upspeak: false }
    }
}

/// Options of the engine's initialization, in the values that its C interface
/// takes: the mode's integer, the thread count, the flag, and the dictionary
/// directory as the bytes of a null-terminated C string.
#[derive(Debug, Clone)]
pub struct InitOptions {
    acceleration_mode: i32,
    cpu_num_threads: u16,
    load_all_models: bool,
    open_jtalk_dict_dir: Vec<u8>,
}

impl InitOptions {
    pub closed spec fn spec_acceleration_mode(&self) -> int {
        self.acceleration_mode as int
    }

    pub closed spec fn spec_cpu_num_threads(&self) -> u16 {
        self.cpu_num_threads
    }

    pub closed spec fn spec_load_all_models(&self) -> bool {
        self.load_all_models
    }

    pub closed spec fn spec_dict_dir(&self) -> Seq<u8> {
        self.open_jtalk_dict_dir@
    }

    /// Builds the options for a dictionary directory that has already been
    /// resolved to `dict_dir`. Fails when that path holds a null byte.
    pub fn new(
        acceleration_mode: AccelerationMode,
        cpu_num_threads: u16,
        load_all_models: bool,
        dict_dir: &str,
    ) -> (r: Result<InitOptions, Error>)
        ensures
            r is Ok <==> !has_null(dict_dir.spec_bytes()),
            r matches Ok(o) ==> {
                &&& o.spec_acceleration_mode() == spec_mode_code(acceleration_mode)
                &&& o.spec_cpu_num_threads() == cpu_num_threads
                &&& o.spec_load_all_models() == load_all_models
                &&& o.spec_dict_dir() == spec_c_string(dict_dir.spec_bytes())
            },
            r matches Err(e) ==> e is PathResolutionError,
    {
        match to_c_string(dict_dir) {
            Some(dir) => Ok(InitOptions {
                acceleration_mode: acceleration_mode.raw(),
                cpu_num_threads,
                load_all_models,
                open_jtalk_dict_dir: dir,
            }),
            None => Err(Error::PathResolutionError(String::from_str(dict_dir))),
        }
    }

    /// The mode's integer in the engine's encoding.
    pub fn acceleration_mode(&self) -> (r: i32)
        ensures
            r as int == self.spec_acceleration_mode(),
    {
        self.acceleration_mode
    }

    /// The number of CPU threads that the engine may use.
    pub fn cpu_num_threads(&self) -> (r: u16)
        ensures
            r == self.spec_cpu_num_threads(),
    {
        self.cpu_num_threads
    }

    /// Whether the engine loads every model while it initializes.
    pub fn load_all_models(&self) -> (r: bool)
        ensures
            r == self.spec_load_all_models(),
    {
        self.load_all_models
    }

    /// The dictionary directory, null-terminated.
    pub fn open_jtalk_dict_dir(&self) -> (r: &Vec<u8>)
        ensures
            r@ == self.spec_dict_dir(),
    {
        &self.open_jtalk_dict_dir
    }
}

} // verus!
