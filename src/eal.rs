//! Environment bring-up: the handle that stands for an initialized runtime.
//!
//! The runtime here is in-process and runs on the calling thread, which is
//! its single logical core; that core is also the main one.
use vstd::prelude::*;
use vstd::string::*;
use crate::cstring::{any_contains_nul, any_has_nul};
use crate::error::Error;

verus! {

/// Largest number of Ethernet ports the environment can address.
pub const RTE_MAX_ETHPORTS: u32 = 32;

/// An initialized runtime environment.
#[derive(Debug)]
pub struct Eal {
    lcores: u32,
    main_lcore: u32,
    current_lcore: u32,
}

impl Eal {
    /// Number of logical cores that the environment runs on.
    pub closed spec fn lcores(&self) -> nat {
        self.lcores as nat
    }

    /// Identifier of the main logical core.
    pub closed spec fn main_lcore(&self) -> nat {
        self.main_lcore as nat
    }

    /// Identifier of the logical core that the caller runs on.
    pub closed spec fn current_lcore(&self) -> nat {
        self.current_lcore as nat
    }

    /// Initialize the environment from a command line.
    ///
    /// Every argument must be free of null characters; the flags themselves
    /// are not interpreted here. On success the environment runs on one
    /// logical core, numbered 0, which is both the main and the current one.
    pub fn init(args: Vec<&str>) -> (r: Result<Eal, Error>)
        ensures
            match r {
                Ok(eal) => {
                    &&& !any_has_nul(args@)
                    &&& eal.lcores() == 1
                    &&& eal.main_lcore() == 0
                    &&& eal.current_lcore() == 0
                },
                Err(e) => any_has_nul(args@) && e is InvalidArgument,
            },
    {
        if any_contains_nul(&args) {
            return Err(Error::InvalidArgument(String::from_str("Argument contains null byte")));
        }
        Ok(Eal { lcores: 1, main_lcore: 0, current_lcore: 0 })
    }

    /// Number of logical cores.
    pub fn lcore_count(&self) -> (r: u32)
        ensures
            r == self.lcores(),
    {
        self.lcores
    }

    /// Identifier of the current logical core.
    pub fn lcore_id(&self) -> (r: u32)
        ensures
            r == self.current_lcore(),
    {
        self.current_lcore
    }

    /// Identifier of the main logical core.
    pub fn get_main_lcore(&self) -> (r: u32)
        ensures
            r == self.main_lcore(),
    {
        self.main_lcore
    }
}

} // verus!
