//! The configuration: the fixed ordered module sequence rendered on a
//! run. Built once, from the current user and device names; rendering
//! order is display order.
use vstd::prelude::*;

use vstd::string::StrSliceExecFns;
use crate::facts::devicename;
use crate::facts::or_unknown;
use crate::facts::username;
use crate::modules::Module;
use crate::modules::TitleOpts;

verus! {

/// The separator's length: one dash per character of the title line
/// "user@hostname", capped at the machine's limit.
pub open spec fn spec_sep_len(user_len: nat, host_len: nat) -> nat {
    if user_len + 1 + host_len <= usize::MAX {
        user_len + 1 + host_len
    } else {
        usize::MAX as nat
    }
}

/// The default module layout: title, separator, then the operating
/// system, kernel, long-form uptime, shell, memory, CPU and GPU lines,
/// in that order.
pub open spec fn spec_is_default_modules(ms: Seq<Module>, user: Seq<char>, host: Seq<char>) -> bool {
    &&& ms.len() == 9
    &&& (ms[0] matches Module::Title { opts } && opts.user@ == user && opts.hostname@ == host)
    &&& (ms[1] matches Module::Line { len } && len as nat == spec_sep_len(user.len(), host.len()))
    &&& ms[2] == Module::OS
    &&& ms[3] == Module::Kernel
    &&& (ms[4] matches Module::Uptime { short } && short == false)
    &&& ms[5] == Module::Shell
    &&& ms[6] == Module::Memory
    &&& ms[7] == Module::CPU
    &&& ms[8] == Module::GPU
}

/// The ordered module sequence shown on a run; immutable once built.
pub struct Config {
    pub modules: Vec<Module>,
}

impl Config {
    /// Builds the default layout for the given user and device names.
    pub fn new(user: String, hostname: String) -> (c: Config)
        ensures
            spec_is_default_modules(c.modules@, user@, hostname@),
    {
        let user_len = user.as_str().unicode_len();
        let host_len = hostname.as_str().unicode_len();
        let sep_len: usize = if user_len <= usize::MAX - 1 && host_len <= usize::MAX - 1
            - user_len {
            user_len + 1 + host_len
        } else {
            usize::MAX
        };
        let mut ms: Vec<Module> = Vec::new();
        ms.push(Module::Title { opts: TitleOpts { user, hostname } });
        ms.push(Module::Line { len: sep_len });
        ms.push(Module::OS);
        ms.push(Module::Kernel);
        ms.push(Module::Uptime { short: false });
        ms.push(Module::Shell);
        ms.push(Module::Memory);
        ms.push(Module::CPU);
        ms.push(Module::GPU);
        Config { modules: ms }
    }

    /// Builds the default configuration for the machine this runs on:
    /// the default layout, titled with the current user and device
    /// names, "unknown" standing in where a lookup fails.
    pub fn default() -> (c: Config)
        ensures
            exists|user: Seq<char>, host: Seq<char>|
                spec_is_default_modules(c.modules@, user, host),
    {
        let user = or_unknown(username());
        let hostname = or_unknown(devicename());
        let ghost u = user@;
        let ghost h = hostname@;
        let c = Config::new(user, hostname);
        proof {
            assert(spec_is_default_modules(c.modules@, u, h));
        }
        c
    }
}

} // verus!
