//! The information modules: a closed set of variants, each rendering
//! itself to one colourised line from the gathered facts. The variant
//! set is matched exhaustively; reserved variants render to a literal
//! placeholder.
use vstd::prelude::*;

use crate::duration::format_time;
use crate::duration::spec_format_time;
use crate::facts::Facts;
use crate::memory::format_memory;
use crate::memory::spec_format_memory;
use crate::palette::BRIGHT_BLUE;
use crate::palette::BRIGHT_GREEN;
use crate::palette::BRIGHT_PURPLE;
use crate::palette::BRIGHT_RED;
use crate::palette::YELLOW;
use crate::text::dashes;
use crate::text::paint;
use crate::text::spec_paint;
use crate::text::spec_repeat;

verus! {

/// The title line's parameters: who, at which machine.
pub struct TitleOpts {
    pub user: String,
    pub hostname: String,
}

/// One information or decoration item, carrying only what it needs to
/// render itself. The trailing variants are reserved and render to a
/// placeholder.
#[allow(non_camel_case_types)]
pub enum Module {
    Title { opts: TitleOpts },
    Line { len: usize },
    OS,
    Kernel,
    Uptime { short: bool },
    Shell,
    Memory,
    CPU,
    GPU,
    CPU_Usage,
    Disk,
    Battery,
    Font,
    Song,
    Local_IP,
    Public_IP,
    Birthday,
}

/// A labelled line in the default module style: the label painted
/// bright red, a separating colon, the value painted bright purple.
pub open spec fn spec_color_module(subtitle: Seq<char>, info: Seq<char>) -> Seq<char> {
    spec_paint(BRIGHT_RED as nat, subtitle) + ": "@ + spec_paint(BRIGHT_PURPLE as nat, info)
}

/// Renders a labelled line in the default module style and colours.
pub fn color_module(subtitle: &str, info: &str) -> (r: String)
    ensures
        r@ == spec_color_module(subtitle@, info@),
{
    let mut r = paint(BRIGHT_RED, subtitle);
    r.append(": ");
    let i = paint(BRIGHT_PURPLE, info);
    r.append(i.as_str());
    proof {
        assert(r@ =~= spec_color_module(subtitle@, info@));
    }
    r
}

impl Module {
    /// The line this module renders to, from the given facts: the title
    /// as user, at-sign and hostname in their three colours; the
    /// separator as a run of dashes; each information module as a
    /// labelled line; a reserved variant as the placeholder.
    pub open spec fn spec_display(self, facts: Facts) -> Seq<char> {
        match self {
            Module::Title { opts } => spec_paint(BRIGHT_BLUE as nat, opts.user@) + spec_paint(
                YELLOW as nat,
                "@"@,
            ) + spec_paint(BRIGHT_GREEN as nat, opts.hostname@),
            Module::Line { len } => spec_repeat('-', len as nat),
            Module::OS => spec_color_module("OS"@, facts.os@),
            Module::Kernel => spec_color_module("Kernel"@, facts.kernel@),
            Module::Uptime { short } => spec_color_module(
                "Uptime"@,
                spec_format_time(facts.uptime_seconds, short),
            ),
            Module::Shell => spec_color_module("Shell"@, facts.shell@),
            Module::Memory => spec_color_module(
                "Memory"@,
                spec_format_memory(facts.used_memory, facts.total_memory),
            ),
            Module::CPU => spec_color_module("CPU"@, facts.cpu@),
            Module::GPU => spec_color_module("GPU"@, facts.gpu@),
            _ => "Not implemented"@,
        }
    }

    /// Renders this module to its one colourised line.
    pub fn display(&self, facts: &Facts) -> (r: String)
        ensures
            r@ == self.spec_display(*facts),
    {
        match self {
            Module::Title { opts } => {
                let mut r = paint(BRIGHT_BLUE, opts.user.as_str());
                let at = paint(YELLOW, "@");
                r.append(at.as_str());
                let host = paint(BRIGHT_GREEN, opts.hostname.as_str());
                r.append(host.as_str());
                proof {
                    assert(r@ =~= self.spec_display(*facts));
                }
                r
            },
            Module::Line { len } => dashes(*len),
            Module::OS => color_module("OS", facts.os.as_str()),
            Module::Kernel => color_module("Kernel", facts.kernel.as_str()),
            Module::Uptime { short } => {
                let t = format_time(facts.uptime_seconds, *short);
                color_module("Uptime", t.as_str())
            },
            Module::Shell => color_module("Shell", facts.shell.as_str()),
            Module::Memory => {
                let m = format_memory(facts.used_memory, facts.total_memory);
                color_module("Memory", m.as_str())
            },
            Module::CPU => color_module("CPU", facts.cpu.as_str()),
            Module::GPU => color_module("GPU", facts.gpu.as_str()),
            _ => String::from_str("Not implemented"),
        }
    }
}

} // verus!
