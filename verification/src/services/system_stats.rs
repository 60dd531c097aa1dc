//! The graphics providers of a host, and reading what their tools report.

use vstd::prelude::*;
use crate::services::discovery::traits::HostOs;
use crate::text::case::{lowercase, to_lowercase};
use crate::text::chars::{chars_eq_str, str_chars, string_from_chars, views};
use crate::text::compose::text_pair;
use crate::text::number::{parse_bounded, parse_unsigned};
use crate::text::search::{has_prefix, trim, trimmed};
use crate::text::split::{split_chars, split_on};

verus! {

#[derive(Debug, Clone, Copy, PartialEq, Eq, Structural)]
pub enum GpuProvider {
    Auto,
    Apple,
    Nvidia,
    Amd,
    NoGpu,
}

/// The provider that a name asks for, whatever its case.
pub open spec fn provider_named(name: Seq<char>) -> Option<GpuProvider> {
    provider_with_lower_name(lowercase(name))
}

/// The provider that a lower-case name asks for.
pub open spec fn provider_with_lower_name(lower: Seq<char>) -> Option<GpuProvider> {
    if lower == "auto"@ {
        Some(GpuProvider::Auto)
    } else if lower == "apple"@ {
        Some(GpuProvider::Apple)
    } else if lower == "nvidia"@ {
        Some(GpuProvider::Nvidia)
    } else if lower == "amd"@ {
        Some(GpuProvider::Amd)
    } else if lower == "none"@ {
        Some(GpuProvider::NoGpu)
    } else {
        None
    }
}

/// The provider of a host: Apple on macOS with Apple silicon; else Nvidia
/// where its tool runs; else AMD on Linux where its tool is installed; else
/// none.
pub open spec fn detected_provider(
    host: HostOs,
    apple_silicon: bool,
    nvidia_tool_runs: bool,
    amd_tool_installed: bool,
) -> GpuProvider {
    if host == HostOs::Macos && apple_silicon {
        GpuProvider::Apple
    } else if nvidia_tool_runs {
        GpuProvider::Nvidia
    } else if host == HostOs::Linux && amd_tool_installed {
        GpuProvider::Amd
    } else {
        GpuProvider::NoGpu
    }
}

/// The number of bytes of this many mebibytes, where it fits.
pub open spec fn mebibytes(text: Seq<char>) -> Option<u64> {
    match parse_unsigned(text, 0xffff_ffff) {
        Some(n) => Some((n * 1024 * 1024) as u64),
        None => None,
    }
}

impl GpuProvider {
    /// The provider with this name, if there is one.
    pub fn from_name(name: &str) -> (r: Option<GpuProvider>)
        ensures
            r == provider_named(name@),
    {
        GpuProvider::from_lower_name(to_lowercase(name).as_str())
    }

    /// The provider with this lower-case name, if there is one.
    pub fn from_lower_name(lower_name: &str) -> (r: Option<GpuProvider>)
        ensures
            r == provider_with_lower_name(lower_name@),
    {
        let lower = str_chars(lower_name);
        if chars_eq_str(&lower, "auto") {
            Some(GpuProvider::Auto)
        } else if chars_eq_str(&lower, "apple") {
            Some(GpuProvider::Apple)
        } else if chars_eq_str(&lower, "nvidia") {
            Some(GpuProvider::Nvidia)
        } else if chars_eq_str(&lower, "amd") {
            Some(GpuProvider::Amd)
        } else if chars_eq_str(&lower, "none") {
            Some(GpuProvider::NoGpu)
        } else {
            None
        }
    }

    /// The provider of a host, from what was found on it.
    pub fn detect(
        host: HostOs,
        apple_silicon: bool,
        nvidia_tool_runs: bool,
        amd_tool_installed: bool,
    ) -> (r: GpuProvider)
        ensures
            r == detected_provider(host, apple_silicon, nvidia_tool_runs, amd_tool_installed),
    {
        if host == HostOs::Macos && apple_silicon {
            GpuProvider::Apple
        } else if nvidia_tool_runs {
            GpuProvider::Nvidia
        } else if host == HostOs::Linux && amd_tool_installed {
            GpuProvider::Amd
        } else {
            GpuProvider::NoGpu
        }
    }

    /// The provider to use: the one asked for, or the detected one where
    /// the choice is left open.
    pub fn resolve(self, detected: GpuProvider) -> (r: GpuProvider)
        ensures
            r == if self == GpuProvider::Auto {
                detected
            } else {
                self
            },
    {
        if self == GpuProvider::Auto {
            detected
        } else {
            self
        }
    }

    /// Whether figures can be asked of this provider.
    pub fn reports_figures(&self) -> (r: bool)
        ensures
            r == (*self == GpuProvider::Apple || *self == GpuProvider::Nvidia || *self
                == GpuProvider::Amd),
    {
        match self {
            GpuProvider::Apple | GpuProvider::Nvidia | GpuProvider::Amd => true,
            GpuProvider::NoGpu | GpuProvider::Auto => false,
        }
    }
}

/// The message for a provider name that is not known.
pub fn unknown_provider_message(name: &str) -> (r: String)
    ensures
        r@ == "Unknown GPU provider: "@ + name@,
{
    text_pair("Unknown GPU provider: ", name)
}

/// The fields of one line that `nvidia-smi` prints in CSV form: name, load,
/// memory in use, memory in all, temperature, power. The memory figures are
/// in bytes; the other figures are left as the tool wrote them.
#[derive(Debug)]
pub struct NvidiaRow {
    pub name: String,
    pub usage: String,
    pub memory_used_bytes: Option<u64>,
    pub memory_total_bytes: Option<u64>,
    pub temperature: String,
    pub power: String,
}

pub ghost struct NvidiaRowView {
    pub name: Seq<char>,
    pub usage: Seq<char>,
    pub memory_used_bytes: Option<u64>,
    pub memory_total_bytes: Option<u64>,
    pub temperature: Seq<char>,
    pub power: Seq<char>,
}

impl View for NvidiaRow {
    type V = NvidiaRowView;

    open spec fn view(&self) -> NvidiaRowView {
        NvidiaRowView {
            name: self.name@,
            usage: self.usage@,
            memory_used_bytes: self.memory_used_bytes,
            memory_total_bytes: self.memory_total_bytes,
            temperature: self.temperature@,
            power: self.power@,
        }
    }
}

/// The row of a line: its fields between commas, without the white space
/// around them, where there are six at least.
pub open spec fn nvidia_row(line: Seq<char>) -> Option<NvidiaRowView> {
    let parts = split_on(line, ',');
    if parts.len() >= 6 {
        Some(
            NvidiaRowView {
                name: trimmed(parts[0]),
                usage: trimmed(parts[1]),
                memory_used_bytes: mebibytes(trimmed(parts[2])),
                memory_total_bytes: mebibytes(trimmed(parts[3])),
                temperature: trimmed(parts[4]),
                power: trimmed(parts[5]),
            },
        )
    } else {
        None
    }
}

/// What an optional row says.
pub open spec fn row_of(r: Option<NvidiaRow>) -> Option<NvidiaRowView> {
    match r {
        Some(row) => Some(row@),
        None => None,
    }
}

/// The number of bytes of the mebibytes that a field gives.
pub fn read_mebibytes(text: &Vec<char>) -> (r: Option<u64>)
    ensures
        r == mebibytes(text@),
{
    match parse_bounded(text, 0xffff_ffff) {
        Some(n) => {
            assert(n * 1024 * 1024 <= u64::MAX) by (nonlinear_arith)
                requires
                    n <= 0xffff_ffff,
            ;
            assert(n * 1024 <= 0xffff_ffff * 1024) by (nonlinear_arith)
                requires
                    n <= 0xffff_ffff,
            ;
            Some(n * 1024 * 1024)
        },
        None => None,
    }
}

/// Reads one line of the CSV that `nvidia-smi` prints.
pub fn read_nvidia_line(line: &str) -> (r: Option<NvidiaRow>)
    ensures
        row_of(r) == nvidia_row(line@),
{
    let parts = split_chars(&str_chars(line), ',');
    if parts.len() >= 6 {
        assert(views(parts@)[0] == parts[0]@);
        assert(views(parts@)[1] == parts[1]@);
        assert(views(parts@)[2] == parts[2]@);
        assert(views(parts@)[3] == parts[3]@);
        assert(views(parts@)[4] == parts[4]@);
        assert(views(parts@)[5] == parts[5]@);
        Some(
            NvidiaRow {
                name: string_from_chars(&trim(&parts[0])),
                usage: string_from_chars(&trim(&parts[1])),
                memory_used_bytes: read_mebibytes(&trim(&parts[2])),
                memory_total_bytes: read_mebibytes(&trim(&parts[3])),
                temperature: string_from_chars(&trim(&parts[4])),
                power: string_from_chars(&trim(&parts[5])),
            },
        )
    } else {
        None
    }
}

/// Whether a key of the AMD tool's report names a graphics card.
pub fn is_card_key(key: &str) -> (r: bool)
    ensures
        r == has_prefix(key@, "card"@),
{
    crate::text::compose::str_starts_with(key, "card")
}

/// The name under which an AMD card is shown.
pub fn amd_card_name(key: &str) -> (r: String)
    ensures
        r@ == "AMD GPU "@ + key@,
{
    text_pair("AMD GPU ", key)
}

} // verus!
