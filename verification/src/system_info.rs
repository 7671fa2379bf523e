//! The host-facts providers: OS release, kernel version, memory and disk
//! figures, and the desktop environment.
//!
//! Reading `/etc/os-release`, the kernel version, the mount table and the
//! environment variables is the caller's business; the trimming,
//! truncation and assembly of the display rows is all here.

use vstd::prelude::*;

use crate::config::Config;
use crate::config::IconKind;
use crate::textops::byte_count;
use crate::textops::byte_len;
use crate::textops::char_prefix;
use crate::textops::prefix_of;
use crate::textops::trim_both_char;
use crate::textops::trim_both_spec;
use crate::textops::trim_end_char;
use crate::textops::trim_end_spec;

verus! {

/// The byte-length limit above which a row's raw text is truncated: an
/// emoji icon occupies one more cell, leaving one byte less room.
pub open spec fn trunc_limit(icons: IconKind) -> nat {
    if icons is Emoji {
        41
    } else {
        42
    }
}

/// The character count a truncated row is cut to before its ellipsis.
pub open spec fn trunc_cut(icons: IconKind) -> nat {
    if icons is Emoji {
        37
    } else {
        38
    }
}

/// The byte-length limit for this icon set.
pub(crate) fn trunc_limit_of(icons: &IconKind) -> (r: usize)
    ensures
        r == trunc_limit(*icons),
{
    if matches!(icons, IconKind::Emoji) {
        41
    } else {
        42
    }
}

/// The cut length for this icon set.
pub(crate) fn trunc_cut_of(icons: &IconKind) -> (r: usize)
    ensures
        r == trunc_cut(*icons),
{
    if matches!(icons, IconKind::Emoji) {
        37
    } else {
        38
    }
}

/// The OS release row: the distribution's pretty name, stripped of its
/// quotes and trailing newline, truncated with an ellipsis when its raw
/// text is over the byte limit. Yields nothing when the row is switched
/// off or the release name could not be read.
pub fn get_release_blocking(cfg: &Config, pretty_name: Option<String>) -> (r: Option<String>)
    ensures
        !cfg.system.release_enabled ==> r is None,
        cfg.system.release_enabled ==> (match pretty_name {
            Some(rel) => r matches Some(s) && s@ == (if byte_len(rel@) > trunc_limit(cfg.icons) {
                prefix_of(trim_both_spec(rel@, '"'), trunc_cut(cfg.icons)) + "..."@
            } else {
                trim_end_spec(trim_end_spec(trim_both_spec(rel@, '"'), '\n'), '"')
            }),
            None => r is None,
        }),
{
    if !cfg.system.release_enabled {
        return None;
    }
    match pretty_name {
        Some(rel) => {
            let unquoted = trim_both_char(rel.as_str(), '"');
            if byte_count(rel.as_str()) > trunc_limit_of(&cfg.icons) {
                let mut out = char_prefix(unquoted.as_str(), trunc_cut_of(&cfg.icons));
                out.append("...");
                Some(out)
            } else {
                let no_newline = trim_end_char(unquoted.as_str(), '\n');
                Some(trim_end_char(no_newline.as_str(), '"'))
            }
        },
        None => None,
    }
}

/// The kernel row: the kernel version, its trailing newline removed,
/// truncated with an ellipsis when over the byte limit. Yields nothing
/// when switched off or unavailable.
pub fn get_kernel_blocking(cfg: &Config, version: Option<String>) -> (r: Option<String>)
    ensures
        !cfg.system.kernel_enabled ==> r is None,
        cfg.system.kernel_enabled ==> (match version {
            Some(v) => r matches Some(s) && s@ == (if byte_len(v@) > trunc_limit(cfg.icons) {
                prefix_of(v@, trunc_cut(cfg.icons)) + "..."@
            } else {
                trim_end_spec(v@, '\n')
            }),
            None => r is None,
        }),
{
    if !cfg.system.kernel_enabled {
        return None;
    }
    match version {
        Some(v) => {
            if byte_count(v.as_str()) > trunc_limit_of(&cfg.icons) {
                let mut out = char_prefix(v.as_str(), trunc_cut_of(&cfg.icons));
                out.append("...");
                Some(out)
            } else {
                Some(trim_end_char(v.as_str(), '\n'))
            }
        },
        None => None,
    }
}

/// The memory the host is using: total minus free, floored at zero.
pub fn used_memory_bytes(total: u64, free: u64) -> (r: u64)
    ensures
        r == if total >= free {
            (total - free) as int
        } else {
            0int
        },
{
    if total >= free {
        total - free
    } else {
        0
    }
}

/// The memory row: the human-readable used figure, marked "Used". Yields
/// nothing when switched off.
pub fn get_memory(cfg: &Config, used_human: String) -> (r: Option<String>)
    ensures
        !cfg.system.mem_usage_enabled ==> r is None,
        cfg.system.mem_usage_enabled ==> (r matches Some(s) && s@ == used_human@ + " Used"@),
{
    if !cfg.system.mem_usage_enabled {
        return None;
    }
    let mut out = used_human;
    out.append(" Used");
    Some(out)
}

/// The disk row: the human-readable free figure of the root mount, marked
/// "Free". Yields nothing when switched off.
pub fn get_disk_usage(cfg: &Config, free_human: String) -> (r: Option<String>)
    ensures
        !cfg.system.disk_usage_enabled ==> r is None,
        cfg.system.disk_usage_enabled ==> (r matches Some(s) && s@ == free_human@ + " Free"@),
{
    if !cfg.system.disk_usage_enabled {
        return None;
    }
    let mut out = free_human;
    out.append(" Free");
    Some(out)
}

/// The desktop-environment row: the current desktop if the environment
/// names one, else the session desktop, else an empty row. Yields nothing
/// only when switched off.
pub fn get_environment(cfg: &Config, current: Option<String>, session: Option<String>) -> (r:
    Option<String>)
    ensures
        !cfg.system.desktop_env_enabled ==> r is None,
        cfg.system.desktop_env_enabled ==> (match (current, session) {
            (Some(c), _) => r matches Some(s) && s@ == c@,
            (None, Some(se)) => r matches Some(s) && s@ == se@,
            (None, None) => r matches Some(s) && s@ == Seq::<char>::empty(),
        }),
{
    if !cfg.system.desktop_env_enabled {
        return None;
    }
    match current {
        Some(c) => Some(c),
        None => {
            match session {
                Some(se) => Some(se),
                None => {
                    let out = String::new();
                    Some(out)
                },
            }
        },
    }
}

} // verus!
