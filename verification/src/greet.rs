//! The header and greeting providers: who the host is and a salutation
//! picked by the hour of day.
//!
//! Fetching the machine's hostname, the account name and the clock is the
//! caller's business; the decisions about what to display are all here.

use vstd::prelude::*;

use crate::config::Config;
use crate::config::IconKind;

verus! {

/// The salutation for an hour of day under an icon set: morning from 6,
/// afternoon from 12, evening from 18, night from 23 until 6.
pub open spec fn greet_phrase(icons: IconKind, hour: u32) -> Seq<char> {
    if icons is Emoji {
        if 6 <= hour <= 11 {
            "\u{1F305} Good morning"@
        } else if 12 <= hour <= 17 {
            "\u{1F31E} Good afternoon"@
        } else if 18 <= hour <= 22 {
            "\u{1F307} Good evening"@
        } else {
            "\u{1F319} Good night"@
        }
    } else if icons is Normal {
        if 6 <= hour <= 11 {
            "\u{263C} Good morning"@
        } else if 12 <= hour <= 17 {
            "\u{2600} Good afternoon"@
        } else if 18 <= hour <= 22 {
            "\u{263E} Good evening"@
        } else {
            "\u{263D} Good night"@
        }
    } else {
        if 6 <= hour <= 11 {
            "Good morning"@
        } else if 12 <= hour <= 17 {
            "Good afternoon"@
        } else if 18 <= hour <= 22 {
            "Good evening"@
        } else {
            "Good night"@
        }
    }
}

/// The greeting row: a salutation for the hour, a comma, and the name the
/// configuration picked — or the account's real name when it picked none.
/// A disabled greeting yields nothing and asks for nothing.
pub fn greeting(cfg: &Config, hour: u32, real_name: &str) -> (r: Option<String>)
    requires
        hour < 24,
    ensures
        !cfg.greeting_enabled ==> r is None,
        cfg.greeting_enabled ==> (r matches Some(s) && s@ == greet_phrase(cfg.icons, hour)
            + ", "@ + match cfg.name {
            Some(n) => n@,
            None => real_name@,
        }),
{
    if !cfg.greeting_enabled {
        return None;
    }
    let phrase: &str = match cfg.icons {
        IconKind::Emoji => {
            if 6 <= hour && hour <= 11 {
                "\u{1F305} Good morning"
            } else if 12 <= hour && hour <= 17 {
                "\u{1F31E} Good afternoon"
            } else if 18 <= hour && hour <= 22 {
                "\u{1F307} Good evening"
            } else {
                "\u{1F319} Good night"
            }
        },
        IconKind::Normal => {
            if 6 <= hour && hour <= 11 {
                "\u{263C} Good morning"
            } else if 12 <= hour && hour <= 17 {
                "\u{2600} Good afternoon"
            } else if 18 <= hour && hour <= 22 {
                "\u{263E} Good evening"
            } else {
                "\u{263D} Good night"
            }
        },
        IconKind::Plain => {
            if 6 <= hour && hour <= 11 {
                "Good morning"
            } else if 12 <= hour && hour <= 17 {
                "Good afternoon"
            } else if 18 <= hour && hour <= 22 {
                "Good evening"
            } else {
                "Good night"
            }
        },
    };
    let mut out = phrase.to_owned();
    out.append(", ");
    match &cfg.name {
        Some(n) => {
            out.append(n.as_str());
        },
        None => {
            out.append(real_name);
        },
    }
    Some(out)
}

/// The header's identity: the configured hostname override when there is
/// one, else `user@host` from the live account and host names. Without a
/// host name there is no header identity at all.
pub fn get_hostname(cfg: &Config, user: &str, host: Option<String>) -> (r: Option<String>)
    ensures
        cfg.hostname matches Some(h) ==> (r matches Some(s) && s@ == h@),
        cfg.hostname is None ==> (match host {
            Some(hn) => r matches Some(s) && s@ == user@ + "@"@ + hn@,
            None => r is None,
        }),
{
    match &cfg.hostname {
        Some(h) => Some(h.clone()),
        None => {
            match host {
                Some(hn) => {
                    let mut out = user.to_owned();
                    out.append("@");
                    out.append(hn.as_str());
                    Some(out)
                },
                None => None,
            }
        },
    }
}

} // verus!
