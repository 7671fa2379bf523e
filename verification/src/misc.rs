//! The clock, weather and now-playing providers.
//!
//! The callers read the wall clock, fetch the weather report and query the
//! media player; turning those raw values into display rows — clock
//! formats, ordinal dates, icon lookup, degree units, song truncation —
//! happens here.

use vstd::prelude::*;

use crate::config::Config;
use crate::config::IconKind;
use crate::system_info::trunc_cut;
use crate::system_info::trunc_limit;
use crate::system_info::trunc_cut_of;
use crate::system_info::trunc_limit_of;
use crate::textops::byte_count;
use crate::textops::byte_len;
use crate::textops::char_prefix;
use crate::textops::dec_spec;
use crate::textops::join_spec;
use crate::textops::join_strs;
use crate::textops::prefix_of;
use crate::textops::str_eq;
use crate::textops::trim_both_char;
use crate::textops::trim_both_spec;
use crate::textops::trim_end_char;
use crate::textops::trim_end_spec;
use crate::textops::u64_dec;

verus! {

/// A decimal rendering padded to two digits with a leading zero.
pub open spec fn pad2_spec(n: nat) -> Seq<char> {
    if n < 10 {
        "0"@ + dec_spec(n)
    } else {
        dec_spec(n)
    }
}

/// `n` rendered as two or more decimal digits.
fn pad2(n: u32) -> (r: String)
    ensures
        r@ == pad2_spec(n as nat),
{
    if n < 10 {
        let mut out: String = "0".to_owned();
        let d = u64_dec(n as u64);
        out.append(d.as_str());
        out
    } else {
        u64_dec(n as u64)
    }
}

/// A 12-hour clock reading: hour, minutes padded to two digits, and the
/// half of the day.
pub open spec fn time12_spec(hour: nat, minute: nat) -> Seq<char> {
    (if hour % 12 == 0 {
        dec_spec(12)
    } else {
        dec_spec(hour % 12)
    }) + ":"@ + pad2_spec(minute) + (if hour < 12 {
        " AM"@
    } else {
        " PM"@
    })
}

/// A 24-hour clock reading, both fields padded to two digits.
pub open spec fn time24_spec(hour: nat, minute: nat) -> Seq<char> {
    pad2_spec(hour) + ":"@ + pad2_spec(minute)
}

/// The clock reading the configured kind selects: a 12-hour or a 24-hour
/// clock, or the fixed text "off" for a kind the configuration spells
/// some other way.
pub open spec fn time_str_spec(kind: Seq<char>, hour: nat, minute: nat) -> Seq<char> {
    if kind == "12h"@ {
        time12_spec(hour, minute)
    } else if kind == "24h"@ {
        time24_spec(hour, minute)
    } else {
        "off"@
    }
}

/// The English month name, by month number.
pub open spec fn month_name_spec(month: u32) -> Seq<char> {
    if month == 1 {
        "January"@
    } else if month == 2 {
        "February"@
    } else if month == 3 {
        "March"@
    } else if month == 4 {
        "April"@
    } else if month == 5 {
        "May"@
    } else if month == 6 {
        "June"@
    } else if month == 7 {
        "July"@
    } else if month == 8 {
        "August"@
    } else if month == 9 {
        "September"@
    } else if month == 10 {
        "October"@
    } else if month == 11 {
        "November"@
    } else {
        "December"@
    }
}

/// The English month name for a month number.
pub fn month_name(month: u32) -> (r: String)
    requires
        1 <= month <= 12,
    ensures
        r@ == month_name_spec(month),
{
    let name: &str = if month == 1 {
        "January"
    } else if month == 2 {
        "February"
    } else if month == 3 {
        "March"
    } else if month == 4 {
        "April"
    } else if month == 5 {
        "May"
    } else if month == 6 {
        "June"
    } else if month == 7 {
        "July"
    } else if month == 8 {
        "August"
    } else if month == 9 {
        "September"
    } else if month == 10 {
        "October"
    } else if month == 11 {
        "November"
    } else {
        "December"
    };
    name.to_owned()
}

/// The ordinal suffix of a day of the month. Only the days 1, 2, 3, 21,
/// 22 and 23 take their irregular suffixes; the 31st keeps "th".
pub open spec fn day_suffix_spec(day: u32) -> Seq<char> {
    if day == 1 || day == 21 {
        "st"@
    } else if day == 2 || day == 22 {
        "nd"@
    } else if day == 3 || day == 23 {
        "rd"@
    } else {
        "th"@
    }
}

/// The date part of the clock row: month name, day and ordinal suffix.
pub open spec fn date_spec(month: u32, day: u32) -> Seq<char> {
    month_name_spec(month) + " "@ + dec_spec(day as nat) + day_suffix_spec(day)
}

/// The clock icon: an emoji clock face pointing at the hour, one fixed
/// dial glyph for the plain-glyph set, nothing otherwise.
pub open spec fn time_icon_spec(icons: IconKind, hour: u32) -> Seq<char> {
    if icons is Emoji {
        clock_face_spec(if hour >= 12 {
            (hour - 12) as u32
        } else {
            hour
        })
    } else if icons is Normal {
        "\u{25F7}"@
    } else {
        ""@
    }
}

/// The emoji clock face for an hour index between 0 (twelve o'clock) and
/// 11.
pub open spec fn clock_face_spec(idx: u32) -> Seq<char> {
    if idx == 0 {
        "\u{1F55B}"@
    } else if idx == 1 {
        "\u{1F550}"@
    } else if idx == 2 {
        "\u{1F551}"@
    } else if idx == 3 {
        "\u{1F552}"@
    } else if idx == 4 {
        "\u{1F553}"@
    } else if idx == 5 {
        "\u{1F554}"@
    } else if idx == 6 {
        "\u{1F555}"@
    } else if idx == 7 {
        "\u{1F556}"@
    } else if idx == 8 {
        "\u{1F557}"@
    } else if idx == 9 {
        "\u{1F558}"@
    } else if idx == 10 {
        "\u{1F559}"@
    } else {
        "\u{1F55A}"@
    }
}

/// The emoji clock face for an hour index.
fn clock_face(idx: u32) -> (r: &'static str)
    ensures
        r@ == clock_face_spec(idx),
{
    if idx == 0 {
        "\u{1F55B}"
    } else if idx == 1 {
        "\u{1F550}"
    } else if idx == 2 {
        "\u{1F551}"
    } else if idx == 3 {
        "\u{1F552}"
    } else if idx == 4 {
        "\u{1F553}"
    } else if idx == 5 {
        "\u{1F554}"
    } else if idx == 6 {
        "\u{1F555}"
    } else if idx == 7 {
        "\u{1F556}"
    } else if idx == 8 {
        "\u{1F557}"
    } else if idx == 9 {
        "\u{1F558}"
    } else if idx == 10 {
        "\u{1F559}"
    } else {
        "\u{1F55A}"
    }
}

/// The clock row's text for an icon set, a configured clock kind, and the
/// wall-clock fields.
pub open spec fn datetime_content_spec(
    icons: IconKind,
    kind: Seq<char>,
    hour: u32,
    minute: u32,
    day: u32,
    month: u32,
) -> Seq<char> {
    if icons is Plain {
        date_spec(month, day) + ", "@ + time_str_spec(kind, hour as nat, minute as nat)
    } else {
        time_icon_spec(icons, hour) + " "@ + date_spec(month, day) + ", "@ + time_str_spec(
            kind,
            hour as nat,
            minute as nat,
        )
    }
}

/// The clock row: an icon for the hour, the ordinal date, and the clock
/// reading in the configured format. Yields nothing when the row is
/// switched off or no clock kind is configured.
pub fn get_datetime(cfg: &Config, hour: u32, minute: u32, day: u32, month: u32) -> (r: Option<
    String,
>)
    requires
        hour < 24,
        minute < 60,
        1 <= day <= 31,
        1 <= month <= 12,
    ensures
        !cfg.time.enabled ==> r is None,
        cfg.time.enabled ==> (match cfg.time.kind {
            Some(k) => r matches Some(s) && s@ == datetime_content_spec(
                cfg.icons,
                k@,
                hour,
                minute,
                day,
                month,
            ),
            None => r is None,
        }),
{
    if !cfg.time.enabled {
        return None;
    }
    let kind = match &cfg.time.kind {
        Some(k) => k,
        None => {
            return None;
        },
    };
    let time: String = if str_eq(kind.as_str(), "12h") {
        let h12: u32 = if hour % 12 == 0 {
            12
        } else {
            hour % 12
        };
        let mut t = u64_dec(h12 as u64);
        t.append(":");
        let m = pad2(minute);
        t.append(m.as_str());
        t.append(if hour < 12 {
            " AM"
        } else {
            " PM"
        });
        t
    } else if str_eq(kind.as_str(), "24h") {
        let mut t = pad2(hour);
        t.append(":");
        let m = pad2(minute);
        t.append(m.as_str());
        t
    } else {
        "off".to_owned()
    };
    let date: String = {
        let mut d = month_name(month);
        d.append(" ");
        let dd = u64_dec(day as u64);
        d.append(dd.as_str());
        d.append(
            if day == 1 || day == 21 {
                "st"
            } else if day == 2 || day == 22 {
                "nd"
            } else if day == 3 || day == 23 {
                "rd"
            } else {
                "th"
            },
        );
        d
    };
    let mut out: String = String::new();
    match cfg.icons {
        IconKind::Plain => {},
        IconKind::Emoji => {
            let idx: u32 = if hour >= 12 {
                hour - 12
            } else {
                hour
            };
            out.append(clock_face(idx));
            out.append(" ");
        },
        IconKind::Normal => {
            out.append("\u{25F7}");
            out.append(" ");
        },
    }
    out.append(date.as_str());
    out.append(", ");
    out.append(time.as_str());
    proof {
        assert(out@ =~= datetime_content_spec(cfg.icons, kind@, hour, minute, day, month));
    }
    Some(out)
}

/// One weather observation, as the report hands it over: the condition's
/// icon code, its short description, and the temperature already rendered
/// as decimal text.
pub struct WeatherObs {
    pub icon: String,
    pub main: String,
    pub temp: String,
}

/// The emoji for a weather icon code, day and night variants apart.
pub open spec fn weather_icon_emoji(code: Seq<char>) -> Seq<char> {
    if code == "01d"@ {
        "\u{2600}\u{FE0F}"@
    } else if code == "01n"@ {
        "\u{1F319}"@
    } else if code == "02d"@ {
        "\u{1F324}\u{FE0F}"@
    } else if code == "02n"@ {
        "\u{2601}\u{FE0F}"@
    } else if code == "03d"@ {
        "\u{1F325}\u{FE0F}"@
    } else if code == "03n"@ {
        "\u{2601}\u{FE0F}"@
    } else if code == "04d"@ {
        "\u{2601}\u{FE0F}"@
    } else if code == "04n"@ {
        "\u{2601}\u{FE0F}"@
    } else if code == "09d"@ {
        "\u{1F327}\u{FE0F}"@
    } else if code == "09n"@ {
        "\u{1F327}\u{FE0F}"@
    } else if code == "10d"@ {
        "\u{1F326}\u{FE0F}"@
    } else if code == "10n"@ {
        "\u{1F327}\u{FE0F}"@
    } else if code == "11d"@ {
        "\u{26C8}\u{FE0F}"@
    } else if code == "11n"@ {
        "\u{26C8}\u{FE0F}"@
    } else if code == "13d"@ {
        "\u{2744}\u{FE0F}"@
    } else if code == "13n"@ {
        "\u{2744}\u{FE0F}"@
    } else if code == "40d"@ {
        "\u{1F32B}\u{FE0F}"@
    } else if code == "40n"@ {
        "\u{1F32B}\u{FE0F}"@
    } else if code == "50d"@ {
        "\u{1F32B}\u{FE0F}"@
    } else if code == "50n"@ {
        "\u{1F32B}\u{FE0F}"@
    } else {
        "\u{1F321}\u{FE0F}"@
    }
}

/// The plain glyph for a weather icon code, in the same order as the
/// emoji table.
pub open spec fn weather_icon_normal(code: Seq<char>) -> Seq<char> {
    if code == "01d"@ {
        "\u{2600}"@
    } else if code == "01n"@ {
        "\u{263D}"@
    } else if code == "02d"@ {
        "\u{26C5}"@
    } else if code == "02n"@ {
        "\u{2601}"@
    } else if code == "03d"@ {
        "\u{2601}"@
    } else if code == "03n"@ {
        "\u{2601}"@
    } else if code == "04d"@ {
        "\u{2601}"@
    } else if code == "04n"@ {
        "\u{2601}"@
    } else if code == "09d"@ {
        "\u{2614}"@
    } else if code == "09n"@ {
        "\u{2614}"@
    } else if code == "10d"@ {
        "\u{2602}"@
    } else if code == "10n"@ {
        "\u{2602}"@
    } else if code == "11d"@ {
        "\u{26A1}"@
    } else if code == "11n"@ {
        "\u{26A1}"@
    } else if code == "13d"@ {
        "\u{2744}"@
    } else if code == "13n"@ {
        "\u{2744}"@
    } else if code == "40d"@ {
        "\u{2248}"@
    } else if code == "40n"@ {
        "\u{2248}"@
    } else if code == "50d"@ {
        "\u{2248}"@
    } else if code == "50n"@ {
        "\u{2248}"@
    } else {
        "?"@
    }
}

/// The icon the weather row shows: by code for the two icon sets, nothing
/// for the plain set.
pub open spec fn weather_icon_spec(icons: IconKind, code: Seq<char>) -> Seq<char> {
    if icons is Emoji {
        weather_icon_emoji(code)
    } else if icons is Normal {
        weather_icon_normal(code)
    } else {
        ""@
    }
}

/// The degree letter the configured units call for: Fahrenheit for
/// imperial units (however quoted the configuration value arrived),
/// Celsius otherwise.
pub open spec fn deg_spec(units: Seq<char>) -> Seq<char> {
    if trim_both_spec(units, '"') == "imperial"@ {
        "F"@
    } else {
        "C"@
    }
}

/// The weather row's text: the icon, the short condition, the first two
/// characters of the temperature, and the degree letter.
pub open spec fn weather_content_spec(
    icons: IconKind,
    units: Seq<char>,
    code: Seq<char>,
    main: Seq<char>,
    temp: Seq<char>,
) -> Seq<char> {
    let body = main + " "@ + prefix_of(temp, 2) + "\u{B0}"@ + deg_spec(units);
    if icons is Plain {
        body
    } else {
        weather_icon_spec(icons, code) + " "@ + body
    }
}

/// The weather row. A provider missing its switch or any request field
/// yields nothing before any request is made; a failed fetch yields
/// nothing as well; a successful observation is rendered with the
/// configured icon set and units.
pub fn get_weather(cfg: &Config, fetched: Option<WeatherObs>) -> (r: Option<String>)
    ensures
        !cfg.weather_ready() ==> r is None,
        cfg.weather_ready() ==> (match fetched {
            Some(o) => r matches Some(s) && s@ == weather_content_spec(
                cfg.icons,
                cfg.weather.units->0@,
                o.icon@,
                o.main@,
                o.temp@,
            ),
            None => r is None,
        }),
{
    if !cfg.is_weather_ready() {
        return None;
    }
    let o = match fetched {
        Some(o) => o,
        None => {
            return None;
        },
    };
    let units = match &cfg.weather.units {
        Some(u) => u,
        None => {
            return None;
        },
    };
    let unquoted = trim_both_char(units.as_str(), '"');
    let deg: &str = if str_eq(unquoted.as_str(), "imperial") {
        "F"
    } else {
        "C"
    };
    let mut out = String::new();
    if !matches!(cfg.icons, IconKind::Plain) {
        let emoji = matches!(cfg.icons, IconKind::Emoji);
        let code = &o.icon;
        let icon: &str = if str_eq(code.as_str(), "01d") {
            if emoji {
                "\u{2600}\u{FE0F}"
            } else {
                "\u{2600}"
            }
        } else if str_eq(code.as_str(), "01n") {
            if emoji {
                "\u{1F319}"
            } else {
                "\u{263D}"
            }
        } else if str_eq(code.as_str(), "02d") {
            if emoji {
                "\u{1F324}\u{FE0F}"
            } else {
                "\u{26C5}"
            }
        } else if str_eq(code.as_str(), "02n") {
            if emoji {
                "\u{2601}\u{FE0F}"
            } else {
                "\u{2601}"
            }
        } else if str_eq(code.as_str(), "03d") {
            if emoji {
                "\u{1F325}\u{FE0F}"
            } else {
                "\u{2601}"
            }
        } else if str_eq(code.as_str(), "03n") {
            if emoji {
                "\u{2601}\u{FE0F}"
            } else {
                "\u{2601}"
            }
        } else if str_eq(code.as_str(), "04d") {
            if emoji {
                "\u{2601}\u{FE0F}"
            } else {
                "\u{2601}"
            }
        } else if str_eq(code.as_str(), "04n") {
            if emoji {
                "\u{2601}\u{FE0F}"
            } else {
                "\u{2601}"
            }
        } else if str_eq(code.as_str(), "09d") {
            if emoji {
                "\u{1F327}\u{FE0F}"
            } else {
                "\u{2614}"
            }
        } else if str_eq(code.as_str(), "09n") {
            if emoji {
                "\u{1F327}\u{FE0F}"
            } else {
                "\u{2614}"
            }
        } else if str_eq(code.as_str(), "10d") {
            if emoji {
                "\u{1F326}\u{FE0F}"
            } else {
                "\u{2602}"
            }
        } else if str_eq(code.as_str(), "10n") {
            if emoji {
                "\u{1F327}\u{FE0F}"
            } else {
                "\u{2602}"
            }
        } else if str_eq(code.as_str(), "11d") {
            if emoji {
                "\u{26C8}\u{FE0F}"
            } else {
                "\u{26A1}"
            }
        } else if str_eq(code.as_str(), "11n") {
            if emoji {
                "\u{26C8}\u{FE0F}"
            } else {
                "\u{26A1}"
            }
        } else if str_eq(code.as_str(), "13d") {
            if emoji {
                "\u{2744}\u{FE0F}"
            } else {
                "\u{2744}"
            }
        } else if str_eq(code.as_str(), "13n") {
            if emoji {
                "\u{2744}\u{FE0F}"
            } else {
                "\u{2744}"
            }
        } else if str_eq(code.as_str(), "40d") {
            if emoji {
                "\u{1F32B}\u{FE0F}"
            } else {
                "\u{2248}"
            }
        } else if str_eq(code.as_str(), "40n") {
            if emoji {
                "\u{1F32B}\u{FE0F}"
            } else {
                "\u{2248}"
            }
        } else if str_eq(code.as_str(), "50d") {
            if emoji {
                "\u{1F32B}\u{FE0F}"
            } else {
                "\u{2248}"
            }
        } else if str_eq(code.as_str(), "50n") {
            if emoji {
                "\u{1F32B}\u{FE0F}"
            } else {
                "\u{2248}"
            }
        } else {
            if emoji {
                "\u{1F321}\u{FE0F}"
            } else {
                "?"
            }
        };
        out.append(icon);
        out.append(" ");
    }
    out.append(o.main.as_str());
    out.append(" ");
    let t2 = char_prefix(o.temp.as_str(), 2);
    out.append(t2.as_str());
    out.append("\u{B0}");
    out.append(deg);
    proof {
        assert(out@ =~= weather_content_spec(cfg.icons, units@, o.icon@, o.main@, o.temp@));
    }
    Some(out)
}

/// The now-playing row's raw text: the artists joined with commas, a
/// dash, and the track title.
pub open spec fn songname_spec(artists: Seq<Seq<char>>, title: Seq<char>) -> Seq<char> {
    join_spec(artists, ", "@) + " - "@ + title
}

/// The now-playing row: "artists - title", truncated with an ellipsis
/// when over the byte limit, its trailing newlines removed otherwise.
/// Yields nothing when the row is switched off or the player reported no
/// artists or no title.
pub fn get_song(cfg: &Config, artists: Option<Vec<String>>, title: Option<String>) -> (r: Option<
    String,
>)
    ensures
        !cfg.song_enabled ==> r is None,
        cfg.song_enabled ==> (match (artists, title) {
            (Some(a), Some(t)) => {
                let full = songname_spec(a.deep_view(), t@);
                r matches Some(s) && s@ == (if byte_len(full) > trunc_limit(cfg.icons) {
                    prefix_of(full, trunc_cut(cfg.icons)) + "..."@
                } else {
                    trim_end_spec(full, '\n')
                })
            },
            _ => r is None,
        }),
{
    if !cfg.song_enabled {
        return None;
    }
    let a = match artists {
        Some(a) => a,
        None => {
            return None;
        },
    };
    let t = match title {
        Some(t) => t,
        None => {
            return None;
        },
    };
    let mut songname = join_strs(&a, ", ");
    songname.append(" - ");
    songname.append(t.as_str());
    if byte_count(songname.as_str()) > trunc_limit_of(&cfg.icons) {
        let mut out = char_prefix(songname.as_str(), trunc_cut_of(&cfg.icons));
        out.append("...");
        Some(out)
    } else {
        Some(trim_end_char(songname.as_str(), '\n'))
    }
}

} // verus!
