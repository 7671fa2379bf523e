//! The package-manager adapter: resolving a configured manager name to the
//! command that lists its updates or installed packages, reducing a
//! captured output stream to a count by the line-counting protocol, and
//! summing the counts of several managers.
//!
//! Spawning the commands and streaming their output is the caller's
//! business; everything here is the decision logic around those streams.

use vstd::prelude::*;

use crate::config::ManagerSelection;

verus! {

/// A resolved package-manager command: the program to spawn, its
/// arguments, how many leading header lines of its output are not data
/// rows, and whether the count is a placeholder that stays at zero.
pub struct CommandSpec {
    pub program: String,
    pub args: Vec<String>,
    pub header_skip: u32,
    /// One manager's update listing has no proper command upstream; its
    /// count is reported as a constant zero rather than invented.
    pub stub: bool,
}

/// The manager names the adapter knows.
pub open spec fn known_manager(n: Seq<char>) -> bool {
    ||| n == "pacman"@
    ||| n == "apt"@
    ||| n == "xbps"@
    ||| n == "portage"@
    ||| n == "apk"@
    ||| n == "dnf"@
}

/// The program that lists pending updates for manager `n`.
pub open spec fn update_program(n: Seq<char>) -> Seq<char> {
    if n == "pacman"@ {
        "checkupdates"@
    } else if n == "apt"@ {
        "apt"@
    } else if n == "xbps"@ {
        "xbps-install"@
    } else if n == "portage"@ {
        "eix"@
    } else if n == "apk"@ {
        "apk"@
    } else {
        "dnf"@
    }
}

/// The arguments of the update-listing command for manager `n`.
pub open spec fn update_args(n: Seq<char>) -> Seq<Seq<char>> {
    if n == "pacman"@ {
        seq![]
    } else if n == "apt"@ {
        seq!["list"@, "-u"@]
    } else if n == "xbps"@ {
        seq!["-Sun"@]
    } else if n == "portage"@ {
        seq!["-u"@, "--format"@, "'<installedversions:nameversion>'"@]
    } else if n == "apk"@ {
        seq!["-u"@, "list"@]
    } else {
        seq!["check-update"@]
    }
}

/// The header lines to drop from the update listing of manager `n`.
pub open spec fn update_skip(n: Seq<char>) -> u32 {
    if n == "apt"@ {
        2
    } else if n == "dnf"@ {
        3
    } else {
        0
    }
}

/// The managers whose update count is the placeholder zero.
pub open spec fn update_stub(n: Seq<char>) -> bool {
    n == "portage"@
}

/// The program that lists installed packages for manager `n`.
pub open spec fn install_program(n: Seq<char>) -> Seq<char> {
    if n == "pacman"@ {
        "pacman"@
    } else if n == "apt"@ {
        "apt"@
    } else if n == "xbps"@ {
        "xbps-query"@
    } else if n == "portage"@ {
        "qlist"@
    } else if n == "apk"@ {
        "apk"@
    } else {
        "dnf"@
    }
}

/// The arguments of the installed-listing command for manager `n`.
pub open spec fn install_args(n: Seq<char>) -> Seq<Seq<char>> {
    if n == "pacman"@ {
        seq!["-Q"@]
    } else if n == "apt"@ {
        seq!["list"@, "-i"@]
    } else if n == "xbps"@ {
        seq!["-l"@]
    } else if n == "portage"@ {
        seq!["-I"@]
    } else if n == "apk"@ {
        seq!["info"@]
    } else {
        seq!["list"@, "installed"@]
    }
}

/// The header lines to drop from the installed listing of manager `n`.
pub open spec fn install_skip(n: Seq<char>) -> u32 {
    if n == "apt"@ {
        2
    } else {
        0
    }
}

/// An argument vector of at most three entries, empty slots passed as
/// `None`.
fn build_args(a0: Option<&str>, a1: Option<&str>, a2: Option<&str>) -> (r: Vec<String>)
    ensures
        r.deep_view() == opt_args(
            match a0 {
                Some(a) => Some(a@),
                None => None,
            },
            match a1 {
                Some(a) => Some(a@),
                None => None,
            },
            match a2 {
                Some(a) => Some(a@),
                None => None,
            },
        ),
{
    let mut args: Vec<String> = Vec::new();
    if let Some(a) = a0 {
        args.push(a.to_owned());
    }
    if let Some(a) = a1 {
        args.push(a.to_owned());
    }
    if let Some(a) = a2 {
        args.push(a.to_owned());
    }
    proof {
        assert(args.deep_view() =~= opt_args(
            match a0 {
                Some(a) => Some(a@),
                None => None,
            },
            match a1 {
                Some(a) => Some(a@),
                None => None,
            },
            match a2 {
                Some(a) => Some(a@),
                None => None,
            },
        ));
    }
    args
}

/// The sequence the slots of `build_args` describe.
pub open spec fn opt_args(
    a0: Option<Seq<char>>,
    a1: Option<Seq<char>>,
    a2: Option<Seq<char>>,
) -> Seq<Seq<char>> {
    opt_seq(a0) + opt_seq(a1) + opt_seq(a2)
}

/// One optional entry as a sequence.
pub open spec fn opt_seq(a: Option<Seq<char>>) -> Seq<Seq<char>> {
    match a {
        Some(s) => seq![s],
        None => seq![],
    }
}

/// The six manager names are pairwise distinct character sequences.
proof fn lemma_manager_name_facts()
    ensures
        "pacman"@.len() == 6,
        "apt"@.len() == 3,
        "xbps"@.len() == 4,
        "portage"@.len() == 7,
        "apk"@.len() == 3,
        "dnf"@.len() == 3,
        "apt"@ != "apk"@,
        "apt"@ != "dnf"@,
        "apk"@ != "dnf"@,
{
    reveal_strlit("pacman");
    reveal_strlit("apt");
    reveal_strlit("xbps");
    reveal_strlit("portage");
    reveal_strlit("apk");
    reveal_strlit("dnf");
    assert("apt"@ != "apk"@) by {
        reveal_strlit("apt");
        reveal_strlit("apk");
        assert("apt"@[2] != "apk"@[2]);
    }
    assert("apt"@ != "dnf"@) by {
        reveal_strlit("apt");
        reveal_strlit("dnf");
        assert("apt"@[0] != "dnf"@[0]);
    }
    assert("apk"@ != "dnf"@) by {
        reveal_strlit("apk");
        reveal_strlit("dnf");
        assert("apk"@[0] != "dnf"@[0]);
    }
}

/// Resolves a manager name to its update-listing command. An unknown name
/// has no command, and a switched-off update counter resolves nothing at
/// all, so no process is ever spawned for it.
pub fn check_update_command(enabled: bool, name: &str) -> (r: Option<CommandSpec>)
    ensures
        r is Some <==> enabled && known_manager(name@),
        r matches Some(c) ==> {
            &&& c.program@ == update_program(name@)
            &&& c.args.deep_view() == update_args(name@)
            &&& c.header_skip == update_skip(name@)
            &&& c.stub == update_stub(name@)
        },
{
    if !enabled {
        return None;
    }
    if crate::textops::str_eq(name, "pacman") {
        let c = CommandSpec {
            program: "checkupdates".to_owned(),
            args: build_args(None, None, None),
            header_skip: 0,
            stub: false,
        };
        proof {
            lemma_manager_name_facts();
            assert(c.args.deep_view() =~= update_args(name@));
            assert(c.header_skip == update_skip(name@));
            assert(c.stub == update_stub(name@));
        }
        Some(c)
    } else if crate::textops::str_eq(name, "apt") {
        let c = CommandSpec {
            program: "apt".to_owned(),
            args: build_args(Some("list"), Some("-u"), None),
            header_skip: 2,
            stub: false,
        };
        proof {
            lemma_manager_name_facts();
            assert(c.args.deep_view() =~= update_args(name@));
            assert(c.header_skip == update_skip(name@));
            assert(c.stub == update_stub(name@));
        }
        Some(c)
    } else if crate::textops::str_eq(name, "xbps") {
        let c = CommandSpec {
            program: "xbps-install".to_owned(),
            args: build_args(Some("-Sun"), None, None),
            header_skip: 0,
            stub: false,
        };
        proof {
            lemma_manager_name_facts();
            assert(c.args.deep_view() =~= update_args(name@));
            assert(c.header_skip == update_skip(name@));
            assert(c.stub == update_stub(name@));
        }
        Some(c)
    } else if crate::textops::str_eq(name, "portage") {
        let c = CommandSpec {
            program: "eix".to_owned(),
            args: build_args(Some("-u"), Some("--format"), Some("'<installedversions:nameversion>'")),
            header_skip: 0,
            stub: true,
        };
        proof {
            lemma_manager_name_facts();
            assert(c.args.deep_view() =~= update_args(name@));
            assert(c.header_skip == update_skip(name@));
            assert(c.stub == update_stub(name@));
        }
        Some(c)
    } else if crate::textops::str_eq(name, "apk") {
        let c = CommandSpec {
            program: "apk".to_owned(),
            args: build_args(Some("-u"), Some("list"), None),
            header_skip: 0,
            stub: false,
        };
        proof {
            lemma_manager_name_facts();
            assert(c.args.deep_view() =~= update_args(name@));
            assert(c.header_skip == update_skip(name@));
            assert(c.stub == update_stub(name@));
        }
        Some(c)
    } else if crate::textops::str_eq(name, "dnf") {
        let c = CommandSpec {
            program: "dnf".to_owned(),
            args: build_args(Some("check-update"), None, None),
            header_skip: 3,
            stub: false,
        };
        proof {
            lemma_manager_name_facts();
            assert(c.args.deep_view() =~= update_args(name@));
            assert(c.header_skip == update_skip(name@));
            assert(c.stub == update_stub(name@));
        }
        Some(c)
    } else {
        None
    }
}

/// Resolves a manager name to its installed-package listing command.
pub fn check_installed_command(enabled: bool, name: &str) -> (r: Option<CommandSpec>)
    ensures
        r is Some <==> enabled && known_manager(name@),
        r matches Some(c) ==> {
            &&& c.program@ == install_program(name@)
            &&& c.args.deep_view() == install_args(name@)
            &&& c.header_skip == install_skip(name@)
            &&& !c.stub
        },
{
    if !enabled {
        return None;
    }
    if crate::textops::str_eq(name, "pacman") {
        let c = CommandSpec {
            program: "pacman".to_owned(),
            args: build_args(Some("-Q"), None, None),
            header_skip: 0,
            stub: false,
        };
        proof {
            lemma_manager_name_facts();
            assert(c.args.deep_view() =~= install_args(name@));
        }
        Some(c)
    } else if crate::textops::str_eq(name, "apt") {
        let c = CommandSpec {
            program: "apt".to_owned(),
            args: build_args(Some("list"), Some("-i"), None),
            header_skip: 2,
            stub: false,
        };
        proof {
            lemma_manager_name_facts();
            assert(c.args.deep_view() =~= install_args(name@));
        }
        Some(c)
    } else if crate::textops::str_eq(name, "xbps") {
        let c = CommandSpec {
            program: "xbps-query".to_owned(),
            args: build_args(Some("-l"), None, None),
            header_skip: 0,
            stub: false,
        };
        proof {
            lemma_manager_name_facts();
            assert(c.args.deep_view() =~= install_args(name@));
        }
        Some(c)
    } else if crate::textops::str_eq(name, "portage") {
        let c = CommandSpec {
            program: "qlist".to_owned(),
            args: build_args(Some("-I"), None, None),
            header_skip: 0,
            stub: false,
        };
        proof {
            lemma_manager_name_facts();
            assert(c.args.deep_view() =~= install_args(name@));
        }
        Some(c)
    } else if crate::textops::str_eq(name, "apk") {
        let c = CommandSpec {
            program: "apk".to_owned(),
            args: build_args(Some("info"), None, None),
            header_skip: 0,
            stub: false,
        };
        proof {
            lemma_manager_name_facts();
            assert(c.args.deep_view() =~= install_args(name@));
        }
        Some(c)
    } else if crate::textops::str_eq(name, "dnf") {
        let c = CommandSpec {
            program: "dnf".to_owned(),
            args: build_args(Some("list"), Some("installed"), None),
            header_skip: 0,
            stub: false,
        };
        proof {
            lemma_manager_name_facts();
            assert(c.args.deep_view() =~= install_args(name@));
        }
        Some(c)
    } else {
        None
    }
}

/// A raw line total reduced by the manager's header lines, floored at
/// zero: the count is never negative, whatever the raw total and the skip.
pub fn count_lines(total: u32, skip: u32) -> (c: u32)
    ensures
        c == if total > skip {
            (total - skip) as int
        } else {
            0int
        },
        c <= total,
{
    if total > skip {
        total - skip
    } else {
        0
    }
}

/// The count one resolved command contributes, given the raw number of
/// lines its output stream produced: the placeholder manager contributes a
/// constant zero, every other one its header-skipped line count.
pub fn adapter_count(cmd: &CommandSpec, raw_lines: u32) -> (c: u32)
    ensures
        cmd.stub ==> c == 0,
        !cmd.stub ==> c == if raw_lines > cmd.header_skip {
            (raw_lines - cmd.header_skip) as int
        } else {
            0int
        },
{
    if cmd.stub {
        0
    } else {
        count_lines(raw_lines, cmd.header_skip)
    }
}

/// The sum of a list of per-manager counts, or nothing if any manager's
/// count is missing.
pub open spec fn total_of(counts: Seq<Option<u32>>) -> Option<int>
    decreases counts.len(),
{
    if counts.len() == 0 {
        Some(0)
    } else {
        match (total_of(counts.drop_last()), counts.last()) {
            (Some(t), Some(c)) => Some(t + c),
            _ => None,
        }
    }
}

/// A missing entry anywhere poisons the whole sum.
proof fn lemma_total_none(counts: Seq<Option<u32>>, i: int)
    requires
        0 <= i < counts.len(),
        counts[i] is None,
    ensures
        total_of(counts) is None,
    decreases counts.len(),
{
    if i < counts.len() - 1 {
        lemma_total_none(counts.drop_last(), i);
    }
}

/// The summed update (or package) total over several managers: the sum of
/// all the individual counts, or nothing as soon as any one of them
/// failed. The sum is exact; a `u64` holds any sum of `u32` counts from a
/// list this short.
pub fn sum_counts(counts: &Vec<Option<u32>>) -> (r: Option<u64>)
    requires
        counts@.len() <= 0xFFFF_FFFF,
    ensures
        r is None <==> total_of(counts.deep_view()) is None,
        r matches Some(t) ==> total_of(counts.deep_view()) == Some(t as int),
{
    let ghost cs = counts.deep_view();
    let mut acc: u64 = 0;
    let mut i: usize = 0;
    while i < counts.len()
        invariant
            i <= counts@.len() <= 0xFFFF_FFFF,
            cs == counts.deep_view(),
            cs.len() == counts@.len(),
            total_of(cs.take(i as int)) == Some(acc as int),
            acc <= i * 0xFFFF_FFFFu64,
        decreases counts@.len() - i,
    {
        let cur = counts[i];
        proof {
            assert(cs[i as int] == counts@[i as int].deep_view());
            assert(cs.take(i + 1).drop_last() =~= cs.take(i as int));
        }
        match cur {
            Some(c) => {
                proof {
                    assert((i + 1) * 0xFFFF_FFFFu64 == i * 0xFFFF_FFFFu64 + 0xFFFF_FFFFu64)
                        by (nonlinear_arith);
                }
                acc = acc + (c as u64);
            },
            None => {
                proof {
                    lemma_total_none(cs, i as int);
                }
                return None;
            },
        }
        i = i + 1;
    }
    proof {
        assert(cs.take(cs.len() as int) =~= cs);
    }
    Some(acc)
}

/// The update row's text for a summed update count: a freshness mark at
/// zero, singular at one, the plain count otherwise. The plain icon set
/// spells every count the same way, "1 updates" included.
pub open spec fn update_row_spec(icons: crate::config::IconKind, n: nat) -> Seq<char> {
    if icons is Emoji {
        if n == 0 {
            "\u{2705} Up to date"@
        } else if n == 1 {
            "\u{1F4E6} 1 update"@
        } else {
            "\u{1F4E6} "@ + crate::textops::dec_spec(n) + " updates"@
        }
    } else if icons is Normal {
        if n == 0 {
            "\u{2713} Up to date"@
        } else if n == 1 {
            "\u{2191} 1 update"@
        } else {
            "\u{2191} "@ + crate::textops::dec_spec(n) + " updates"@
        }
    } else {
        crate::textops::dec_spec(n) + " updates"@
    }
}

/// The update row: the summed update count dressed up for the configured
/// icon set, or nothing when no count could be taken.
pub fn count_updates(icons: &crate::config::IconKind, count: Option<u64>) -> (r: Option<String>)
    ensures
        count is None ==> r is None,
        count matches Some(n) ==> (r matches Some(s) && s@ == update_row_spec(*icons, n as nat)),
{
    let n = match count {
        Some(n) => n,
        None => {
            return None;
        },
    };
    match icons {
        crate::config::IconKind::Emoji => {
            if n == 0 {
                Some("\u{2705} Up to date".to_owned())
            } else if n == 1 {
                Some("\u{1F4E6} 1 update".to_owned())
            } else {
                let mut out: String = "\u{1F4E6} ".to_owned();
                let d = crate::textops::u64_dec(n);
                out.append(d.as_str());
                out.append(" updates");
                Some(out)
            }
        },
        crate::config::IconKind::Normal => {
            if n == 0 {
                Some("\u{2713} Up to date".to_owned())
            } else if n == 1 {
                Some("\u{2191} 1 update".to_owned())
            } else {
                let mut out: String = "\u{2191} ".to_owned();
                let d = crate::textops::u64_dec(n);
                out.append(d.as_str());
                out.append(" updates");
                Some(out)
            }
        },
        crate::config::IconKind::Plain => {
            let mut out = crate::textops::u64_dec(n);
            out.append(" updates");
            Some(out)
        },
    }
}

/// The installed-packages row: the summed package count and the word
/// "packages", or nothing when no count could be taken.
pub fn get_package_count(count: Option<u64>) -> (r: Option<String>)
    ensures
        count is None ==> r is None,
        count matches Some(n) ==> (r matches Some(s) && s@ == crate::textops::dec_spec(n as nat)
            + " packages"@),
{
    let n = match count {
        Some(n) => n,
        None => {
            return None;
        },
    };
    let mut out = crate::textops::u64_dec(n);
    out.append(" packages");
    Some(out)
}

/// The list of managers one aggregation pass will consult: nothing when no
/// manager is configured, the one configured name, or the configured list.
pub fn managers_of(sel: ManagerSelection) -> (r: Option<Vec<String>>)
    ensures
        sel is Unset <==> r is None,
        r matches Some(v) ==> match sel {
            ManagerSelection::Unset => false,
            ManagerSelection::One(s) => v.deep_view() == seq![s@],
            ManagerSelection::Many(l) => v.deep_view() == l.deep_view(),
        },
{
    match sel {
        ManagerSelection::Unset => None,
        ManagerSelection::One(s) => {
            let mut v: Vec<String> = Vec::new();
            v.push(s);
            proof {
                assert(v.deep_view() =~= seq![v@[0]@]);
            }
            Some(v)
        },
        ManagerSelection::Many(l) => Some(l),
    }
}

} // verus!
