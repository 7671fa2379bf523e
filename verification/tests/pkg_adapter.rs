//! The package-manager adapter: command lookup, line counting, summing.

use draconis::config::IconKind;
use draconis::config::ManagerSelection;
use draconis::pkgs::adapter_count;
use draconis::pkgs::check_installed_command;
use draconis::pkgs::check_update_command;
use draconis::pkgs::count_lines;
use draconis::pkgs::count_updates;
use draconis::pkgs::get_package_count;
use draconis::pkgs::managers_of;
use draconis::pkgs::sum_counts;

#[test]
fn count_is_raw_lines_minus_header_skip() {
    // Seven raw lines with a two-line header yield five records.
    assert_eq!(count_lines(7, 2), 5);
}

#[test]
fn count_is_floored_at_zero() {
    assert_eq!(count_lines(2, 7), 0);
    assert_eq!(count_lines(0, 0), 0);
    assert_eq!(count_lines(0, 3), 0);
    assert_eq!(count_lines(5, 5), 0);
}

#[test]
fn two_managers_with_three_and_five_updates_sum_to_eight() {
    // Two ordinary managers: one reports three updates, one five; the
    // aggregate is eight.
    let first = check_update_command(true, "pacman").unwrap();
    let second = check_update_command(true, "apt").unwrap();
    let a = adapter_count(&first, 3);
    let b = adapter_count(&second, 5 + 2); // apt's listing has a 2-line header
    assert_eq!(a, 3);
    assert_eq!(b, 5);
    let total = sum_counts(&vec![Some(a), Some(b)]);
    assert_eq!(total, Some(8));
}

#[test]
fn one_failing_manager_poisons_the_whole_sum() {
    assert_eq!(sum_counts(&vec![Some(3), None, Some(5)]), None);
}

#[test]
fn empty_manager_list_sums_to_zero() {
    assert_eq!(sum_counts(&vec![]), Some(0));
}

#[test]
fn unknown_manager_name_has_no_command() {
    assert!(check_update_command(true, "nix").is_none());
    assert!(check_installed_command(true, "brew").is_none());
}

#[test]
fn disabled_counter_resolves_no_command_at_all() {
    assert!(check_update_command(false, "pacman").is_none());
    assert!(check_installed_command(false, "apt").is_none());
}

#[test]
fn update_commands_match_the_managers() {
    let c = check_update_command(true, "apt").unwrap();
    assert_eq!(c.program, "apt");
    assert_eq!(c.args, vec!["list".to_string(), "-u".to_string()]);
    assert_eq!(c.header_skip, 2);
    assert!(!c.stub);

    let c = check_update_command(true, "pacman").unwrap();
    assert_eq!(c.program, "checkupdates");
    assert!(c.args.is_empty());
    assert_eq!(c.header_skip, 0);

    let c = check_update_command(true, "dnf").unwrap();
    assert_eq!(c.program, "dnf");
    assert_eq!(c.args, vec!["check-update".to_string()]);
    assert_eq!(c.header_skip, 3);
}

#[test]
fn installed_commands_match_the_managers() {
    let c = check_installed_command(true, "pacman").unwrap();
    assert_eq!(c.program, "pacman");
    assert_eq!(c.args, vec!["-Q".to_string()]);

    let c = check_installed_command(true, "portage").unwrap();
    assert_eq!(c.program, "qlist");
    assert!(!c.stub);

    let c = check_installed_command(true, "dnf").unwrap();
    assert_eq!(c.args, vec!["list".to_string(), "installed".to_string()]);
    assert_eq!(c.header_skip, 0);
}

#[test]
fn placeholder_manager_update_count_stays_zero() {
    // One manager's update listing is a placeholder upstream: whatever its
    // stream produced, its count is zero.
    let c = check_update_command(true, "portage").unwrap();
    assert!(c.stub);
    assert_eq!(adapter_count(&c, 100), 0);
}

#[test]
fn managers_of_unset_selection_is_nothing() {
    assert!(managers_of(ManagerSelection::Unset).is_none());
}

#[test]
fn managers_of_single_and_list_selections() {
    assert_eq!(
        managers_of(ManagerSelection::One("apt".to_string())),
        Some(vec!["apt".to_string()])
    );
    assert_eq!(
        managers_of(ManagerSelection::Many(vec!["apt".to_string(), "dnf".to_string()])),
        Some(vec!["apt".to_string(), "dnf".to_string()])
    );
}

#[test]
fn update_row_texts_follow_the_icon_set_and_count() {
    assert_eq!(count_updates(&IconKind::Plain, Some(0)).unwrap(), "0 updates");
    assert_eq!(count_updates(&IconKind::Plain, Some(1)).unwrap(), "1 updates");
    assert_eq!(count_updates(&IconKind::Plain, Some(7)).unwrap(), "7 updates");
    assert_eq!(
        count_updates(&IconKind::Emoji, Some(0)).unwrap(),
        "\u{2705} Up to date"
    );
    assert_eq!(
        count_updates(&IconKind::Emoji, Some(1)).unwrap(),
        "\u{1F4E6} 1 update"
    );
    assert_eq!(
        count_updates(&IconKind::Emoji, Some(12)).unwrap(),
        "\u{1F4E6} 12 updates"
    );
    assert_eq!(
        count_updates(&IconKind::Normal, Some(1)).unwrap(),
        "\u{2191} 1 update"
    );
    assert_eq!(count_updates(&IconKind::Plain, None), None);
}

#[test]
fn package_count_row_spells_out_the_count() {
    assert_eq!(get_package_count(Some(1234)).unwrap(), "1234 packages");
    assert_eq!(get_package_count(Some(0)).unwrap(), "0 packages");
    assert_eq!(get_package_count(None), None);
}
