//! Help and version banners, text helpers and command-line dispatch.

use habitodo::cli::{cli_command, CliCommand};
use habitodo::text::{strikethrough, trim};
use habitodo::{help_text, version_text, HELP_TEXT, VERSION_TEXT};

#[test]
fn test_help_text_content() {
    let help = help_text();
    assert!(help.contains("Habitodo 0.1.0"));
    assert!(help.contains("--help"));
    assert!(help.contains("--version"));
    assert!(help.contains("--verify"));
    assert!(help.contains("KEYBINDINGS:"));
    assert!(help.contains("Toggle metrics sidebar"));
    assert!(help.contains("Reorder habit up"));
}

#[test]
fn test_version_text_content() {
    assert_eq!(version_text(), "habitodo 0.1.0");
}

#[test]
fn banners_are_the_published_constants() {
    assert_eq!(help_text(), HELP_TEXT);
    assert_eq!(version_text(), VERSION_TEXT);
    assert!(help_text().starts_with("Habitodo 0.1.0\n"));
    assert!(help_text().ends_with("Confirm deletion (in delete dialog)"));
}

#[test]
fn test_strikethrough_formatting() {
    let input = "Meditate";
    let output = strikethrough(input);
    assert!(output.contains('\u{0336}'));
    let combining_count = output.chars().filter(|c| *c == '\u{0336}').count();
    assert_eq!(combining_count, input.chars().count());
}

#[test]
fn strikethrough_follows_every_character() {
    assert_eq!(strikethrough("ab"), "a\u{0336}b\u{0336}");
    assert_eq!(strikethrough(""), "");
    assert_eq!(strikethrough("é"), "é\u{0336}");
}

#[test]
fn trim_drops_leading_and_trailing_whitespace_only() {
    assert_eq!(trim("  Morning Run \t\n"), "Morning Run");
    assert_eq!(trim("   "), "");
    assert_eq!(trim(""), "");
    assert_eq!(trim("a b"), "a b");
    assert_eq!(trim("\u{3000}x\u{a0}"), "x");
    assert_eq!(trim(trim("  y  ")), "y");
}

#[test]
fn cli_arguments_select_the_command() {
    assert_eq!(cli_command(None), CliCommand::RunGui);
    assert_eq!(cli_command(Some("-h")), CliCommand::ShowHelp);
    assert_eq!(cli_command(Some("--help")), CliCommand::ShowHelp);
    assert_eq!(cli_command(Some("-V")), CliCommand::ShowVersion);
    assert_eq!(cli_command(Some("--version")), CliCommand::ShowVersion);
    assert_eq!(cli_command(Some("--verify")), CliCommand::Verify);
    assert_eq!(cli_command(Some("-v")), CliCommand::Unrecognized);
    assert_eq!(cli_command(Some("--helps")), CliCommand::Unrecognized);
    assert_eq!(cli_command(Some("")), CliCommand::Unrecognized);
}
