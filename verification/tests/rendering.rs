use crabfetch::color::CrabFetchColor;
use crabfetch::config::{
    resolve_bool, resolve_color, resolve_str, Configuration, ProcessesConfiguration,
    ShellConfiguration,
};
use crabfetch::processes::ProcessesInfo;
use crabfetch::shell::ShellInfo;
use crabfetch::style::{default_style, max_title_size};
use crabfetch::Module;
use crabfetch::ModuleError;

const RESET: &str = "\u{1b}[0m";

fn base_config() -> Configuration {
    Configuration {
        title_color: CrabFetchColor::Clear,
        title_bold: false,
        title_italic: false,
        seperator: ": ".to_string(),
        processes: ProcessesConfiguration {
            title: "Processes".to_string(),
            title_color: None,
            title_bold: None,
            title_italic: None,
            seperator: None,
            format: None,
        },
        shell: ShellConfiguration {
            title: "Shell".to_string(),
            title_color: None,
            title_bold: None,
            title_italic: None,
            seperator: None,
            format: "{shell}".to_string(),
            show_default_shell: false,
        },
    }
}

fn numeric_names(n: u32) -> Vec<String> {
    let mut v: Vec<String> = Vec::new();
    let mut i: u32 = 0;
    while i < n {
        v.push(i.to_string());
        i += 1;
    }
    v
}

#[test]
fn processes_text_pass_replaces_count() {
    let mut config = base_config();
    config.processes.format = Some("{count} procs".to_string());
    let info = ProcessesInfo::from_entry_names(&numeric_names(137));
    assert_eq!(info.count(), 137);
    assert_eq!(info.replace_placeholders(&config), "137 procs");
}

#[test]
fn processes_text_pass_literal_template_unchanged() {
    let mut config = base_config();
    config.processes.format = Some("no recognized tokens".to_string());
    let info = ProcessesInfo::from_entry_names(&numeric_names(3));
    assert_eq!(info.replace_placeholders(&config), "no recognized tokens");
}

#[test]
fn processes_end_to_end_line() {
    let config = base_config();
    let info = ProcessesInfo::from_entry_names(&numeric_names(250));
    let line = info.style(&config, 9);
    assert_eq!(line, format!("Processes{}: 250{}", RESET, RESET));
    assert_eq!(line.replace(RESET, ""), "Processes: 250");
}

#[test]
fn processes_counts_only_numeric_entries() {
    let names: Vec<String> = vec![
        "1".to_string(),
        "abc".to_string(),
        "23".to_string(),
        ".hidden".to_string(),
        "+9".to_string(),
        "self".to_string(),
    ];
    let info = ProcessesInfo::from_entry_names(&names);
    assert_eq!(info.count(), 3);
}

#[test]
fn shell_unknown_line_after_failed_collection() {
    let config = base_config();
    let err = ModuleError::new("Shell", "permission denied".to_string());
    assert_eq!(err.module_name(), "Shell");
    assert_eq!(err.message(), "permission denied");
    let line = ShellInfo::unknown_output(&config, 5);
    assert_eq!(line, format!("Shell{}: Unknown", RESET));
}

#[test]
fn unknown_line_aligns_with_styled_line() {
    let config = base_config();
    let info = ShellInfo::from_default_shell_path("/bin/bash");
    let styled = info.style(&config, 10);
    let unknown = ShellInfo::unknown_output(&config, 10);
    let prefix = format!("Shell     {}: ", RESET);
    assert!(styled.starts_with(&prefix));
    assert!(unknown.starts_with(&prefix));
    assert_eq!(&styled[prefix.len()..], &format!("bash{}", RESET));
    assert_eq!(&unknown[prefix.len()..], "Unknown");
}

#[test]
fn unknown_output_is_deterministic() {
    let config = base_config();
    let first = ProcessesInfo::unknown_output(&config, 9);
    let second = ProcessesInfo::unknown_output(&config, 9);
    assert_eq!(first, second);
}

#[test]
fn shell_template_with_both_tokens() {
    let mut config = base_config();
    config.shell.format = "{shell} ({path})".to_string();
    let info = ShellInfo::from_default_shell_path("/bin/bash");
    assert_eq!(info.shell_name(), "bash");
    assert_eq!(info.shell_path(), "/bin/bash");
    assert_eq!(info.replace_placeholders(&config), "bash (/bin/bash)");
}

#[test]
fn shell_from_exe_link_strips_trailing_nul() {
    let info = ShellInfo::from_exe_path("/usr/bin/zsh\0junk");
    assert_eq!(info.shell_path(), "/usr/bin/zsh");
    assert_eq!(info.shell_name(), "zsh");
}

#[test]
fn shell_name_without_directory() {
    let info = ShellInfo::from_default_shell_path("bash");
    assert_eq!(info.shell_path(), "bash");
    assert_eq!(info.shell_name(), "bash");
}

#[test]
fn shell_name_of_directory_path_is_empty() {
    let info = ShellInfo::from_default_shell_path("/bin/");
    assert_eq!(info.shell_path(), "/bin/");
    assert_eq!(info.shell_name(), "");
}

#[test]
fn bold_override_beats_global_default() {
    let mut config = base_config();
    config.processes.title_bold = Some(true);
    let line = ProcessesInfo::unknown_output(&config, 0);
    assert_eq!(line, format!("\u{1b}[1mProcesses{}: Unknown", RESET));
}

#[test]
fn bold_none_falls_back_to_global_default() {
    let config = base_config();
    let line = ProcessesInfo::unknown_output(&config, 0);
    assert_eq!(line, format!("Processes{}: Unknown", RESET));
}

#[test]
fn separator_override_is_used() {
    let mut config = base_config();
    config.shell.seperator = Some(" -> ".to_string());
    let line = ShellInfo::unknown_output(&config, 0);
    assert_eq!(line, format!("Shell{} -> Unknown", RESET));
}

#[test]
fn color_override_is_used() {
    let mut config = base_config();
    config.shell.title_color = Some(CrabFetchColor::BrightCyan);
    let line = ShellInfo::unknown_output(&config, 0);
    assert_eq!(line, format!("\u{1b}[96mShell{}: Unknown", RESET));
}

#[test]
fn default_style_pads_and_wraps_title() {
    let line = default_style(
        5,
        "AB",
        &CrabFetchColor::Red,
        true,
        true,
        "| ",
        "val",
    );
    assert_eq!(
        line,
        format!("\u{1b}[1m\u{1b}[3m\u{1b}[31mAB   {}| val", RESET)
    );
}

#[test]
fn default_style_zero_width_means_no_padding() {
    let line = default_style(0, "T", &CrabFetchColor::Clear, false, false, "", "v");
    assert_eq!(line, format!("T{}v", RESET));
}

#[test]
fn title_is_never_substituted() {
    let mut config = base_config();
    config.processes.title = "{count}".to_string();
    let line = ProcessesInfo::unknown_output(&config, 0);
    assert_eq!(line, format!("{{count}}{}: Unknown", RESET));
}

#[test]
fn color_token_in_template_is_expanded() {
    let mut config = base_config();
    config.processes.format = Some("{color-red}{count}".to_string());
    let info = ProcessesInfo::from_entry_names(&numeric_names(7));
    let line = info.style(&config, 0);
    assert_eq!(line, format!("Processes{}: \u{1b}[31m7{}", RESET, RESET));
}

#[test]
fn max_title_size_takes_longest() {
    let titles: Vec<String> = vec![
        "CPU".to_string(),
        "Memory".to_string(),
        "Processes".to_string(),
        "Shell".to_string(),
    ];
    assert_eq!(max_title_size(&titles), 9);
}

#[test]
fn max_title_size_of_nothing_is_zero() {
    let titles: Vec<String> = Vec::new();
    assert_eq!(max_title_size(&titles), 0);
}

#[test]
fn resolution_helpers_follow_the_fallback_rule() {
    assert!(resolve_bool(&Some(true), false));
    assert!(!resolve_bool(&None, false));
    assert_eq!(
        resolve_color(&Some(CrabFetchColor::Blue), &CrabFetchColor::Red),
        CrabFetchColor::Blue
    );
    assert_eq!(
        resolve_color(&None, &CrabFetchColor::Red),
        CrabFetchColor::Red
    );
    let over = Some("-".to_string());
    assert_eq!(resolve_str(&over, ": "), "-");
    assert_eq!(resolve_str(&None, ": "), ": ");
}

#[test]
fn blank_records_render_like_any_other() {
    let config = base_config();
    let shell: ShellInfo = Module::new();
    let line = shell.style(&config, 5);
    assert_eq!(line, format!("Shell{}: {}", RESET, RESET));
}
