use mdx::completions::{
    bash_source_line, choose_ps_profile, detect_shell, install_bash, install_fish, install_powershell,
    install_target, install_zsh, line_addition, parse_shell, powershell_paths,
    render_completions, shell_from_name, zsh_compinit_line, zshrc_addition, Shell,
};

fn command() -> clap::Command {
    clap::Command::new("mdx")
        .subcommand(clap::Command::new("update"))
        .subcommand(clap::Command::new("completions").arg(clap::Arg::new("shell")))
}

#[test]
fn names_of_shells() {
    assert_eq!(shell_from_name("bash"), Some(Shell::Bash));
    assert_eq!(shell_from_name("zsh"), Some(Shell::Zsh));
    assert_eq!(shell_from_name("fish"), Some(Shell::Fish));
    assert_eq!(shell_from_name("powershell"), Some(Shell::PowerShell));
    assert_eq!(shell_from_name("pwsh"), Some(Shell::PowerShell));
    assert_eq!(shell_from_name("tcsh"), None);
}

#[test]
fn parse_shell_ignores_case() {
    assert_eq!(parse_shell("BASH"), Ok(Shell::Bash));
    assert_eq!(parse_shell("Zsh"), Ok(Shell::Zsh));
    assert_eq!(parse_shell("PwSh"), Ok(Shell::PowerShell));
    assert_eq!(parse_shell("PowerShell"), Ok(Shell::PowerShell));
}

#[test]
fn parse_shell_refuses_unknown() {
    assert_eq!(
        parse_shell("Tcsh"),
        Err("Unknown shell: Tcsh. Supported: bash, zsh, fish, powershell".to_string())
    );
}

#[test]
fn install_target_is_exact() {
    assert_eq!(install_target("fish"), Ok(Shell::Fish));
    assert_eq!(install_target("pwsh"), Ok(Shell::PowerShell));
    assert_eq!(
        install_target("Bash"),
        Err("Unsupported shell: Bash. Supported: bash, zsh, fish, powershell".to_string())
    );
}

#[test]
fn detect_shell_from_variable() {
    assert_eq!(detect_shell(false, Some("/usr/bin/zsh")), Ok("zsh".to_string()));
    assert_eq!(detect_shell(true, None), Ok("powershell".to_string()));
    assert_eq!(
        detect_shell(false, None),
        Err("Could not detect shell: $SHELL is not set".to_string())
    );
    assert_eq!(
        detect_shell(false, Some("/")),
        Err("Could not parse shell name from $SHELL".to_string())
    );
}

#[test]
fn detected_shell_leads_to_install_target() {
    let shell = detect_shell(false, Some("/bin/bash")).unwrap();
    assert_eq!(install_target(&shell), Ok(Shell::Bash));
}

#[test]
fn line_added_to_empty_file() {
    assert_eq!(line_addition("", "x=1"), Some("x=1\n".to_string()));
}

#[test]
fn line_added_after_unterminated_line() {
    assert_eq!(line_addition("a=2", "x=1"), Some("\nx=1\n".to_string()));
}

#[test]
fn line_added_after_terminated_line() {
    assert_eq!(line_addition("a=2\n", "x=1"), Some("x=1\n".to_string()));
}

#[test]
fn line_not_added_twice() {
    assert_eq!(line_addition("a=2\nx=1\n", "x=1"), None);
    let mut contents = String::from("export A=1");
    let addition = line_addition(&contents, "source ~/x").unwrap();
    contents.push_str(&addition);
    assert_eq!(contents, "export A=1\nsource ~/x\n");
    assert_eq!(line_addition(&contents, "source ~/x"), None);
}

#[test]
fn compinit_needed_only_when_absent() {
    assert_eq!(zsh_compinit_line(), "autoload -Uz compinit && compinit");
}

#[test]
fn bash_install_locations() {
    let mut cmd = command();
    let plan = install_bash("/home/ann", false, &mut cmd);
    assert_eq!(plan.dir, "/home/ann/.local/share/bash-completion/completions");
    assert_eq!(plan.file, "/home/ann/.local/share/bash-completion/completions/mdx");
    let (rc, line) = plan.rc_line.unwrap();
    assert_eq!(rc, "/home/ann/.bash_profile");
    assert_eq!(line, bash_source_line());
    assert!(String::from_utf8(plan.script).unwrap().contains("mdx"));
}

#[test]
fn zsh_install_locations() {
    let mut cmd = command();
    let plan = install_zsh("/home/ann", &mut cmd);
    assert_eq!(plan.dir, "/home/ann/.local/share/zsh/site-functions");
    assert_eq!(plan.file, "/home/ann/.local/share/zsh/site-functions/_mdx");
    let (rc, line) = plan.rc_line.unwrap();
    assert_eq!(rc, "/home/ann/.zshrc");
    assert_eq!(line, "fpath=(\"/home/ann/.local/share/zsh/site-functions\" $fpath)");
    assert!(String::from_utf8(plan.script).unwrap().contains("#compdef mdx"));
}

#[test]
fn fish_install_locations() {
    let mut cmd = command();
    let plan = install_fish("/home/ann", &mut cmd);
    assert_eq!(plan.dir, "/home/ann/.config/fish/completions");
    assert_eq!(plan.file, "/home/ann/.config/fish/completions/mdx.fish");
    assert!(plan.rc_line.is_none());
    assert!(String::from_utf8(plan.script).unwrap().contains("complete -c mdx"));
}

#[test]
fn render_completions_by_name() {
    let mut cmd = command();
    let script = render_completions("FISH", &mut cmd).unwrap();
    assert!(String::from_utf8(script).unwrap().contains("complete -c mdx"));
    let mut cmd = command();
    assert_eq!(
        render_completions("nushell", &mut cmd),
        Err("Unknown shell: nushell. Supported: bash, zsh, fish, powershell".to_string())
    );
}

#[test]
fn powershell_profile_choice() {
    assert_eq!(
        choose_ps_profile(true, "C:\\Users\\a\\Documents\\PowerShell\\profile.ps1\r\n"),
        Some("C:\\Users\\a\\Documents\\PowerShell\\profile.ps1".to_string())
    );
    assert_eq!(choose_ps_profile(false, "C:\\p.ps1"), None);
    assert_eq!(choose_ps_profile(true, " \r\n"), None);
    let mut cmd = command();
    let (script, line) = install_powershell("C:\\x\\mdx.ps1", &mut cmd);
    assert_eq!(line, ". \"C:\\x\\mdx.ps1\"");
    assert!(String::from_utf8(script).unwrap().contains("Register-ArgumentCompleter"));
}

const FPATH: &str = "fpath=(\"/home/u/.local/share/zsh/site-functions\" $fpath)";

#[test]
fn zshrc_from_nothing() {
    assert_eq!(
        zshrc_addition("", FPATH),
        format!("{}\nautoload -Uz compinit && compinit\n", FPATH)
    );
}

#[test]
fn zshrc_with_compinit_already() {
    let contents = "autoload -U compinit; compinit";
    assert_eq!(zshrc_addition(contents, FPATH), format!("\n{}\n", FPATH));
}

#[test]
fn zshrc_addition_is_idempotent() {
    let mut contents = String::from("export EDITOR=vi\n");
    let first = zshrc_addition(&contents, FPATH);
    contents.push_str(&first);
    assert!(contents.contains(FPATH) && contents.contains("compinit"));
    assert_eq!(zshrc_addition(&contents, FPATH), "");
}

fn clap_script(shell: clap_complete::Shell) -> Vec<u8> {
    let mut cmd = command();
    let mut buf = Vec::new();
    clap_complete::generate(shell, &mut cmd, "mdx", &mut buf);
    buf
}

#[test]
fn scripts_are_clap_completes() {
    let mut cmd = command();
    assert_eq!(install_bash("/h", true, &mut cmd).script, clap_script(clap_complete::Shell::Bash));
    let mut cmd = command();
    assert_eq!(install_zsh("/h", &mut cmd).script, clap_script(clap_complete::Shell::Zsh));
    let mut cmd = command();
    assert_eq!(install_fish("/h", &mut cmd).script, clap_script(clap_complete::Shell::Fish));
    let mut cmd = command();
    assert_eq!(
        install_powershell("C:\\p.ps1", &mut cmd).0,
        clap_script(clap_complete::Shell::PowerShell)
    );
}

#[test]
fn shell_names_that_agree_give_the_same_script() {
    let mut a = command();
    let mut b = command();
    assert_eq!(render_completions("ZSH", &mut a), render_completions("zsh", &mut b));
    let mut a = command();
    let mut b = command();
    assert_eq!(render_completions("pwsh", &mut a), render_completions("powershell", &mut b));
    let mut c = command();
    assert_eq!(render_completions("Bash", &mut c).unwrap(), clap_script(clap_complete::Shell::Bash));
}

#[test]
fn powershell_locations() {
    let p = powershell_paths("C:\\Users\\ann\\AppData\\Local").unwrap();
    assert_eq!(p.dir, "C:\\Users\\ann\\AppData\\Local\\mdx/completions");
    assert_eq!(p.script, "C:\\Users\\ann\\AppData\\Local\\mdx/completions\\mdx.ps1");
    assert_eq!(
        p.legacy_profile,
        "C:\\Users\\ann\\AppData\\Local\\Microsoft/Windows/PowerShell/Microsoft.PowerShell_profile.ps1"
    );
    assert!(powershell_paths("\\\\?\\C:\\Users").is_none());
    assert!(powershell_paths("\\\\?").is_none());
}
