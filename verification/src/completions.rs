//! Shell completions: which shell a name or `$SHELL` denotes, where each
//! shell's completion script goes, and which start-up file lines are added.
use vstd::prelude::*;
use crate::paths::{
    bash_rc, bash_rc_path, file_name, is_verbatim_like, join_path, join_windows_path, joined,
    looks_verbatim, path_file_name, windows_joined,
};
use crate::text::{concat3, contains, contains_str, str_eq, trim, trim_str};

verus! {

/// The shells for which completions are generated and installed.
#[derive(Clone, Copy, Debug, PartialEq, Eq, Structural)]
pub enum Shell {
    Bash,
    Zsh,
    Fish,
    PowerShell,
}

/// clap's command-line definition, carried to the completion generator.
#[verifier::external_type_specification]
#[verifier::external_body]
pub struct ExCommand(clap::Command);

/// The shell a (lower-case) name denotes: `bash`, `zsh`, `fish`, and
/// `powershell` or `pwsh`.
pub open spec fn shell_named(name: Seq<char>) -> Option<Shell> {
    if name == "bash"@ {
        Some(Shell::Bash)
    } else if name == "zsh"@ {
        Some(Shell::Zsh)
    } else if name == "fish"@ {
        Some(Shell::Fish)
    } else if name == "powershell"@ || name == "pwsh"@ {
        Some(Shell::PowerShell)
    } else {
        None
    }
}

/// Exactly five names denote a shell, each its own: `bash`, `zsh`, `fish`,
/// and `powershell` or `pwsh` for PowerShell; every other name (such as `sh`
/// or `Bash`) denotes none, and so is refused by `install_target`.
pub proof fn lemma_shell_names(name: Seq<char>)
    ensures
        (shell_named(name) == Some(Shell::Bash)) == (name == "bash"@),
        (shell_named(name) == Some(Shell::Zsh)) == (name == "zsh"@),
        (shell_named(name) == Some(Shell::Fish)) == (name == "fish"@),
        (shell_named(name) == Some(Shell::PowerShell)) == (name == "powershell"@ || name
            == "pwsh"@),
        shell_named(name) is None == (name != "bash"@ && name != "zsh"@ && name != "fish"@
            && name != "powershell"@ && name != "pwsh"@),
{
    reveal_strlit("bash");
    reveal_strlit("zsh");
    reveal_strlit("fish");
    reveal_strlit("powershell");
    reveal_strlit("pwsh");
    assert("bash"@[0] != "pwsh"@[0]);
    assert("bash"@[0] != "fish"@[0]);
    assert("fish"@[0] != "pwsh"@[0]);
    assert("pwsh"@ != "bash"@);
    assert("pwsh"@ != "fish"@);
    assert("pwsh"@ != "zsh"@);
    assert("powershell"@ != "bash"@);
    assert("powershell"@.len() != "zsh"@.len());
    assert("powershell"@ != "zsh"@);
    assert("powershell"@ != "fish"@);
}

/// The Unicode lower-case form of a character sequence, as
/// `str::to_lowercase` computes it.
pub uninterp spec fn lowercase(s: Seq<char>) -> Seq<char>;

/// Every character of `s` is ASCII.
pub open spec fn all_ascii(s: Seq<char>) -> bool {
    forall|i: int| 0 <= i < s.len() ==> (s[i] as u32) < 128
}

/// The ASCII lower-case form of `c`; other characters are left as they are.
pub open spec fn ascii_lower(c: char) -> char {
    if 65 <= (c as u32) <= 90 {
        ((c as u32) + 32) as char
    } else {
        c
    }
}

/// The message with which an unknown shell name is refused when printing completions.
pub open spec fn unknown_shell_message(name: Seq<char>) -> Seq<char> {
    "Unknown shell: "@ + name + ". Supported: bash, zsh, fish, powershell"@
}

/// The message with which an unsupported shell is refused when installing completions.
pub open spec fn unsupported_shell_message(shell: Seq<char>) -> Seq<char> {
    "Unsupported shell: "@ + shell + ". Supported: bash, zsh, fish, powershell"@
}

/// The shell name that `$SHELL` gives, or the message for why there is none.
pub open spec fn detected_shell(on_windows: bool, shell_var: Option<Seq<char>>) -> Result<
    Seq<char>,
    Seq<char>,
> {
    if on_windows {
        Ok("powershell"@)
    } else {
        match shell_var {
            None => Err("Could not detect shell: $SHELL is not set"@),
            Some(path) => match file_name(path) {
                Some(name) => Ok(name),
                None => Err("Could not parse shell name from $SHELL"@),
            },
        }
    }
}

/// `$SHELL` set to a shell's path gives that shell's file name, whatever
/// directory it lies in; on Windows the shell is always PowerShell.
pub proof fn lemma_shell_from_path(dir: Seq<char>, name: Seq<char>, shell_var: Option<Seq<char>>)
    requires
        crate::paths::is_plain_name(name),
    ensures
        detected_shell(false, Some(joined(dir, name))) == Ok::<Seq<char>, Seq<char>>(name),
        detected_shell(true, shell_var) == Ok::<Seq<char>, Seq<char>>("powershell"@),
{
    crate::paths::lemma_file_name_of_joined(dir, name);
}

/// What must be appended to a file that holds `contents` so that it holds
/// `line`: nothing when it holds it already; else the line and a newline,
/// after a newline of its own when `contents` does not end a line.
pub open spec fn line_addition_text(contents: Seq<char>, line: Seq<char>) -> Option<Seq<char>> {
    if contains(contents, line) {
        None
    } else if contents.len() > 0 && contents.last() != '\n' {
        Some(seq!['\n'] + line + seq!['\n'])
    } else {
        Some(line + seq!['\n'])
    }
}

/// The line that puts a directory on zsh's function path.
pub open spec fn zsh_fpath_text(dir: Seq<char>) -> Seq<char> {
    "fpath=(\""@ + dir + "\" $fpath)"@
}

/// The line that loads a PowerShell script from the profile.
pub open spec fn powershell_profile_text(script: Seq<char>) -> Seq<char> {
    ". \""@ + script + "\""@
}

/// The profile path that `pwsh` reported, if it ran successfully and said something.
pub open spec fn reported_profile(success: bool, stdout: Seq<char>) -> Option<Seq<char>> {
    if success && trim(stdout).len() > 0 {
        Some(trim(stdout))
    } else {
        None
    }
}

/// Where a shell's completion script goes, and the start-up file line that
/// makes the shell find it.
pub struct CompletionInstall {
    /// The directory to create.
    pub dir: String,
    /// The completion script's path, inside `dir`.
    pub file: String,
    /// The completion script.
    pub script: Vec<u8>,
    /// The start-up file to extend, and the line it must hold.
    pub rc_line: Option<(String, String)>,
}

/// The completion script that clap_complete generates for `shell` from the
/// command-line definition `cmd`, with the binary called `bin_name`.
pub uninterp spec fn completion_script(shell: Shell, bin_name: Seq<char>, cmd: clap::Command) -> Seq<
    u8,
>;

/// clap accepts the command-line definition `cmd`: building it (as
/// `Command::build` does, which runs clap's debug assertions in debug builds)
/// does not panic.
pub uninterp spec fn command_accepted(cmd: clap::Command) -> bool;

/// Calls `clap_complete::generate` for `shell` on `cmd` with the binary name
/// `bin_name` and collects what it writes into a buffer. The script is named by
/// `completion_script`: clap_complete's output depends on the shell, the name
/// and the command alone. The call panics when building `cmd` does, so it
/// asks for `command_accepted`. It sets the binary name of `cmd` and builds
/// it; of the command afterwards only `command_accepted` is stated, not its
/// new settings.
#[verifier::external_body]
fn generate_to_buffer(shell: Shell, bin_name: &str, cmd: &mut clap::Command) -> (script: Vec<u8>)
    requires
        command_accepted(*old(cmd)),
    ensures
        script@ == completion_script(shell, bin_name@, *old(cmd)),
        command_accepted(*final(cmd)),
{
    let generator = match shell {
        Shell::Bash => clap_complete::Shell::Bash,
        Shell::Zsh => clap_complete::Shell::Zsh,
        Shell::Fish => clap_complete::Shell::Fish,
        Shell::PowerShell => clap_complete::Shell::PowerShell,
    };
    let mut buf: Vec<u8> = Vec::new();
    clap_complete::generate(generator, cmd, bin_name, &mut buf);
    buf
}

/// Calls `str::to_lowercase`. Its result is named by `lowercase`; on ASCII
/// text it maps `A`-`Z` to `a`-`z` and keeps every other character.
#[verifier::external_body]
fn to_lowercase(s: &str) -> (r: String)
    ensures
        r@ == lowercase(s@),
        all_ascii(s@) ==> r@ == s@.map_values(|c: char| ascii_lower(c)),
{
    s.to_lowercase()
}

/// The shell that the lower-case name `name` denotes.
pub fn shell_from_name(name: &str) -> (r: Option<Shell>)
    ensures
        r == shell_named(name@),
{
    if str_eq(name, "bash") {
        Some(Shell::Bash)
    } else if str_eq(name, "zsh") {
        Some(Shell::Zsh)
    } else if str_eq(name, "fish") {
        Some(Shell::Fish)
    } else if str_eq(name, "powershell") || str_eq(name, "pwsh") {
        Some(Shell::PowerShell)
    } else {
        None
    }
}

/// The shell named by `shell_name` in any letter case, for printing its
/// completions; an unknown name is refused with the message to print.
pub fn parse_shell(shell_name: &str) -> (r: Result<Shell, String>)
    ensures
        match shell_named(lowercase(shell_name@)) {
            Some(shell) => r == Ok::<Shell, String>(shell),
            None => r matches Err(msg) && msg@ == unknown_shell_message(shell_name@),
        },
        all_ascii(shell_name@) ==> match shell_named(shell_name@.map_values(|c: char| ascii_lower(c))) {
            Some(shell) => r == Ok::<Shell, String>(shell),
            None => r is Err,
        },
{
    let lower = to_lowercase(shell_name);
    match shell_from_name(lower.as_str()) {
        Some(shell) => Ok(shell),
        None => Err(concat3("Unknown shell: ", shell_name, ". Supported: bash, zsh, fish, powershell")),
    }
}

/// The completion script of the binary `mdx` for the shell named
/// `shell_name` (in any letter case), or the message that refuses an unknown
/// name; `cmd` is left as it was when the name is refused.
pub fn render_completions(shell_name: &str, cmd: &mut clap::Command) -> (r: Result<
    Vec<u8>,
    String,
>)
    requires
        command_accepted(*old(cmd)),
    ensures
        match shell_named(lowercase(shell_name@)) {
            Some(shell) => r matches Ok(script) && script@ == completion_script(
                shell,
                "mdx"@,
                *old(cmd),
            ),
            None => r matches Err(msg) && msg@ == unknown_shell_message(shell_name@),
        },
        all_ascii(shell_name@) ==> match shell_named(shell_name@.map_values(|c: char| ascii_lower(c))) {
            Some(shell) => r matches Ok(script) && script@ == completion_script(
                shell,
                "mdx"@,
                *old(cmd),
            ),
            None => r is Err,
        },
        r is Ok ==> command_accepted(*final(cmd)),
        r is Err ==> *final(cmd) == *old(cmd),
{
    match parse_shell(shell_name) {
        Ok(shell) => Ok(generate_to_buffer(shell, "mdx", cmd)),
        Err(msg) => Err(msg),
    }
}

/// The shell whose completions to install, from the exact name `shell`;
/// any other name is refused with the message to report.
pub fn install_target(shell: &str) -> (r: Result<Shell, String>)
    ensures
        match shell_named(shell@) {
            Some(s) => r == Ok::<Shell, String>(s),
            None => r matches Err(msg) && msg@ == unsupported_shell_message(shell@),
        },
{
    match shell_from_name(shell) {
        Some(s) => Ok(s),
        None => Err(concat3("Unsupported shell: ", shell, ". Supported: bash, zsh, fish, powershell")),
    }
}

/// The user's shell: `powershell` on Windows, else the last component of
/// `$SHELL` (`shell_var`, `None` when it is unset or not Unicode).
pub fn detect_shell(on_windows: bool, shell_var: Option<&str>) -> (r: Result<String, String>)
    ensures
        match detected_shell(on_windows, match shell_var { Some(p) => Some(p@), None => None }) {
            Ok(name) => r matches Ok(n) && n@ == name,
            Err(msg) => r matches Err(m) && m@ == msg,
        },
{
    if on_windows {
        return Ok(String::from_str("powershell"));
    }
    match shell_var {
        None => Err(String::from_str("Could not detect shell: $SHELL is not set")),
        Some(path) => match path_file_name(path) {
            Some(name) => Ok(name),
            None => Err(String::from_str("Could not parse shell name from $SHELL")),
        },
    }
}

/// What to append to a file holding `contents` so that it holds `line`
/// (`None`: nothing, it holds it already).
pub fn line_addition(contents: &str, line: &str) -> (r: Option<String>)
    ensures
        match line_addition_text(contents@, line@) {
            Some(t) => r matches Some(s) && s@ == t,
            None => r is None,
        },
{
    if contains_str(contents, line) {
        return None;
    }
    let c = crate::text::chars_of(contents);
    proof {
        reveal_strlit("\n");
    }
    if c.len() > 0 && c[c.len() - 1] != '\n' {
        Some(concat3("\n", line, "\n"))
    } else {
        Some(crate::text::concat2(line, "\n"))
    }
}

/// Adding a missing line is idempotent: once what `line_addition_text` asks
/// for has been appended, the file holds the line, ends a line, and nothing
/// more is asked for.
pub proof fn lemma_line_addition_idempotent(contents: Seq<char>, line: Seq<char>)
    ensures
        match line_addition_text(contents, line) {
            Some(t) => {
                &&& contains(contents + t, line)
                &&& (contents + t).last() == '\n'
                &&& line_addition_text(contents + t, line) is None
            },
            None => contains(contents, line),
        },
{
    match line_addition_text(contents, line) {
        Some(t) => {
            let k: int = if contents.len() > 0 && contents.last() != '\n' {
                contents.len() + 1int
            } else {
                contents.len() as int
            };
            assert((contents + t).subrange(k, k + line.len()) =~= line);
            assert(crate::text::occurs_at(contents + t, line, k));
        },
        None => {},
    }
}

/// The text, or nothing, that `line_addition_text` asks to append.
pub open spec fn addition_or_empty(contents: Seq<char>, line: Seq<char>) -> Seq<char> {
    match line_addition_text(contents, line) {
        Some(t) => t,
        None => Seq::empty(),
    }
}

/// What to append to zsh's start-up file, holding `contents`: the `fpath`
/// line if it is missing; then, if the file (with that line) still never
/// mentions `compinit`, the line that loads the completion system.
pub open spec fn zshrc_addition_text(contents: Seq<char>, fpath_line: Seq<char>) -> Seq<char> {
    let first = addition_or_empty(contents, fpath_line);
    let after = contents + first;
    if contains(after, "compinit"@) {
        first
    } else {
        first + addition_or_empty(after, "autoload -Uz compinit && compinit"@)
    }
}

/// An occurrence stays where it is when text is appended.
pub proof fn lemma_contains_append(s: Seq<char>, t: Seq<char>, pat: Seq<char>)
    requires
        contains(s, pat),
    ensures
        contains(s + t, pat),
{
    let i = choose|i: int| crate::text::occurs_at(s, pat, i);
    assert((s + t).subrange(i, i + pat.len()) =~= s.subrange(i, i + pat.len()));
    assert(crate::text::occurs_at(s + t, pat, i));
}

/// After the zsh start-up file is extended, it holds the `fpath` line and
/// mentions `compinit`; a file that already mentioned `compinit` gets no
/// `compinit` line; and extending it a second time appends nothing.
pub proof fn lemma_zshrc_addition(contents: Seq<char>, fpath_line: Seq<char>)
    ensures
        contains(contents + zshrc_addition_text(contents, fpath_line), fpath_line),
        contains(contents + zshrc_addition_text(contents, fpath_line), "compinit"@),
        contains(contents, "compinit"@) ==> zshrc_addition_text(contents, fpath_line)
            == addition_or_empty(contents, fpath_line),
        zshrc_addition_text(contents + zshrc_addition_text(contents, fpath_line), fpath_line)
            =~= Seq::<char>::empty(),
{
    let first = addition_or_empty(contents, fpath_line);
    let after = contents + first;
    lemma_line_addition_idempotent(contents, fpath_line);
    assert(contains(after, fpath_line)) by {
        if line_addition_text(contents, fpath_line) is None {
            assert(after =~= contents);
        }
    }
    if contains(contents, "compinit"@) {
        lemma_contains_append(contents, first, "compinit"@);
    }
    let total = zshrc_addition_text(contents, fpath_line);
    let c = "autoload -Uz compinit && compinit"@;
    if contains(after, "compinit"@) {
        assert(contents + total =~= after);
    } else {
        let second = addition_or_empty(after, c);
        lemma_line_addition_idempotent(after, c);
        assert(contents + total =~= after + second);
        lemma_contains_append(after, second, fpath_line);
        // the compinit line itself mentions compinit
        reveal_strlit("autoload -Uz compinit && compinit");
        reveal_strlit("compinit");
        assert(c.subrange(25, 33) =~= "compinit"@);
        assert(crate::text::occurs_at(c, "compinit"@, 25));
        assert(contains(after + second, c));
        let k = choose|k: int| crate::text::occurs_at(after + second, c, k);
        assert((after + second).subrange(k + 25, k + 33) =~= c.subrange(25, 33));
        assert(crate::text::occurs_at(after + second, "compinit"@, k + 25));
    }
    let whole = contents + total;
    assert(contains(whole, fpath_line));
    assert(contains(whole, "compinit"@));
    assert(line_addition_text(whole, fpath_line) is None);
    assert(whole + Seq::<char>::empty() =~= whole);
}

/// What to append to zsh's start-up file, holding `contents`, so that it
/// puts the completions on the function path and loads the completion system.
pub fn zshrc_addition(contents: &str, fpath_line: &str) -> (r: String)
    ensures
        r@ == zshrc_addition_text(contents@, fpath_line@),
{
    let first = match line_addition(contents, fpath_line) {
        Some(t) => t,
        None => String::new(),
    };
    let after = crate::text::concat2(contents, first.as_str());
    if contains_str(after.as_str(), "compinit") {
        first
    } else {
        match line_addition(after.as_str(), zsh_compinit_line()) {
            Some(t) => crate::text::concat2(first.as_str(), t.as_str()),
            None => first,
        }
    }
}

/// The line that loads zsh's completion system.
pub fn zsh_compinit_line() -> (r: &'static str)
    ensures
        r@ == "autoload -Uz compinit && compinit"@,
{
    "autoload -Uz compinit && compinit"
}

/// The line in the bash start-up file that sources the installed completions.
pub fn bash_source_line() -> (r: &'static str)
    ensures
        r@ == "[ -f \"${HOME}/.local/share/bash-completion/completions/mdx\" ] && . \"${HOME}/.local/share/bash-completion/completions/mdx\""@,
{
    "[ -f \"${HOME}/.local/share/bash-completion/completions/mdx\" ] && . \"${HOME}/.local/share/bash-completion/completions/mdx\""
}

/// Bash completions for the user whose home is `home`: the script goes to
/// `~/.local/share/bash-completion/completions/mdx`, and the bash start-up
/// file (see `bash_rc`) sources it.
pub fn install_bash(home: &str, bashrc_exists: bool, cmd: &mut clap::Command) -> (r:
    CompletionInstall)
    requires
        command_accepted(*old(cmd)),
    ensures
        r.script@ == completion_script(Shell::Bash, "mdx"@, *old(cmd)),
        command_accepted(*final(cmd)),
        r.dir@ == joined(home@, ".local/share/bash-completion/completions"@),
        r.file@ == joined(r.dir@, "mdx"@),
        r.rc_line matches Some((rc, line)) && rc@ == bash_rc_path(home@, bashrc_exists) && line@
            == "[ -f \"${HOME}/.local/share/bash-completion/completions/mdx\" ] && . \"${HOME}/.local/share/bash-completion/completions/mdx\""@,
{
    let dir = join_path(home, ".local/share/bash-completion/completions");
    let file = join_path(dir.as_str(), "mdx");
    let script = generate_to_buffer(Shell::Bash, "mdx", cmd);
    let rc = bash_rc(home, bashrc_exists);
    let line = String::from_str(bash_source_line());
    CompletionInstall { dir, file, script, rc_line: Some((rc, line)) }
}

/// Zsh completions for the user whose home is `home`: the script goes to
/// `~/.local/share/zsh/site-functions/_mdx`, and `~/.zshrc` puts that
/// directory on the function path (the whole addition to that file is `zshrc_addition`).
pub fn install_zsh(home: &str, cmd: &mut clap::Command) -> (r: CompletionInstall)
    requires
        command_accepted(*old(cmd)),
    ensures
        r.script@ == completion_script(Shell::Zsh, "mdx"@, *old(cmd)),
        command_accepted(*final(cmd)),
        r.dir@ == joined(home@, ".local/share/zsh/site-functions"@),
        r.file@ == joined(r.dir@, "_mdx"@),
        r.rc_line matches Some((rc, line)) && rc@ == joined(home@, ".zshrc"@) && line@
            == zsh_fpath_text(r.dir@),
{
    let dir = join_path(home, ".local/share/zsh/site-functions");
    let file = join_path(dir.as_str(), "_mdx");
    let script = generate_to_buffer(Shell::Zsh, "mdx", cmd);
    let zshrc = join_path(home, ".zshrc");
    let line = concat3("fpath=(\"", dir.as_str(), "\" $fpath)");
    CompletionInstall { dir, file, script, rc_line: Some((zshrc, line)) }
}

/// Fish completions for the user whose home is `home`: the script goes to
/// `~/.config/fish/completions/mdx.fish`, which fish loads by itself.
pub fn install_fish(home: &str, cmd: &mut clap::Command) -> (r: CompletionInstall)
    requires
        command_accepted(*old(cmd)),
    ensures
        r.script@ == completion_script(Shell::Fish, "mdx"@, *old(cmd)),
        command_accepted(*final(cmd)),
        r.dir@ == joined(home@, ".config/fish/completions"@),
        r.file@ == joined(r.dir@, "mdx.fish"@),
        r.rc_line is None,
{
    let dir = join_path(home, ".config/fish/completions");
    let file = join_path(dir.as_str(), "mdx.fish");
    let script = generate_to_buffer(Shell::Fish, "mdx", cmd);
    CompletionInstall { dir, file, script, rc_line: None }
}

/// Where PowerShell completions go on Windows, below `%LOCALAPPDATA%`.
pub struct PowerShellPaths {
    /// The directory to create: `mdx/completions`.
    pub dir: String,
    /// The completion script: `mdx.ps1` in `dir`.
    pub script: String,
    /// The legacy Windows PowerShell 5.1 profile, used when `pwsh` reports none.
    pub legacy_profile: String,
}

/// The PowerShell locations below `local_app_data`, joined as Windows joins
/// paths. `None` when `local_app_data`, or the completions directory below
/// it, begins like a verbatim path (`\\?\`), whose joining normalizes
/// components.
pub fn powershell_paths(local_app_data: &str) -> (r: Option<PowerShellPaths>)
    ensures
        r is None <==> looks_verbatim(local_app_data@) || looks_verbatim(
            windows_joined(local_app_data@, "mdx/completions"@),
        ),
        r matches Some(p) ==> {
            &&& p.dir@ == windows_joined(local_app_data@, "mdx/completions"@)
            &&& p.script@ == windows_joined(p.dir@, "mdx.ps1"@)
            &&& p.legacy_profile@ == windows_joined(
                local_app_data@,
                "Microsoft/Windows/PowerShell/Microsoft.PowerShell_profile.ps1"@,
            )
        },
{
    proof {
        reveal_strlit("mdx/completions");
        reveal_strlit("mdx.ps1");
        reveal_strlit("Microsoft/Windows/PowerShell/Microsoft.PowerShell_profile.ps1");
    }
    if is_verbatim_like(local_app_data) {
        return None;
    }
    let dir = join_windows_path(local_app_data, "mdx/completions");
    if is_verbatim_like(dir.as_str()) {
        return None;
    }
    let script = join_windows_path(dir.as_str(), "mdx.ps1");
    let legacy_profile = join_windows_path(
        local_app_data,
        "Microsoft/Windows/PowerShell/Microsoft.PowerShell_profile.ps1",
    );
    Some(PowerShellPaths { dir, script, legacy_profile })
}

/// PowerShell completions, to be written to `script_path`: the script, and
/// the profile line that loads it.
pub fn install_powershell(script_path: &str, cmd: &mut clap::Command) -> (r: (Vec<u8>, String))
    requires
        command_accepted(*old(cmd)),
    ensures
        r.0@ == completion_script(Shell::PowerShell, "mdx"@, *old(cmd)),
        command_accepted(*final(cmd)),
        r.1@ == powershell_profile_text(script_path@),
{
    let script = generate_to_buffer(Shell::PowerShell, "mdx", cmd);
    (script, concat3(". \"", script_path, "\""))
}

/// The profile path that `pwsh -NoProfile -Command "echo $PROFILE"` reported:
/// its trimmed output when it succeeded and printed something, else `None`
/// (the legacy Windows PowerShell profile is then used).
pub fn choose_ps_profile(success: bool, stdout: &str) -> (r: Option<String>)
    ensures
        match reported_profile(success, stdout@) {
            Some(p) => r matches Some(s) && s@ == p,
            None => r is None,
        },
{
    if !success {
        return None;
    }
    let t = trim_str(stdout);
    if t.as_str().is_empty() {
        None
    } else {
        Some(t)
    }
}

} // verus!
