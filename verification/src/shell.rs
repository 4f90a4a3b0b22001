//! The shells for which an initialization script exists, and the text of each
//! script.
//!
//! A script has three parts in this order: a heading that names the shell, the
//! command itself (a shell function under the chosen alias), and the hook. The
//! hook part is empty when no hook is asked for.

use crate::hook::InitHook;
use crate::text::same_text;
use vstd::prelude::*;
use vstd::string::*;

verus! {

/// The name under which the tool is installed, and its alias where none is given.
pub const DEFAULT_COMMAND: &'static str = "mkpath";

/// What the caller chooses for one script.
#[derive(Debug, PartialEq, Eq)]
pub struct Opts<'a> {
    /// The alias under which the command is defined; the default name if absent.
    pub cmd: Option<&'a str>,
    /// The event on which the hook fires.
    pub hook: InitHook,
    /// Whether the hook says what it does each time it fires.
    pub echo: bool,
}

/// An [`Opts`] with its text as a sequence of characters.
pub struct OptsView {
    pub cmd: Option<Seq<char>>,
    pub hook: InitHook,
    pub echo: bool,
}

impl<'a> View for Opts<'a> {
    type V = OptsView;

    open spec fn view(&self) -> OptsView {
        OptsView {
            cmd: match self.cmd {
                Some(c) => Some(c@),
                None => None,
            },
            hook: self.hook,
            echo: self.echo,
        }
    }
}

impl OptsView {
    /// The alias that the script defines.
    pub open spec fn alias(self) -> Seq<char> {
        match self.cmd {
            Some(c) => c,
            None => DEFAULT_COMMAND@,
        }
    }
}

/// A shell that is recognized.
#[derive(Debug, Copy, Clone, PartialEq, Eq, Structural)]
pub enum Shell {
    Bash,
    Zsh,
}

impl Shell {
    /// The identifier by which the shell is chosen.
    pub open spec fn name_of(self) -> Seq<char> {
        match self {
            Shell::Bash => "bash"@,
            Shell::Zsh => "zsh"@,
        }
    }

    /// The shell that `name` identifies, if it is one of the recognized ones.
    pub open spec fn recognize(name: Seq<char>) -> Option<Shell> {
        if name == Shell::Bash.name_of() {
            Some(Shell::Bash)
        } else if name == Shell::Zsh.name_of() {
            Some(Shell::Zsh)
        } else {
            None
        }
    }

    /// The identifier by which the shell is chosen.
    pub fn name(self) -> (name: &'static str)
        ensures
            name@ == self.name_of(),
    {
        match self {
            Shell::Bash => "bash",
            Shell::Zsh => "zsh",
        }
    }

    /// Looks `name` up among the recognized shells.
    pub fn parse(name: &str) -> (shell: Option<Shell>)
        ensures
            shell == Shell::recognize(name@),
    {
        if same_text(name, Shell::Bash.name()) {
            Some(Shell::Bash)
        } else if same_text(name, Shell::Zsh.name()) {
            Some(Shell::Zsh)
        } else {
            None
        }
    }
}

impl<'a> Opts<'a> {
    /// The alias that the script defines.
    pub fn alias(&self) -> (alias: &str)
        ensures
            alias@ == self@.alias(),
    {
        match self.cmd {
            Some(c) => c,
            None => DEFAULT_COMMAND,
        }
    }
}

/// How every script begins, before the shell's name.
pub const HEADING: &'static str = "# mkpath: shell integration for ";

/// What opens the definition of the command, before the alias.
pub const COMMAND_OPENING: &'static str = "\nfunction ";

/// The rest of the definition of the command, behind the alias.
pub const COMMAND_CLOSING: &'static str = "() {\n    \\command mkpath \"$@\"\n}\n";

/// The comment above a hook that fires at each prompt.
pub const PROMPT_NOTE: &'static str = "\n# Hook: runs each time the prompt is displayed.\n";

/// The comment above a hook that fires when the working directory changes.
pub const PWD_NOTE: &'static str = "\n# Hook: runs each time the working directory changes.\n";

/// The head of the hook function in bash, which keeps the exit status.
pub const BASH_HOOK_OPENING: &'static str =
    "function __mkpath_hook() {\n    \\builtin local -r retval=\"$?\"\n";

/// In bash the hook runs at each prompt; this guard lets it go on only when
/// the working directory is another than last time.
pub const BASH_PWD_GUARD: &'static str =
    "    if [[ ${__mkpath_oldpwd:-} == \"${PWD}\" ]]; then\n        return \"${retval}\"\n    fi\n    __mkpath_oldpwd=\"${PWD}\"\n";

/// The end of the hook function in bash, and its registration.
pub const BASH_HOOK_CLOSING: &'static str =
    "    return \"${retval}\"\n}\nif [[ ${PROMPT_COMMAND:=} != *'__mkpath_hook'* ]]; then\n    PROMPT_COMMAND=\"__mkpath_hook;${PROMPT_COMMAND#;}\"\nfi\n";

/// The head of the hook function in zsh.
pub const ZSH_HOOK_OPENING: &'static str = "function __mkpath_hook() {\n";

/// The end of the hook function in zsh, and its registration at each prompt.
pub const ZSH_PROMPT_CLOSING: &'static str =
    "}\nif (( ! ${precmd_functions[(I)__mkpath_hook]} )); then\n    precmd_functions+=(__mkpath_hook)\nfi\n";

/// The end of the hook function in zsh, and its registration at each change
/// of the working directory.
pub const ZSH_PWD_CLOSING: &'static str =
    "}\nif (( ! ${chpwd_functions[(I)__mkpath_hook]} )); then\n    chpwd_functions+=(__mkpath_hook)\nfi\n";

/// What the hook does first: it goes on only in a directory that holds a list
/// of paths to create.
pub const BODY_OPENING: &'static str = "    if [[ -r .mkpath ]]; then\n";

/// The statement by which the hook says what it does, before the alias.
pub const ECHO_OPENING: &'static str = "        \\builtin echo \"";

/// The rest of that statement, behind the alias.
pub const ECHO_CLOSING: &'static str = ": creating what ${PWD}/.mkpath lists\"\n";

/// The indentation of the call of the command in the hook.
pub const CALL_OPENING: &'static str = "        ";

/// The arguments of that call, and the end of the hook's body.
pub const CALL_CLOSING: &'static str = " $(< .mkpath)\n    fi\n";

/// The first line of the script for `shell`.
pub open spec fn heading_of(shell: Shell) -> Seq<char> {
    HEADING@ + shell.name_of() + ".\n"@
}

/// The part that defines the command under `alias`.
pub open spec fn command_of(alias: Seq<char>) -> Seq<char> {
    COMMAND_OPENING@ + alias + COMMAND_CLOSING@
}

/// The statement by which the hook says what it does; nothing unless `echo`.
pub open spec fn echo_of(alias: Seq<char>, echo: bool) -> Seq<char> {
    if echo {
        ECHO_OPENING@ + alias + ECHO_CLOSING@
    } else {
        Seq::empty()
    }
}

/// What the hook does each time it fires: it calls the command by its alias,
/// after the echo statement if there is one.
pub open spec fn hook_body_of(alias: Seq<char>, echo: bool) -> Seq<char> {
    BODY_OPENING@ + echo_of(alias, echo) + CALL_OPENING@ + alias + CALL_CLOSING@
}

/// What stands before the body of the hook. Only called with a hook that fires.
pub open spec fn hook_opening_of(shell: Shell, hook: InitHook) -> Seq<char> {
    match (shell, hook) {
        (Shell::Bash, InitHook::Pwd) => PWD_NOTE@ + BASH_HOOK_OPENING@ + BASH_PWD_GUARD@,
        (Shell::Bash, _) => PROMPT_NOTE@ + BASH_HOOK_OPENING@,
        (Shell::Zsh, InitHook::Pwd) => PWD_NOTE@ + ZSH_HOOK_OPENING@,
        (Shell::Zsh, _) => PROMPT_NOTE@ + ZSH_HOOK_OPENING@,
    }
}

/// What stands behind the body of the hook: the end of the function and the
/// lines that bind it to the shell's event. Only called with a hook that fires.
pub open spec fn hook_closing_of(shell: Shell, hook: InitHook) -> Seq<char> {
    match (shell, hook) {
        (Shell::Bash, _) => BASH_HOOK_CLOSING@,
        (Shell::Zsh, InitHook::Pwd) => ZSH_PWD_CLOSING@,
        (Shell::Zsh, _) => ZSH_PROMPT_CLOSING@,
    }
}

/// The hook part of a script; empty when no hook is asked for.
pub open spec fn hook_of(shell: Shell, hook: InitHook, alias: Seq<char>, echo: bool) -> Seq<char> {
    if hook == InitHook::Off {
        Seq::empty()
    } else {
        hook_opening_of(shell, hook) + hook_body_of(alias, echo) + hook_closing_of(shell, hook)
    }
}

/// The whole script for `shell` under `opts`.
pub open spec fn script_of(shell: Shell, opts: OptsView) -> Seq<char> {
    heading_of(shell) + command_of(opts.alias()) + hook_of(
        shell,
        opts.hook,
        opts.alias(),
        opts.echo,
    )
}

/// Whether `needle` stands in `text` at position `at`.
pub open spec fn occurs_at(needle: Seq<char>, text: Seq<char>, at: int) -> bool {
    0 <= at && at + needle.len() <= text.len() && text.subrange(at, at + needle.len()) == needle
}

/// Whether `needle` stands somewhere in `text`.
pub open spec fn occurs_in(needle: Seq<char>, text: Seq<char>) -> bool {
    exists|at: int| occurs_at(needle, text, at)
}

/// Writes what stands before the body of the hook.
fn write_hook_opening(script: &mut String, shell: Shell, hook: InitHook)
    requires
        hook != InitHook::Off,
    ensures
        final(script)@ == old(script)@ + hook_opening_of(shell, hook),
{
    match hook {
        InitHook::Pwd => {
            script.append(PWD_NOTE);
        },
        _ => {
            script.append(PROMPT_NOTE);
        },
    }
    match (shell, hook) {
        (Shell::Bash, InitHook::Pwd) => {
            script.append(BASH_HOOK_OPENING);
            script.append(BASH_PWD_GUARD);
        },
        (Shell::Bash, _) => {
            script.append(BASH_HOOK_OPENING);
        },
        (Shell::Zsh, _) => {
            script.append(ZSH_HOOK_OPENING);
        },
    }
}

/// Writes the echo statement of the hook, if there is to be one.
fn write_echo(script: &mut String, alias: &str, echo: bool)
    ensures
        final(script)@ == old(script)@ + echo_of(alias@, echo),
{
    if echo {
        script.append(ECHO_OPENING);
        script.append(alias);
        script.append(ECHO_CLOSING);
    }
}

/// Writes the body of the hook.
fn write_hook_body(script: &mut String, alias: &str, echo: bool)
    ensures
        final(script)@ == old(script)@ + hook_body_of(alias@, echo),
{
    script.append(BODY_OPENING);
    write_echo(script, alias, echo);
    script.append(CALL_OPENING);
    script.append(alias);
    script.append(CALL_CLOSING);
}

/// Writes what stands behind the body of the hook.
fn write_hook_closing(script: &mut String, shell: Shell, hook: InitHook)
    requires
        hook != InitHook::Off,
    ensures
        final(script)@ == old(script)@ + hook_closing_of(shell, hook),
{
    match (shell, hook) {
        (Shell::Bash, _) => {
            script.append(BASH_HOOK_CLOSING);
        },
        (Shell::Zsh, InitHook::Pwd) => {
            script.append(ZSH_PWD_CLOSING);
        },
        (Shell::Zsh, _) => {
            script.append(ZSH_PROMPT_CLOSING);
        },
    }
}

/// Writes the hook part of the script for `shell` behind what `script` holds.
fn write_hook(script: &mut String, shell: Shell, hook: InitHook, alias: &str, echo: bool)
    ensures
        final(script)@ == old(script)@ + hook_of(shell, hook, alias@, echo),
{
    match hook {
        InitHook::Off => {},
        _ => {
            write_hook_opening(script, shell, hook);
            write_hook_body(script, alias, echo);
            write_hook_closing(script, shell, hook);
        },
    }
}

/// Writes the definition of the command under `alias`.
fn write_command(script: &mut String, alias: &str)
    ensures
        final(script)@ == old(script)@ + command_of(alias@),
{
    script.append(COMMAND_OPENING);
    script.append(alias);
    script.append(COMMAND_CLOSING);
}

/// The first line of the script for `shell`.
fn heading(shell: Shell) -> (line: String)
    ensures
        line@ == heading_of(shell),
{
    let mut line = String::from_str(HEADING);
    line.append(shell.name());
    line.append(".\n");
    line
}

/// The initialization script for `shell` under `opts`.
pub fn render(shell: Shell, opts: &Opts) -> (script: String)
    ensures
        script@ == script_of(shell, opts@),
{
    let alias = opts.alias();
    let mut script = heading(shell);
    write_command(&mut script, alias);
    write_hook(&mut script, shell, opts.hook, alias, opts.echo);
    script
}

/// A part that stands between two others occurs in the whole.
pub proof fn lemma_occurs_between(before: Seq<char>, needle: Seq<char>, behind: Seq<char>)
    ensures
        occurs_in(needle, before + needle + behind),
{
    let text = before + needle + behind;
    let at = before.len() as int;
    assert(text.subrange(at, at + needle.len()) == needle);
    assert(occurs_at(needle, text, at));
}

/// What occurs in a part occurs in every text that holds that part.
pub proof fn lemma_occurs_within(needle: Seq<char>, before: Seq<char>, part: Seq<char>, behind: Seq<char>)
    requires
        occurs_in(needle, part),
    ensures
        occurs_in(needle, before + part + behind),
{
    let text = before + part + behind;
    let inner = choose|at: int| occurs_at(needle, part, at);
    let at = before.len() + inner;
    assert(text.subrange(at, at + needle.len()) == part.subrange(inner, inner + needle.len()));
    assert(occurs_at(needle, text, at));
}

/// The two shells never get the same script: whatever the options, the
/// heading already tells them apart. No script is empty.
pub proof fn lemma_scripts_differ(opts: OptsView, others: OptsView)
    ensures
        script_of(Shell::Bash, opts) != script_of(Shell::Zsh, others),
        script_of(Shell::Bash, opts).len() > 0,
        script_of(Shell::Zsh, others).len() > 0,
{
    reveal_strlit("# mkpath: shell integration for ");
    reveal_strlit("bash");
    reveal_strlit("zsh");
    let at = HEADING@.len() as int;
    assert(script_of(Shell::Bash, opts)[at] == 'b');
    assert(script_of(Shell::Zsh, others)[at] == 'z');
}

/// Every script defines the command under the chosen alias: the alias stands
/// in the script, between the two halves of the definition.
pub proof fn lemma_script_defines_alias(shell: Shell, opts: OptsView)
    ensures
        occurs_in(COMMAND_OPENING@ + opts.alias() + COMMAND_CLOSING@, script_of(shell, opts)),
        occurs_in(opts.alias(), script_of(shell, opts)),
{
    let alias = opts.alias();
    let hook = hook_of(shell, opts.hook, alias, opts.echo);
    lemma_occurs_between(heading_of(shell), command_of(alias), hook);
    lemma_occurs_between(COMMAND_OPENING@, alias, COMMAND_CLOSING@);
    lemma_occurs_within(alias, heading_of(shell), command_of(alias), hook);
}

/// Without a hook the script ends with the definition of the command: it holds
/// no hook function and binds nothing, and `echo` changes nothing.
pub proof fn lemma_script_without_hook(shell: Shell, opts: OptsView)
    requires
        opts.hook == InitHook::Off,
    ensures
        script_of(shell, opts) == heading_of(shell) + command_of(opts.alias()),
        script_of(shell, opts) == script_of(shell, OptsView { echo: !opts.echo, ..opts }),
{
}

/// With a hook the script holds, behind the definition of the command, a hook
/// whose body calls the command by its alias; with `echo` the body also holds
/// the echo statement, which names the alias too.
pub proof fn lemma_script_with_hook(shell: Shell, opts: OptsView)
    requires
        opts.hook != InitHook::Off,
    ensures
        script_of(shell, opts) == heading_of(shell) + command_of(opts.alias()) + (hook_opening_of(
            shell,
            opts.hook,
        ) + hook_body_of(opts.alias(), opts.echo) + hook_closing_of(shell, opts.hook)),
        occurs_in(hook_body_of(opts.alias(), opts.echo), script_of(shell, opts)),
        occurs_in(CALL_OPENING@ + opts.alias() + CALL_CLOSING@, hook_body_of(opts.alias(), opts.echo)),
        opts.echo ==> occurs_in(
            ECHO_OPENING@ + opts.alias() + ECHO_CLOSING@,
            hook_body_of(opts.alias(), opts.echo),
        ),
        !opts.echo ==> hook_body_of(opts.alias(), opts.echo) == BODY_OPENING@ + CALL_OPENING@
            + opts.alias() + CALL_CLOSING@,
{
    let alias = opts.alias();
    let call = CALL_OPENING@ + alias + CALL_CLOSING@;
    let body = hook_body_of(alias, opts.echo);
    let before = heading_of(shell) + command_of(alias) + hook_opening_of(shell, opts.hook);
    let behind = hook_closing_of(shell, opts.hook);
    assert(script_of(shell, opts) == before + body + behind);
    lemma_occurs_between(before, body, behind);
    let front = BODY_OPENING@ + echo_of(alias, opts.echo);
    assert(body == front + call + Seq::<char>::empty());
    lemma_occurs_between(front, call, Seq::empty());
    if opts.echo {
        let echo = ECHO_OPENING@ + alias + ECHO_CLOSING@;
        assert(body == BODY_OPENING@ + echo + call);
        lemma_occurs_between(BODY_OPENING@, echo, call);
    }
}

} // verus!
