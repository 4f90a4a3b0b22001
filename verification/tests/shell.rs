use mkpath::hook::InitHook;
use mkpath::init::{init, UnsupportedShellError};
use mkpath::shell::{render, Opts, Shell, DEFAULT_COMMAND};

const PLAIN: Opts<'static> = Opts { cmd: None, hook: InitHook::Off, echo: false };

#[test]
fn bash_without_hook_is_heading_and_command() {
    let script = init("bash", &PLAIN).unwrap();
    assert_eq!(
        script,
        "# mkpath: shell integration for bash.\n\
         \n\
         function mkpath() {\n    \\command mkpath \"$@\"\n}\n"
    );
}

#[test]
fn zsh_without_hook_is_heading_and_command() {
    let script = init("zsh", &PLAIN).unwrap();
    assert_eq!(
        script,
        "# mkpath: shell integration for zsh.\n\
         \n\
         function mkpath() {\n    \\command mkpath \"$@\"\n}\n"
    );
}

#[test]
fn default_scripts_differ_and_hold_the_default_alias_and_no_hook() {
    let bash = init("bash", &PLAIN).unwrap();
    let zsh = init("zsh", &PLAIN).unwrap();
    assert!(!bash.is_empty());
    assert!(!zsh.is_empty());
    assert_ne!(bash, zsh);
    assert_eq!(DEFAULT_COMMAND, "mkpath");
    for script in [&bash, &zsh] {
        assert!(script.contains("function mkpath() {"));
        assert!(!script.contains("__mkpath_hook"));
        assert!(!script.contains("PROMPT_COMMAND"));
        assert!(!script.contains("precmd_functions"));
        assert!(!script.contains("chpwd_functions"));
        assert!(!script.contains("echo"));
    }
}

#[test]
fn echo_alone_changes_nothing_without_a_hook() {
    let quiet = Opts { cmd: Some("j"), hook: InitHook::Off, echo: false };
    let loud = Opts { cmd: Some("j"), hook: InitHook::Off, echo: true };
    assert_eq!(init("bash", &quiet).unwrap(), init("bash", &loud).unwrap());
    assert_eq!(init("zsh", &quiet).unwrap(), init("zsh", &loud).unwrap());
}

#[test]
fn bash_pwd_hook_with_echo_calls_the_alias_and_echoes() {
    let opts = Opts { cmd: Some("j"), hook: InitHook::Pwd, echo: true };
    let script = init("bash", &opts).unwrap();
    assert_eq!(
        script,
        "# mkpath: shell integration for bash.\n\
         \n\
         function j() {\n    \\command mkpath \"$@\"\n}\n\
         \n\
         # Hook: runs each time the working directory changes.\n\
         function __mkpath_hook() {\n    \\builtin local -r retval=\"$?\"\n\
         \x20   if [[ ${__mkpath_oldpwd:-} == \"${PWD}\" ]]; then\n\
         \x20       return \"${retval}\"\n\
         \x20   fi\n\
         \x20   __mkpath_oldpwd=\"${PWD}\"\n\
         \x20   if [[ -r .mkpath ]]; then\n\
         \x20       \\builtin echo \"j: creating what ${PWD}/.mkpath lists\"\n\
         \x20       j $(< .mkpath)\n\
         \x20   fi\n\
         \x20   return \"${retval}\"\n\
         }\n\
         if [[ ${PROMPT_COMMAND:=} != *'__mkpath_hook'* ]]; then\n\
         \x20   PROMPT_COMMAND=\"__mkpath_hook;${PROMPT_COMMAND#;}\"\n\
         fi\n"
    );
}

#[test]
fn hook_body_holds_alias_and_echo_statement() {
    let opts = Opts { cmd: Some("j"), hook: InitHook::Pwd, echo: true };
    let script = init("bash", &opts).unwrap();
    let hook = &script[script.find("function __mkpath_hook").unwrap()..];
    assert!(hook.contains("        j $(< .mkpath)\n"));
    assert!(hook.contains("\\builtin echo \"j: "));
    assert!(hook.contains("__mkpath_oldpwd"));
    assert!(script.contains("# Hook: runs each time the working directory changes."));
}

#[test]
fn bash_prompt_hook_without_echo() {
    let opts = Opts { cmd: None, hook: InitHook::Prompt, echo: false };
    let script = init("bash", &opts).unwrap();
    assert_eq!(
        script,
        "# mkpath: shell integration for bash.\n\
         \n\
         function mkpath() {\n    \\command mkpath \"$@\"\n}\n\
         \n\
         # Hook: runs each time the prompt is displayed.\n\
         function __mkpath_hook() {\n    \\builtin local -r retval=\"$?\"\n\
         \x20   if [[ -r .mkpath ]]; then\n\
         \x20       mkpath $(< .mkpath)\n\
         \x20   fi\n\
         \x20   return \"${retval}\"\n\
         }\n\
         if [[ ${PROMPT_COMMAND:=} != *'__mkpath_hook'* ]]; then\n\
         \x20   PROMPT_COMMAND=\"__mkpath_hook;${PROMPT_COMMAND#;}\"\n\
         fi\n"
    );
    assert!(!script.contains("echo"));
}

#[test]
fn zsh_prompt_hook_is_bound_to_precmd() {
    let opts = Opts { cmd: Some("mk"), hook: InitHook::Prompt, echo: true };
    let script = init("zsh", &opts).unwrap();
    assert_eq!(
        script,
        "# mkpath: shell integration for zsh.\n\
         \n\
         function mk() {\n    \\command mkpath \"$@\"\n}\n\
         \n\
         # Hook: runs each time the prompt is displayed.\n\
         function __mkpath_hook() {\n\
         \x20   if [[ -r .mkpath ]]; then\n\
         \x20       \\builtin echo \"mk: creating what ${PWD}/.mkpath lists\"\n\
         \x20       mk $(< .mkpath)\n\
         \x20   fi\n\
         }\n\
         if (( ! ${precmd_functions[(I)__mkpath_hook]} )); then\n\
         \x20   precmd_functions+=(__mkpath_hook)\n\
         fi\n"
    );
    assert!(!script.contains("chpwd_functions"));
}

#[test]
fn zsh_pwd_hook_is_bound_to_chpwd() {
    let opts = Opts { cmd: None, hook: InitHook::Pwd, echo: false };
    let script = init("zsh", &opts).unwrap();
    assert_eq!(
        script,
        "# mkpath: shell integration for zsh.\n\
         \n\
         function mkpath() {\n    \\command mkpath \"$@\"\n}\n\
         \n\
         # Hook: runs each time the working directory changes.\n\
         function __mkpath_hook() {\n\
         \x20   if [[ -r .mkpath ]]; then\n\
         \x20       mkpath $(< .mkpath)\n\
         \x20   fi\n\
         }\n\
         if (( ! ${chpwd_functions[(I)__mkpath_hook]} )); then\n\
         \x20   chpwd_functions+=(__mkpath_hook)\n\
         fi\n"
    );
    assert!(!script.contains("precmd_functions"));
}

#[test]
fn every_pair_of_shell_and_options_gives_distinct_scripts_per_shell() {
    for hook in [InitHook::Off, InitHook::Prompt, InitHook::Pwd] {
        for echo in [false, true] {
            for cmd in [None, Some("j")] {
                let opts = Opts { cmd, hook, echo };
                let bash = render(Shell::Bash, &opts);
                let zsh = render(Shell::Zsh, &opts);
                assert_ne!(bash, zsh);
                let alias = cmd.unwrap_or("mkpath");
                assert!(bash.contains(&format!("function {}() {{", alias)));
                assert!(zsh.contains(&format!("function {}() {{", alias)));
                assert_eq!(bash.contains("__mkpath_hook"), hook != InitHook::Off);
                assert_eq!(zsh.contains("__mkpath_hook"), hook != InitHook::Off);
                assert_eq!(bash.contains("echo"), echo && hook != InitHook::Off);
            }
        }
    }
}

#[test]
fn init_agrees_with_render_for_the_recognized_names() {
    let opts = Opts { cmd: Some("j"), hook: InitHook::Prompt, echo: true };
    assert_eq!(init("bash", &opts).unwrap(), render(Shell::Bash, &opts));
    assert_eq!(init("zsh", &opts).unwrap(), render(Shell::Zsh, &opts));
}

#[test]
fn fish_is_refused_and_nothing_is_produced() {
    let result = init("fish", &PLAIN);
    assert_eq!(result, Err(UnsupportedShellError { shell: String::from("fish") }));
}

#[test]
fn refusal_names_the_identifier() {
    let err = init("fish", &PLAIN).unwrap_err();
    assert_eq!(err.shell, "fish");
    assert_eq!(err.message(), "Unsupported shell: fish");
}

#[test]
fn names_are_matched_exactly() {
    for name in ["", "Bash", "BASH", " bash", "bash ", "sh", "zsh5", "bashzsh"] {
        let err = init(name, &PLAIN).unwrap_err();
        assert_eq!(err.shell, name);
        assert_eq!(Shell::parse(name), None);
    }
}

#[test]
fn parse_and_name_are_inverse() {
    assert_eq!(Shell::parse("bash"), Some(Shell::Bash));
    assert_eq!(Shell::parse("zsh"), Some(Shell::Zsh));
    assert_eq!(Shell::Bash.name(), "bash");
    assert_eq!(Shell::Zsh.name(), "zsh");
    for shell in [Shell::Bash, Shell::Zsh] {
        assert_eq!(Shell::parse(shell.name()), Some(shell));
    }
}

#[test]
fn alias_is_the_given_one_or_the_default() {
    assert_eq!(PLAIN.alias(), "mkpath");
    let opts = Opts { cmd: Some("j"), hook: InitHook::Off, echo: false };
    assert_eq!(opts.alias(), "j");
}
