use groka::usage::{
    auth_provider_config_set, auth_provider_env_set, detect_external_auth_provider, parse_bar_arg, Action, AppCtx,
    AuthMethodMeta, CommandExecCtx, CommandResult, UsageCommand,
};

fn exec(visible: bool, billing: bool, bar: bool) -> CommandExecCtx {
    CommandExecCtx { usage_command_visible: visible, billing_surface_visible: billing, show_limit_bar: bar }
}

fn action(r: CommandResult) -> Action {
    match r {
        CommandResult::Action(a) => a,
        CommandResult::Error(m) => panic!("expected an action, got error {m}"),
    }
}

fn error(r: CommandResult) -> String {
    match r {
        CommandResult::Error(m) => m,
        CommandResult::Action(a) => panic!("expected an error, got {a:?}"),
    }
}

#[test]
fn usage_bar_arg_variants() {
    assert_eq!(parse_bar_arg("bar", true), Some(Ok(false)));
    assert_eq!(parse_bar_arg("  BAR  ", false), Some(Ok(true)));
    assert_eq!(parse_bar_arg("bar on", false), Some(Ok(true)));
    assert_eq!(parse_bar_arg("bar TRUE", false), Some(Ok(true)));
    assert_eq!(parse_bar_arg("bar 1 extra", false), Some(Ok(true)));
    assert_eq!(parse_bar_arg("bar\toff", true), Some(Ok(false)));
    assert_eq!(parse_bar_arg("Bar False", true), Some(Ok(false)));
    assert_eq!(parse_bar_arg("bar 0", true), Some(Ok(false)));
    assert_eq!(
        parse_bar_arg("bar maybe", true),
        Some(Err("Unknown argument: bar maybe. Use /usage bar [on|off]".to_string()))
    );
    assert_eq!(parse_bar_arg("show", true), None);
    assert_eq!(parse_bar_arg("", true), None);
    assert_eq!(parse_bar_arg("barn", true), None);
}

#[test]
fn usage_run_hidden_is_refused() {
    let cmd = UsageCommand;
    assert_eq!(error(cmd.run(&exec(false, true, true), "show")), "/usage is not available.");
}

#[test]
fn usage_run_consumer() {
    let cmd = UsageCommand;
    let ctx = exec(true, true, true);
    assert_eq!(action(cmd.run(&ctx, "")), Action::ShowUsage);
    assert_eq!(action(cmd.run(&ctx, " show ")), Action::ShowUsage);
    assert_eq!(action(cmd.run(&ctx, "manage")), Action::ManageBilling);
    assert_eq!(action(cmd.run(&ctx, "bar")), Action::SetLimitBar(false));
    assert_eq!(action(cmd.run(&ctx, "bar on")), Action::SetLimitBar(true));
    assert_eq!(error(cmd.run(&ctx, "bar x")), "Unknown argument: bar x. Use /usage bar [on|off]");
    assert_eq!(
        error(cmd.run(&ctx, "  weird ")),
        "Unknown argument: weird. Use /usage show, /usage manage, or /usage bar [on|off]"
    );
}

#[test]
fn usage_run_without_billing() {
    let cmd = UsageCommand;
    let ctx = exec(true, false, false);
    assert_eq!(action(cmd.run(&ctx, "show")), Action::ShowUsage);
    assert_eq!(action(cmd.run(&ctx, "bar")), Action::SetLimitBar(true));
    assert_eq!(error(cmd.run(&ctx, "manage")), "Unknown argument: manage. Use /usage [show|bar [on|off]]");
}

#[test]
fn usage_metadata() {
    let cmd = UsageCommand;
    let ctx = AppCtx { usage_command_visible: true, billing_surface_visible: false };
    assert_eq!(cmd.name(), "usage");
    assert_eq!(cmd.aliases(), vec!["cost"]);
    assert_eq!(cmd.description(), "View usage; toggle limit bar");
    assert_eq!(cmd.usage(), "/usage [show|manage|bar [on|off]]");
    assert!(cmd.takes_args());
    assert!(cmd.visible(&ctx));
    assert!(cmd.takes_args_now(&ctx));
    let hidden = AppCtx { usage_command_visible: false, billing_surface_visible: true };
    assert!(!cmd.visible(&hidden));
    assert!(!cmd.takes_args_now(&hidden));
}

fn texts(items: Option<Vec<groka::usage::ArgItem>>) -> Vec<String> {
    items.unwrap().into_iter().map(|i| i.match_text).collect()
}

#[test]
fn usage_suggestions() {
    let cmd = UsageCommand;
    let consumer = AppCtx { usage_command_visible: true, billing_surface_visible: true };
    let gateway = AppCtx { usage_command_visible: true, billing_surface_visible: false };
    let hidden = AppCtx { usage_command_visible: false, billing_surface_visible: true };
    assert!(cmd.suggest_args(&hidden, "").is_none());
    assert_eq!(texts(cmd.suggest_args(&consumer, "")), vec!["show", "bar", "manage"]);
    assert_eq!(texts(cmd.suggest_args(&gateway, "s")), vec!["show", "bar"]);
    assert_eq!(texts(cmd.suggest_args(&gateway, "  bar")), vec!["on", "off"]);
    assert_eq!(texts(cmd.suggest_args(&gateway, "BAR o")), vec!["on", "off"]);
    assert_eq!(texts(cmd.suggest_args(&gateway, "bar of")), vec!["off"]);
    assert_eq!(texts(cmd.suggest_args(&gateway, "bar x")), Vec::<String>::new());
    assert_eq!(texts(cmd.suggest_args(&gateway, "barx")), vec!["show", "bar"]);
    let items = cmd.suggest_args(&gateway, "bar ").unwrap();
    assert_eq!(items[0].description, "Show the usage limit bar");
    assert_eq!(items[1].display, "off");
}

#[test]
fn usage_external_auth_detection() {
    let ext = AuthMethodMeta { external_provider: Some(true) };
    let plain = AuthMethodMeta { external_provider: None };
    let off = AuthMethodMeta { external_provider: Some(false) };
    assert!(detect_external_auth_provider(&[plain, ext], None, None));
    assert!(!detect_external_auth_provider(&[plain, off], None, None));
    assert!(detect_external_auth_provider(&[], Some("/bin/provider"), None));
    assert!(!detect_external_auth_provider(&[], Some("   "), Some("")));
    assert!(detect_external_auth_provider(&[], None, Some(" cmd ")));
    assert!(auth_provider_env_set(Some("x")));
    assert!(!auth_provider_env_set(None));
    assert!(!auth_provider_config_set(Some("\t")));
}
