//! `/usage` — session token/cost; consumer accounts can also manage billing
//! and toggle the prompt chrome limit bar.
//!
//! External-auth deployments (`auth_provider_command`) never reach grok.com
//! billing, so the command is hidden and refused.
//!
//! Subcommands:
//! - `show` / bare — open the usage summary
//! - `manage` — billing (consumer only)
//! - `bar` / `bar on` / `bar off` — toggle the weekly/period limit bar on the
//!   prompt chrome (default on)

use vstd::prelude::*;
use crate::text::{chars_of, eq_ignore_ascii_case_chars, equals_exec, is_whitespace, is_ws, lower, string_of, trim, trim_chars, trim_start};

verus! {

/// Length of the run of non-whitespace chars that `s` begins with.
pub open spec fn word_len(s: Seq<char>) -> nat
    decreases s.len(),
{
    if s.len() > 0 && !is_ws(s[0]) {
        1 + word_len(s.drop_first())
    } else {
        0
    }
}

/// The first whitespace-separated word of `s` (empty when there is none).
pub open spec fn first_word(s: Seq<char>) -> Seq<char> {
    let t = trim_start(s);
    t.take(word_len(t) as int)
}

/// What follows the first word of `s`.
pub open spec fn after_first_word(s: Seq<char>) -> Seq<char> {
    let t = trim_start(s);
    t.skip(word_len(t) as int)
}

/// Bounds of the first word of `v[start..]`, and where the rest begins.
fn word_bounds(v: &Vec<char>, start: usize) -> (r: (usize, usize))
    requires
        start <= v.len(),
    ensures
        start <= r.0 <= r.1 <= v.len(),
        v@.subrange(r.0 as int, r.1 as int) == first_word(v@.skip(start as int)),
        v@.skip(r.1 as int) == after_first_word(v@.skip(start as int)),
{
    let n = v.len();
    let mut i: usize = start;
    while i < n && is_whitespace(v[i])
        invariant
            n == v.len(),
            start <= i <= n,
            trim_start(v@.skip(start as int)) == trim_start(v@.skip(i as int)),
        decreases n - i,
    {
        assert(v@.skip(i as int).drop_first() =~= v@.skip(i + 1));
        i = i + 1;
    }
    assert(trim_start(v@.skip(i as int)) == v@.skip(i as int));
    let mut j: usize = i;
    while j < n && !is_whitespace(v[j])
        invariant
            n == v.len(),
            i <= j <= n,
            word_len(v@.skip(i as int)) == (j - i) + word_len(v@.skip(j as int)),
        decreases n - j,
    {
        assert(v@.skip(j as int).drop_first() =~= v@.skip(j + 1));
        j = j + 1;
    }
    assert(word_len(v@.skip(j as int)) == 0);
    assert(v@.subrange(i as int, j as int) =~= v@.skip(i as int).take((j - i) as int));
    assert(v@.skip(j as int) =~= v@.skip(i as int).skip((j - i) as int));
    (i, j)
}

/// The verdict of `/usage bar [on|off]` on `arg`: `None` when the first word is
/// not `bar` (any ASCII case); the toggled `current` state for a bare `bar`;
/// `on`/`true` (any case) or `1` turn it on, `off`/`false` or `0` turn it off;
/// any other second word is refused.
pub open spec fn bar_arg(arg: Seq<char>, current: bool) -> Option<Result<bool, Seq<char>>> {
    let h = first_word(arg);
    let v = first_word(after_first_word(arg));
    if h.len() == 0 || lower(h) != lower("bar"@) {
        None
    } else if v.len() == 0 {
        Some(Ok(!current))
    } else if lower(v) == lower("on"@) || v == "1"@ || lower(v) == lower("true"@) {
        Some(Ok(true))
    } else if lower(v) == lower("off"@) || v == "0"@ || lower(v) == lower("false"@) {
        Some(Ok(false))
    } else {
        Some(Err("Unknown argument: bar "@ + v + ". Use /usage bar [on|off]"@))
    }
}

/// A bar verdict as values.
pub open spec fn bar_view(r: Option<Result<bool, String>>) -> Option<Result<bool, Seq<char>>> {
    match r {
        Some(Ok(b)) => Some(Ok(b)),
        Some(Err(m)) => Some(Err(m@)),
        None => None,
    }
}

/// Whether `a` equals `lit` up to ASCII case.
fn word_is(a: &Vec<char>, lit: &str) -> (b: bool)
    ensures
        b == (lower(a@) == lower(lit@)),
{
    let l = chars_of(lit);
    eq_ignore_ascii_case_chars(a, &l)
}

/// Whether `a` is exactly `lit`.
fn word_eq(a: &Vec<char>, lit: &str) -> (b: bool)
    ensures
        b == (a@ == lit@),
{
    let l = chars_of(lit);
    equals_exec(a, &l)
}

/// The chars `v[lo..hi]`.
fn slice_chars(v: &Vec<char>, lo: usize, hi: usize) -> (r: Vec<char>)
    requires
        lo <= hi <= v.len(),
    ensures
        r@ == v@.subrange(lo as int, hi as int),
{
    let mut r: Vec<char> = Vec::new();
    let mut i: usize = lo;
    while i < hi
        invariant
            lo <= i <= hi <= v.len(),
            r@ == v@.subrange(lo as int, i as int),
        decreases hi - i,
    {
        r.push(v[i]);
        assert(v@.subrange(lo as int, i + 1) =~= v@.subrange(lo as int, i as int).push(v@[i as int]));
        i = i + 1;
    }
    r
}

/// Parse `/usage bar [on|off]` → target visibility, or `None` if not a bar arg.
/// `current` is the persisted state a bare `bar` toggles.
pub fn parse_bar_arg(arg: &str, current: bool) -> (r: Option<Result<bool, String>>)
    ensures
        bar_view(r) == bar_arg(arg@, current),
{
    let v = chars_of(arg);
    let (h0, h1) = word_bounds(&v, 0);
    assert(v@.skip(0) =~= v@);
    let head = slice_chars(&v, h0, h1);
    if head.len() == 0 || !word_is(&head, "bar") {
        return None;
    }
    let (w0, w1) = word_bounds(&v, h1);
    let word = slice_chars(&v, w0, w1);
    if word.len() == 0 {
        return Some(Ok(!current));
    }
    if word_is(&word, "on") || word_eq(&word, "1") || word_is(&word, "true") {
        return Some(Ok(true));
    }
    if word_is(&word, "off") || word_eq(&word, "0") || word_is(&word, "false") {
        return Some(Ok(false));
    }
    let mut msg = String::from_str("Unknown argument: bar ");
    let w = string_of(&word);
    msg.append(w.as_str());
    msg.append(". Use /usage bar [on|off]");
    Some(Err(msg))
}

/// What the pager shows to the `/usage` command.
#[derive(Clone, Copy, Debug)]
pub struct AppCtx {
    /// False on external-auth deployments: the command is hidden and refused.
    pub usage_command_visible: bool,
    /// Consumer accounts: billing can be managed.
    pub billing_surface_visible: bool,
}

/// What the pager hands the `/usage` command when it runs.
#[derive(Clone, Copy, Debug)]
pub struct CommandExecCtx {
    pub usage_command_visible: bool,
    pub billing_surface_visible: bool,
    /// The persisted limit-bar state (`[ui].show_limit_bar`) that a bare `bar` toggles.
    pub show_limit_bar: bool,
}

/// One argument suggestion.
#[derive(Clone, Debug)]
pub struct ArgItem {
    pub display: String,
    pub match_text: String,
    pub insert_text: String,
    pub description: String,
}

/// An argument suggestion as values.
pub struct ArgItemView {
    pub display: Seq<char>,
    pub match_text: Seq<char>,
    pub insert_text: Seq<char>,
    pub description: Seq<char>,
}

impl View for ArgItem {
    type V = ArgItemView;

    open spec fn view(&self) -> ArgItemView {
        ArgItemView {
            display: self.display@,
            match_text: self.match_text@,
            insert_text: self.insert_text@,
            description: self.description@,
        }
    }
}

/// A pager action the command asks for.
#[derive(Clone, Copy, Debug, PartialEq, Eq, Structural)]
pub enum Action {
    SetLimitBar(bool),
    ShowUsage,
    ManageBilling,
}

/// What running a command yields.
#[derive(Clone, Debug)]
pub enum CommandResult {
    Action(Action),
    Error(String),
}

/// A command result as values.
pub enum CommandResultView {
    Action(Action),
    Error(Seq<char>),
}

impl View for CommandResult {
    type V = CommandResultView;

    open spec fn view(&self) -> CommandResultView {
        match self {
            CommandResult::Action(a) => CommandResultView::Action(*a),
            CommandResult::Error(m) => CommandResultView::Error(m@),
        }
    }
}

/// A suggestion whose display, match and insert texts are all `word`.
pub open spec fn item(word: Seq<char>, description: Seq<char>) -> ArgItemView {
    ArgItemView { display: word, match_text: word, insert_text: word, description }
}

fn make_item(word: &str, description: &str) -> (i: ArgItem)
    ensures
        i@ == item(word@, description@),
{
    ArgItem {
        display: String::from_str(word),
        match_text: String::from_str(word),
        insert_text: String::from_str(word),
        description: String::from_str(description),
    }
}

/// Suggestions as values.
pub open spec fn items_view(v: Seq<ArgItem>) -> Seq<ArgItemView> {
    v.map_values(|i: ArgItem| i@)
}

/// Optional suggestions as values.
pub open spec fn suggestions_view(o: Option<Vec<ArgItem>>) -> Option<Seq<ArgItemView>> {
    match o {
        Some(v) => Some(items_view(v@)),
        None => None,
    }
}

/// The `on` suggestion.
pub open spec fn on_item() -> ArgItemView {
    item("on"@, "Show the usage limit bar"@)
}

/// The `off` suggestion.
pub open spec fn off_item() -> ArgItemView {
    item("off"@, "Hide the usage limit bar"@)
}

/// The suggestions for the word after `bar`, kept when `after` is empty or a prefix of the word.
pub open spec fn bar_items(after: Seq<char>) -> Seq<ArgItemView> {
    let keep_on = after.len() == 0 || crate::text::starts_with("on"@, after);
    let keep_off = after.len() == 0 || crate::text::starts_with("off"@, after);
    (if keep_on { seq![on_item()] } else { seq![] }) + (if keep_off { seq![off_item()] } else { seq![] })
}

/// The top-level suggestions: `show`, `bar`, and `manage` when billing is visible.
pub open spec fn top_items(billing: bool) -> Seq<ArgItemView> {
    let base = seq![item("show"@, "View usage"@), item("bar"@, "Toggle usage limit bar on prompt"@)];
    if billing {
        base.push(item("manage"@, "Manage billing"@))
    } else {
        base
    }
}

/// The query (leading whitespace dropped) is `bar`, in any ASCII case, alone or
/// followed by a space.
pub open spec fn is_bar_query(q: Seq<char>) -> bool {
    crate::text::starts_with(lower(q), "bar"@) && (q.len() == 3 || q[3] == ' ')
}

/// Suggestions for `/usage <args_query>`.
pub open spec fn suggestions(ctx: AppCtx, args_query: Seq<char>) -> Option<Seq<ArgItemView>> {
    let q = trim_start(args_query);
    if !ctx.usage_command_visible {
        None
    } else if is_bar_query(q) {
        Some(bar_items(trim_start(q.skip(3))))
    } else {
        Some(top_items(ctx.billing_surface_visible))
    }
}

/// The result of `/usage <args>`.
pub open spec fn run_result(ctx: CommandExecCtx, args: Seq<char>) -> CommandResultView {
    let arg = trim(args);
    if !ctx.usage_command_visible {
        CommandResultView::Error("/usage is not available."@)
    } else if bar_arg(arg, ctx.show_limit_bar) is Some {
        match bar_arg(arg, ctx.show_limit_bar)->0 {
            Ok(b) => CommandResultView::Action(Action::SetLimitBar(b)),
            Err(m) => CommandResultView::Error(m),
        }
    } else if arg.len() == 0 || arg == "show"@ {
        CommandResultView::Action(Action::ShowUsage)
    } else if !ctx.billing_surface_visible {
        CommandResultView::Error("Unknown argument: "@ + arg + ". Use /usage [show|bar [on|off]]"@)
    } else if arg == "manage"@ {
        CommandResultView::Action(Action::ManageBilling)
    } else {
        CommandResultView::Error(
            "Unknown argument: "@ + arg + ". Use /usage show, /usage manage, or /usage bar [on|off]"@,
        )
    }
}

/// The first chars of `v` from `start` on that are not whitespace begin at the result.
fn skip_ws_from(v: &Vec<char>, start: usize) -> (i: usize)
    requires
        start <= v.len(),
    ensures
        start <= i <= v.len(),
        v@.skip(i as int) == trim_start(v@.skip(start as int)),
{
    let n = v.len();
    let mut i: usize = start;
    while i < n && is_whitespace(v[i])
        invariant
            n == v.len(),
            start <= i <= n,
            trim_start(v@.skip(start as int)) == trim_start(v@.skip(i as int)),
        decreases n - i,
    {
        assert(v@.skip(i as int).drop_first() =~= v@.skip(i + 1));
        i = i + 1;
    }
    i
}

/// Whether `lit` begins with the chars `v[from..]`.
fn lit_starts_with(lit: &str, v: &Vec<char>, from: usize) -> (b: bool)
    requires
        from <= v.len(),
    ensures
        b == crate::text::starts_with(lit@, v@.skip(from as int)),
{
    let l = chars_of(lit);
    let tail = slice_chars(v, from, v.len());
    assert(tail@ =~= v@.skip(from as int));
    crate::text::starts_with_exec(&l, &tail)
}

/// The `/usage` slash command.
pub struct UsageCommand;

impl UsageCommand {
    pub fn name(&self) -> (s: &'static str)
        ensures
            s@ == "usage"@,
    {
        "usage"
    }

    pub fn aliases(&self) -> (v: Vec<&'static str>)
        ensures
            v@.len() == 1,
            v@[0]@ == "cost"@,
    {
        let mut v: Vec<&'static str> = Vec::new();
        v.push("cost");
        v
    }

    pub fn description(&self) -> (s: &'static str)
        ensures
            s@ == "View usage; toggle limit bar"@,
    {
        "View usage; toggle limit bar"
    }

    pub fn usage(&self) -> (s: &'static str)
        ensures
            s@ == "/usage [show|manage|bar [on|off]]"@,
    {
        "/usage [show|manage|bar [on|off]]"
    }

    pub fn takes_args(&self) -> (b: bool)
        ensures
            b,
    {
        true
    }

    pub fn visible(&self, ctx: &AppCtx) -> (b: bool)
        ensures
            b == ctx.usage_command_visible,
    {
        ctx.usage_command_visible
    }

    /// Always offer args when the command is visible so `/usage bar` works
    /// even when the full billing surface is hidden.
    pub fn takes_args_now(&self, ctx: &AppCtx) -> (b: bool)
        ensures
            b == ctx.usage_command_visible,
    {
        ctx.usage_command_visible
    }

    /// Suggestions for the argument being typed.
    pub fn suggest_args(&self, ctx: &AppCtx, args_query: &str) -> (r: Option<Vec<ArgItem>>)
        ensures
            suggestions_view(r) == suggestions(*ctx, args_query@),
    {
        if !ctx.usage_command_visible {
            return None;
        }
        let v = chars_of(args_query);
        let s = skip_ws_from(&v, 0);
        assert(v@.skip(0) =~= v@);
        let q = slice_chars(&v, s, v.len());
        assert(q@ =~= v@.skip(s as int));
        let lq = crate::text::lower_chars(&q);
        let bar = chars_of("bar");
        if crate::text::starts_with_exec(&lq, &bar) {
            proof {
                reveal_strlit("bar");
            }
            assert(q.len() >= 3);
            if q.len() == 3 || q[3] == ' ' {
                let a = skip_ws_from(&q, 3);
                let mut items: Vec<ArgItem> = Vec::new();
                let keep_on = a == q.len() || lit_starts_with("on", &q, a);
                let keep_off = a == q.len() || lit_starts_with("off", &q, a);
                if keep_on {
                    items.push(make_item("on", "Show the usage limit bar"));
                }
                if keep_off {
                    items.push(make_item("off", "Hide the usage limit bar"));
                }
                assert(items_view(items@) =~= bar_items(trim_start(q@.skip(3))));
                return Some(items);
            }
        }
        let mut items: Vec<ArgItem> = Vec::new();
        items.push(make_item("show", "View usage"));
        items.push(make_item("bar", "Toggle usage limit bar on prompt"));
        if ctx.billing_surface_visible {
            items.push(make_item("manage", "Manage billing"));
        }
        assert(items_view(items@) =~= top_items(ctx.billing_surface_visible));
        Some(items)
    }

    /// Run `/usage <args>`.
    pub fn run(&self, ctx: &CommandExecCtx, args: &str) -> (r: CommandResult)
        ensures
            r@ == run_result(*ctx, args@),
    {
        if !ctx.usage_command_visible {
            return CommandResult::Error(String::from_str("/usage is not available."));
        }
        let v = chars_of(args);
        let t = trim_chars(&v);
        let arg = string_of(&t);
        if let Some(bar) = parse_bar_arg(arg.as_str(), ctx.show_limit_bar) {
            return match bar {
                Ok(new) => CommandResult::Action(Action::SetLimitBar(new)),
                Err(msg) => CommandResult::Error(msg),
            };
        }
        if t.len() == 0 || word_eq(&t, "show") {
            return CommandResult::Action(Action::ShowUsage);
        }
        if !ctx.billing_surface_visible {
            let mut msg = String::from_str("Unknown argument: ");
            msg.append(arg.as_str());
            msg.append(". Use /usage [show|bar [on|off]]");
            return CommandResult::Error(msg);
        }
        if word_eq(&t, "manage") {
            return CommandResult::Action(Action::ManageBilling);
        }
        let mut msg = String::from_str("Unknown argument: ");
        msg.append(arg.as_str());
        msg.append(". Use /usage show, /usage manage, or /usage bar [on|off]");
        CommandResult::Error(msg)
    }
}

/// An auth method as the external-auth check reads it: the boolean stored under
/// `external_provider` in its meta, when there is one.
#[derive(Clone, Copy, Debug)]
pub struct AuthMethodMeta {
    pub external_provider: Option<bool>,
}

/// `s` holds something besides whitespace.
pub open spec fn nonblank(s: Option<Seq<char>>) -> bool {
    s is Some && trim(s->0).len() > 0
}

/// An optional string as values.
pub open spec fn opt_view(s: Option<&str>) -> Option<Seq<char>> {
    match s {
        Some(x) => Some(x@),
        None => None,
    }
}

fn is_nonblank(s: Option<&str>) -> (b: bool)
    ensures
        b == nonblank(opt_view(s)),
{
    match s {
        Some(x) => {
            let v = chars_of(x);
            let t = trim_chars(&v);
            t.len() > 0
        },
        None => false,
    }
}

/// The method's meta marks it as an external provider.
pub fn auth_method_is_external_provider(method: &AuthMethodMeta) -> (b: bool)
    ensures
        b == (method.external_provider == Some(true)),
{
    match method.external_provider {
        Some(b) => b,
        None => false,
    }
}

/// `GROK_AUTH_PROVIDER_COMMAND` (its value, when set) names a command.
pub fn auth_provider_env_set(value: Option<&str>) -> (b: bool)
    ensures
        b == nonblank(opt_view(value)),
{
    is_nonblank(value)
}

/// The effective config's `auth_provider_command` (`None` when the config does
/// not load or has none) names a command.
pub fn auth_provider_config_set(command: Option<&str>) -> (b: bool)
    ensures
        b == nonblank(opt_view(command)),
{
    is_nonblank(command)
}

/// External-auth install: some auth method is an external provider, or the
/// environment or the config names a provider command.
pub fn detect_external_auth_provider(
    auth_methods: &[AuthMethodMeta],
    env_command: Option<&str>,
    config_command: Option<&str>,
) -> (b: bool)
    ensures
        b == ((exists|i: int| 0 <= i < auth_methods@.len() && #[trigger] auth_methods@[i].external_provider == Some(true))
            || nonblank(opt_view(env_command)) || nonblank(opt_view(config_command))),
{
    let mut i: usize = 0;
    while i < auth_methods.len()
        invariant
            i <= auth_methods.len(),
            forall|j: int| 0 <= j < i ==> #[trigger] auth_methods@[j].external_provider != Some(true),
        decreases auth_methods.len() - i,
    {
        if auth_method_is_external_provider(&auth_methods[i]) {
            assert(auth_methods@[i as int].external_provider == Some(true));
            return true;
        }
        i = i + 1;
    }
    auth_provider_env_set(env_command) || auth_provider_config_set(config_command)
}

} // verus!
