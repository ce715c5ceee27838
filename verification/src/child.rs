//! How the agent process is set up: the model it runs with, where its sessions
//! live, the arguments it is started with, and when it has to be restarted.

use vstd::prelude::*;
use vstd::string::*;
use vstd::utf8::*;

use crate::text::{
    ascii_lower, ascii_lowercase, lowercase, option_text_eq, text_eq, to_lowercase, trim, trimmed,
};

verus! {

/// The environment variables that set up the agent, each absent where it is
/// not set.
#[derive(Debug)]
pub struct PiEnv {
    /// `PI_BIN`
    pub bin: Option<String>,
    /// `PI_MODEL`
    pub model: Option<String>,
    /// `PI_MODEL_PROVIDER`
    pub model_provider: Option<String>,
    /// `PI_THINKING_LEVEL`
    pub thinking_level: Option<String>,
    /// `PI_SESSION_DIR`
    pub session_dir: Option<String>,
    /// `CENTAUR_STATE_DIR`
    pub state_dir: Option<String>,
}

/// What a [`PiEnv`] is.
pub struct EnvView {
    pub bin: Option<Seq<char>>,
    pub model: Option<Seq<char>>,
    pub model_provider: Option<Seq<char>>,
    pub thinking_level: Option<Seq<char>>,
    pub session_dir: Option<Seq<char>>,
    pub state_dir: Option<Seq<char>>,
}

impl View for PiEnv {
    type V = EnvView;

    open spec fn view(&self) -> EnvView {
        EnvView {
            bin: self.bin.deep_view(),
            model: self.model.deep_view(),
            model_provider: self.model_provider.deep_view(),
            thinking_level: self.thinking_level.deep_view(),
            session_dir: self.session_dir.deep_view(),
            state_dir: self.state_dir.deep_view(),
        }
    }
}

/// What the agent was started with. A part that is absent is left to the
/// agent's own defaults.
#[derive(Debug)]
pub struct ChildOverrides {
    pub model: Option<String>,
    pub provider: Option<String>,
    pub thinking: Option<String>,
}

/// What a [`ChildOverrides`] is.
pub struct OverridesView {
    pub model: Option<Seq<char>>,
    pub provider: Option<Seq<char>>,
    pub thinking: Option<Seq<char>>,
}

impl View for ChildOverrides {
    type V = OverridesView;

    open spec fn view(&self) -> OverridesView {
        OverridesView {
            model: self.model.deep_view(),
            provider: self.provider.deep_view(),
            thinking: self.thinking.deep_view(),
        }
    }
}

/// The thinking level that a lower-case word names. `none` is another word for
/// `off`; a word that names no level is dropped.
pub open spec fn named_level(word: Seq<char>) -> Option<Seq<char>> {
    if word == "none"@ || word == "off"@ {
        Some("off"@)
    } else if word == "minimal"@ || word == "low"@ || word == "medium"@ || word == "high"@ || word
        == "xhigh"@ || word == "max"@ {
        Some(word)
    } else {
        None
    }
}

/// The thinking level that a lower-case word names.
pub fn level_of_word(word: String) -> (level: Option<String>)
    ensures
        level.deep_view() == named_level(word@),
{
    let w = word.as_str();
    if text_eq(w, "none") || text_eq(w, "off") {
        Some("off".to_owned())
    } else if text_eq(w, "minimal") || text_eq(w, "low") || text_eq(w, "medium") || text_eq(
        w,
        "high",
    ) || text_eq(w, "xhigh") || text_eq(w, "max") {
        Some(word)
    } else {
        None
    }
}

/// The word that a reasoning effort comes down to: without the white space
/// around it and in lower case.
pub open spec fn effort_word(value: Seq<char>) -> Seq<char> {
    let core = ascii_lowercase(trimmed(value));
    if is_ascii_chars(core) {
        core
    } else {
        lowercase(core)
    }
}

/// Putting the ASCII letters in lower case leaves a text ASCII or not, as it was.
proof fn lemma_ascii_lowercase_is_ascii(text: Seq<char>)
    ensures
        is_ascii_chars(ascii_lowercase(text)) <==> is_ascii_chars(text),
{
    let lower = ascii_lowercase(text);
    assert forall|i: int| 0 <= i < text.len() implies ('\0' <= #[trigger] lower[i] <= '\u{7f}'
        <==> '\0' <= text[i] <= '\u{7f}') by {
        assert(lower[i] == ascii_lower(text[i]));
    }
    if is_ascii_chars(lower) {
        assert forall|i: int| 0 <= i < text.len() implies '\0' <= #[trigger] text[i]
            <= '\u{7f}' by {
            assert('\0' <= lower[i] <= '\u{7f}');
        }
    }
}

/// The thinking level that a reasoning effort stands for.
pub open spec fn thinking_level(value: Seq<char>) -> Option<Seq<char>> {
    named_level(effort_word(value))
}

/// Maps a reasoning effort onto a thinking level. A value that names none is
/// dropped rather than passed on, so that a typo cannot stop the agent from
/// starting.
pub fn map_thinking_level(value: &str) -> (level: Option<String>)
    ensures
        level.deep_view() == thinking_level(value@),
        level.deep_view() == named_level(lowercase(trimmed(value@))),
{
    proof {
        lemma_ascii_lowercase_is_ascii(trimmed(value@));
    }
    level_of_word(to_lowercase(trim(value)))
}

/// The text without the white space around it, where anything is left of it.
pub open spec fn filled(value: Option<Seq<char>>) -> Option<Seq<char>> {
    match value {
        Some(text) => if trimmed(text).len() > 0 {
            Some(trimmed(text))
        } else {
            None
        },
        None => None,
    }
}

/// The first, or else the second.
pub open spec fn either(first: Option<Seq<char>>, second: Option<Seq<char>>) -> Option<Seq<char>> {
    if first is Some {
        first
    } else {
        second
    }
}

/// The text without the white space around it, where anything is left of it.
pub fn filled_text(value: &Option<String>) -> (result: Option<String>)
    ensures
        result.deep_view() == filled(value.deep_view()),
{
    match value {
        Some(text) => {
            let core = trim(text.as_str());
            if core.is_empty() {
                None
            } else {
                Some(core.to_owned())
            }
        },
        None => None,
    }
}

/// The value that a message asks for, or else the one that the environment
/// sets. A blank value counts as none.
pub fn normalized_override(value: Option<String>, from_env: &Option<String>) -> (result: Option<
    String,
>)
    ensures
        result.deep_view() == either(filled(value.deep_view()), filled(from_env.deep_view())),
{
    match filled_text(&value) {
        Some(text) => Some(text),
        None => filled_text(from_env),
    }
}

/// The level that an optional value names.
pub open spec fn optional_level(value: Option<Seq<char>>) -> Option<Seq<char>> {
    match value {
        Some(text) => thinking_level(text),
        None => None,
    }
}

/// What a message with these wishes is to run with.
pub open spec fn wanted_overrides(
    model: Option<Seq<char>>,
    provider: Option<Seq<char>>,
    reasoning: Option<Seq<char>>,
    env: EnvView,
) -> OverridesView {
    OverridesView {
        model: either(filled(model), filled(env.model)),
        provider: either(filled(provider), filled(env.model_provider)),
        thinking: either(optional_level(reasoning), optional_level(env.thinking_level)),
    }
}

/// What a message with these wishes is to run with.
pub fn resolve_overrides(
    model: Option<String>,
    provider: Option<String>,
    reasoning: Option<String>,
    env: &PiEnv,
) -> (overrides: ChildOverrides)
    ensures
        overrides@ == wanted_overrides(
            model.deep_view(),
            provider.deep_view(),
            reasoning.deep_view(),
            env@,
        ),
{
    let from_message = match &reasoning {
        Some(text) => map_thinking_level(text.as_str()),
        None => None,
    };
    let thinking = match from_message {
        Some(level) => Some(level),
        None => match &env.thinking_level {
            Some(text) => map_thinking_level(text.as_str()),
            None => None,
        },
    };
    ChildOverrides {
        model: normalized_override(model, &env.model),
        provider: normalized_override(provider, &env.model_provider),
        thinking,
    }
}

/// What to do about the agent process before a turn.
#[derive(Debug)]
pub enum ChildPlan {
    /// The process that runs serves the turn.
    Keep,
    /// A process is to be started with these overrides; `replace` says that
    /// one with other overrides runs and has to go first.
    Start { overrides: ChildOverrides, replace: bool },
}

/// What a [`ChildPlan`] is.
pub enum PlanView {
    Keep,
    Start { overrides: OverridesView, replace: bool },
}

impl View for ChildPlan {
    type V = PlanView;

    open spec fn view(&self) -> PlanView {
        match *self {
            ChildPlan::Keep => PlanView::Keep,
            ChildPlan::Start { overrides, replace } => PlanView::Start {
                overrides: overrides@,
                replace,
            },
        }
    }
}

/// The process is kept where it runs with what is wanted, and started
/// otherwise.
pub open spec fn child_plan(current: Option<OverridesView>, wanted: OverridesView) -> PlanView {
    if current == Some(wanted) {
        PlanView::Keep
    } else {
        PlanView::Start { overrides: wanted, replace: current is Some }
    }
}

/// What to do about the agent process before a turn whose message has these
/// wishes: it is started on first use, and restarted when the model, the
/// provider or the thinking level changes.
pub fn ensure_child(
    current: Option<&ChildOverrides>,
    model: Option<String>,
    provider: Option<String>,
    reasoning: Option<String>,
    env: &PiEnv,
) -> (plan: ChildPlan)
    ensures
        plan@ == child_plan(
            (match current {
                Some(overrides) => Some(overrides@),
                None => None,
            }),
            wanted_overrides(
                model.deep_view(),
                provider.deep_view(),
                reasoning.deep_view(),
                env@,
            ),
        ),
{
    let wanted = resolve_overrides(model, provider, reasoning, env);
    match current {
        Some(overrides) => {
            let same = option_text_eq(&overrides.model, &wanted.model) && option_text_eq(
                &overrides.provider,
                &wanted.provider,
            ) && option_text_eq(&overrides.thinking, &wanted.thinking);
            if same {
                ChildPlan::Keep
            } else {
                ChildPlan::Start { overrides: wanted, replace: true }
            }
        },
        None => ChildPlan::Start { overrides: wanted, replace: false },
    }
}

/// A path: a base, and the segments that are joined onto it in turn.
#[derive(Debug)]
pub struct SessionPath {
    pub base: String,
    pub segments: Vec<String>,
}

/// What a [`SessionPath`] is.
pub struct PathView {
    pub base: Seq<char>,
    pub segments: Seq<Seq<char>>,
}

impl View for SessionPath {
    type V = PathView;

    open spec fn view(&self) -> PathView {
        PathView {
            base: self.base@,
            segments: self.segments@.map_values(|segment: String| segment@),
        }
    }
}

/// What an optional path is.
pub open spec fn option_path(path: Option<SessionPath>) -> Option<PathView> {
    match path {
        Some(path) => Some(path@),
        None => None,
    }
}

/// Where the sessions live: in the directory that is set for them, or else in
/// `pi` under the state directory.
pub open spec fn session_path(env: EnvView) -> Option<PathView> {
    match filled(env.session_dir) {
        Some(dir) => Some(PathView { base: dir, segments: Seq::empty() }),
        None => match env.state_dir {
            Some(state) => Some(PathView { base: state, segments: seq!["pi"@] }),
            None => None,
        },
    }
}

/// Where the sessions live.
pub fn session_dir(env: &PiEnv) -> (path: Option<SessionPath>)
    ensures
        option_path(path) == session_path(env@),
{
    match filled_text(&env.session_dir) {
        Some(base) => {
            let path = SessionPath { base, segments: Vec::new() };
            assert(path@.segments =~= Seq::empty());
            Some(path)
        },
        None => match &env.state_dir {
            Some(state) => {
                let mut segments: Vec<String> = Vec::new();
                segments.push("pi".to_owned());
                let path = SessionPath { base: state.clone(), segments };
                assert(path@.segments =~= seq!["pi"@]);
                Some(path)
            },
            None => None,
        },
    }
}

/// The file that says a session was begun: next to the sessions, so that both
/// go together.
pub open spec fn marker_path(env: EnvView) -> Option<PathView> {
    match session_path(env) {
        Some(dir) => Some(
            PathView { base: dir.base, segments: dir.segments.push(".centaur-pi-started"@) },
        ),
        None => None,
    }
}

/// The file that says a session was begun. The first process starts afresh;
/// with the file there, a later one resumes.
pub fn resume_marker_path(env: &PiEnv) -> (path: Option<SessionPath>)
    ensures
        option_path(path) == marker_path(env@),
{
    match session_dir(env) {
        Some(dir) => {
            let ghost before = dir@.segments;
            let mut segments = dir.segments;
            segments.push(".centaur-pi-started".to_owned());
            let path = SessionPath { base: dir.base, segments };
            assert(path@.segments =~= before.push(".centaur-pi-started"@));
            Some(path)
        },
        None => None,
    }
}

/// The program to start.
pub open spec fn program(env: EnvView) -> Seq<char> {
    match env.bin {
        Some(bin) => bin,
        None => "pi"@,
    }
}

/// The program to start.
pub fn child_program(env: &PiEnv) -> (result: String)
    ensures
        result@ == program(env@),
{
    match &env.bin {
        Some(bin) => bin.clone(),
        None => "pi".to_owned(),
    }
}

/// An argument of the program.
#[derive(Debug)]
pub enum ChildArg {
    Text(String),
    Path(SessionPath),
}

/// What a [`ChildArg`] is.
pub enum ArgView {
    Text(Seq<char>),
    Path(PathView),
}

impl View for ChildArg {
    type V = ArgView;

    open spec fn view(&self) -> ArgView {
        match *self {
            ChildArg::Text(text) => ArgView::Text(text@),
            ChildArg::Path(path) => ArgView::Path(path@),
        }
    }
}

/// What a list of arguments is.
pub open spec fn arg_views(args: Seq<ChildArg>) -> Seq<ArgView> {
    args.map_values(|arg: ChildArg| arg@)
}

/// A flag and its value, where there is one.
pub open spec fn flag_args(flag: Seq<char>, value: Option<Seq<char>>) -> Seq<ArgView> {
    match value {
        Some(value) => seq![ArgView::Text(flag), ArgView::Text(value)],
        None => Seq::empty(),
    }
}

/// The arguments of a process with these overrides: the RPC mode without what
/// only an interactive user needs, the overrides, the place of the sessions,
/// and whether to resume the last one.
pub open spec fn start_args(overrides: OverridesView, env: EnvView, resume: bool) -> Seq<ArgView> {
    seq![
        ArgView::Text("--mode"@),
        ArgView::Text("rpc"@),
        ArgView::Text("--no-themes"@),
        ArgView::Text("--no-prompt-templates"@),
    ] + flag_args("--provider"@, overrides.provider) + flag_args("--model"@, overrides.model)
        + flag_args("--thinking"@, overrides.thinking) + (match session_path(env) {
        Some(dir) => seq![ArgView::Text("--session-dir"@), ArgView::Path(dir)],
        None => Seq::empty(),
    }) + (if resume {
        seq![ArgView::Text("--continue"@)]
    } else {
        Seq::empty()
    })
}

fn push_text(args: &mut Vec<ChildArg>, text: &str)
    ensures
        arg_views(final(args)@) == arg_views(old(args)@).push(ArgView::Text(text@)),
{
    args.push(ChildArg::Text(text.to_owned()));
    assert(arg_views(args@) =~= arg_views(old(args)@).push(ArgView::Text(text@)));
}

fn push_flag(args: &mut Vec<ChildArg>, flag: &str, value: &Option<String>)
    ensures
        arg_views(final(args)@) == arg_views(old(args)@) + flag_args(flag@, value.deep_view()),
{
    if let Some(value) = value {
        push_text(args, flag);
        push_text(args, value.as_str());
    }
    assert(arg_views(args@) =~= arg_views(old(args)@) + flag_args(flag@, value.deep_view()));
}

/// The arguments of a process with these overrides.
pub fn child_args(overrides: &ChildOverrides, env: &PiEnv, resume: bool) -> (args: Vec<ChildArg>)
    ensures
        arg_views(args@) == start_args(overrides@, env@, resume),
{
    let mut args: Vec<ChildArg> = Vec::new();
    push_text(&mut args, "--mode");
    push_text(&mut args, "rpc");
    push_text(&mut args, "--no-themes");
    push_text(&mut args, "--no-prompt-templates");
    push_flag(&mut args, "--provider", &overrides.provider);
    push_flag(&mut args, "--model", &overrides.model);
    push_flag(&mut args, "--thinking", &overrides.thinking);
    if let Some(dir) = session_dir(env) {
        push_text(&mut args, "--session-dir");
        let ghost middle = arg_views(args@);
        let ghost place = ArgView::Path(dir@);
        args.push(ChildArg::Path(dir));
        assert(arg_views(args@) =~= middle.push(place));
    }
    if resume {
        push_text(&mut args, "--continue");
    }
    assert(arg_views(args@) =~= start_args(overrides@, env@, resume));
    args
}

/// How to start a process: the program and its arguments, the directory that
/// has to be there first, and the file to leave behind once it runs.
#[derive(Debug)]
pub struct StartPlan {
    pub program: String,
    pub args: Vec<ChildArg>,
    pub directory: Option<SessionPath>,
    pub marker: Option<SessionPath>,
}

/// Whether a process resumes the last session: where sessions have a place and
/// the marker of a begun one is in it.
pub open spec fn resumes(env: EnvView, marker_exists: bool) -> bool {
    marker_path(env) is Some && marker_exists
}

/// How to start a process with these overrides, where the marker of a begun
/// session exists or not. The first process of a session leaves the marker;
/// every later one finds it and resumes.
pub fn start_plan(overrides: &ChildOverrides, env: &PiEnv, marker_exists: bool) -> (plan:
    StartPlan)
    ensures
        plan.program@ == program(env@),
        arg_views(plan.args@) == start_args(overrides@, env@, resumes(env@, marker_exists)),
        option_path(plan.directory) == session_path(env@),
        option_path(plan.marker) == marker_path(env@),
{
    let marker = resume_marker_path(env);
    let resume = marker.is_some() && marker_exists;
    StartPlan {
        program: child_program(env),
        args: child_args(overrides, env, resume),
        directory: session_dir(env),
        marker,
    }
}

/// The file to leave behind after an attempt to start the process, of a plan
/// with this marker: the marker where the process runs, none where it does not.
pub fn marker_to_leave(marker: Option<SessionPath>, started: bool) -> (left: Option<SessionPath>)
    ensures
        left == (if started {
            marker
        } else {
            None
        }),
{
    if started {
        marker
    } else {
        None
    }
}

} // verus!
