//! How the agent process is planned and started, stated of the wishes of the
//! message, the variables of the environment and the plan that comes out.

use vstd::prelude::*;
use vstd::utf8::*;

use crate::child::{
    ArgView, ChildArg, ChildOverrides, ChildPlan, EnvView, OverridesView, PiEnv, SessionPath,
    StartPlan, arg_views, child_args, child_program, ensure_child, level_of_word,
    map_thinking_level, marker_path, marker_to_leave, normalized_override, resolve_overrides,
    resume_marker_path, session_dir, session_path, start_args, start_plan, thinking_level,
    wanted_overrides,
};
use crate::text::{ascii_lowercase, lowercase, trimmed};

verus! {

/// The characters of an optional text.
pub open spec fn text_of(text: Option<String>) -> Option<Seq<char>> {
    match text {
        Some(text) => Some(text@),
        None => None,
    }
}

// ---------------------------------------------------------------------------
// What a message is to run with
// ---------------------------------------------------------------------------

/// The wish of the message where it is not blank, or else the variable where
/// that is not blank, either without the white space around it.
pub open spec fn wish(value: Option<Seq<char>>, variable: Option<Seq<char>>) -> Option<Seq<char>> {
    if value is Some && trimmed(value->0).len() > 0 {
        Some(trimmed(value->0))
    } else if variable is Some && trimmed(variable->0).len() > 0 {
        Some(trimmed(variable->0))
    } else {
        None
    }
}

/// The level that the effort of the message names, or else the one that the
/// variable names.
pub open spec fn wished_level(
    effort: Option<Seq<char>>,
    variable: Option<Seq<char>>,
) -> Option<Seq<char>> {
    if effort is Some && thinking_level(effort->0) is Some {
        thinking_level(effort->0)
    } else if variable is Some {
        thinking_level(variable->0)
    } else {
        None
    }
}

/// The wish of the message comes before the variable, and a blank one counts as
/// none.
pub proof fn law_wishes_come_first(
    value: Option<String>,
    variable: &Option<String>,
    result: Option<String>,
)
    requires
        call_ensures(normalized_override, (value, variable), result),
    ensures
        text_of(result) == wish(text_of(value), text_of(*variable)),
{
    assert(value.deep_view() == text_of(value));
    assert(variable.deep_view() == text_of(*variable));
    assert(result.deep_view() == text_of(result));
}

/// The model, the provider and the thinking level are wished for one by one,
/// each with a variable of its own.
pub proof fn law_each_wish_has_its_variable(
    model: Option<Seq<char>>,
    provider: Option<Seq<char>>,
    reasoning: Option<Seq<char>>,
    env: EnvView,
)
    ensures
        ({
            let wanted = wanted_overrides(model, provider, reasoning, env);
            &&& wanted.model == wish(model, env.model)
            &&& wanted.provider == wish(provider, env.model_provider)
            &&& wanted.thinking == wished_level(reasoning, env.thinking_level)
        }),
{
}

/// What a message is to run with, as the function gives it.
pub proof fn law_wishes_are_resolved(
    model: Option<String>,
    provider: Option<String>,
    reasoning: Option<String>,
    env: &PiEnv,
    overrides: ChildOverrides,
)
    requires
        call_ensures(resolve_overrides, (model, provider, reasoning, env), overrides),
    ensures
        text_of(overrides.model) == wish(text_of(model), text_of(env.model)),
        text_of(overrides.provider) == wish(text_of(provider), text_of(env.model_provider)),
        text_of(overrides.thinking) == wished_level(
            text_of(reasoning),
            text_of(env.thinking_level),
        ),
{
    lemma_texts(model, provider, reasoning);
    lemma_texts(overrides.model, overrides.provider, overrides.thinking);
    lemma_texts(env.model, env.model_provider, env.thinking_level);
    assert(overrides@.model == overrides.model.deep_view());
    assert(overrides@.provider == overrides.provider.deep_view());
    assert(overrides@.thinking == overrides.thinking.deep_view());
}

proof fn lemma_texts(a: Option<String>, b: Option<String>, c: Option<String>)
    ensures
        a.deep_view() == text_of(a),
        b.deep_view() == text_of(b),
        c.deep_view() == text_of(c),
{
}

/// Whether the word is one of the seven levels.
pub open spec fn is_level(word: Seq<char>) -> bool {
    ||| word == "off"@
    ||| word == "minimal"@
    ||| word == "low"@
    ||| word == "medium"@
    ||| word == "high"@
    ||| word == "xhigh"@
    ||| word == "max"@
}

proof fn lemma_none_is_no_level()
    ensures
        !is_level("none"@),
{
    reveal_strlit("none");
    reveal_strlit("off");
    reveal_strlit("minimal");
    reveal_strlit("low");
    reveal_strlit("medium");
    reveal_strlit("high");
    reveal_strlit("xhigh");
    reveal_strlit("max");
    assert("none"@[0] == 'n');
    assert("off"@[0] == 'o');
    assert("minimal"@[0] == 'm');
    assert("low"@[0] == 'l');
    assert("medium"@[0] == 'm');
    assert("high"@[0] == 'h');
    assert("xhigh"@[0] == 'x');
    assert("max"@[0] == 'm');
}

/// An effort that is a level, but for case and outer space, names that level;
/// `none` names `off`; any other effort names none.
pub proof fn law_efforts_name_levels(value: Seq<char>)
    ensures
        ({
            let word = ascii_lowercase(trimmed(value));
            let lower = if is_ascii_chars(word) {
                word
            } else {
                lowercase(word)
            };
            &&& is_level(lower) ==> thinking_level(value) == Some(lower)
            &&& lower == "none"@ ==> thinking_level(value) == Some("off"@)
            &&& !is_level(lower) && lower != "none"@ ==> thinking_level(value) is None
        }),
{
    lemma_none_is_no_level();
}

/// The level of an effort, as the function gives it.
pub proof fn law_efforts_are_mapped(value: &str, level: Option<String>)
    requires
        call_ensures(map_thinking_level, (value,), level),
    ensures
        text_of(level) == thinking_level(value@),
        level is Some ==> is_level(level->0@),
        is_level(value@) ==> text_of(level) == Some(value@),
        value@ == "none"@ ==> text_of(level) == Some("off"@),
{
    lemma_texts(level, level, level);
    law_efforts_name_levels(value@);
    crate::laws::lemma_levels_are_words(value@);
}

/// A word names a level only where it is one, or is `none`.
pub proof fn law_words_name_levels(word: String, level: Option<String>)
    requires
        call_ensures(level_of_word, (word,), level),
    ensures
        is_level(word@) ==> text_of(level) == Some(word@),
        word@ == "none"@ ==> text_of(level) == Some("off"@),
        !is_level(word@) && word@ != "none"@ ==> level is None,
{
    lemma_texts(level, level, level);
    lemma_none_is_no_level();
}

// ---------------------------------------------------------------------------
// Whether to start a process
// ---------------------------------------------------------------------------

/// Where no process runs one is started, whatever is wanted; a process that
/// runs is kept exactly where it has what is wanted, and replaced otherwise. A
/// process that is started gets what is wanted.
pub proof fn law_a_turn_has_its_process(
    current: Option<&ChildOverrides>,
    model: Option<String>,
    provider: Option<String>,
    reasoning: Option<String>,
    env: &PiEnv,
    plan: ChildPlan,
)
    requires
        call_ensures(ensure_child, (current, model, provider, reasoning, env), plan),
    ensures
        ({
            let wanted_model = wish(text_of(model), text_of(env.model));
            let wanted_provider = wish(text_of(provider), text_of(env.model_provider));
            let wanted_thinking = wished_level(text_of(reasoning), text_of(env.thinking_level));
            &&& current is None ==> plan is Start
            &&& current matches Some(running) ==> (plan is Keep <==> {
                &&& text_of(running.model) == wanted_model
                &&& text_of(running.provider) == wanted_provider
                &&& text_of(running.thinking) == wanted_thinking
            })
            &&& plan matches ChildPlan::Start { overrides, replace } ==> {
                &&& text_of(overrides.model) == wanted_model
                &&& text_of(overrides.provider) == wanted_provider
                &&& text_of(overrides.thinking) == wanted_thinking
                &&& replace == (current is Some)
            }
        }),
{
    lemma_texts(model, provider, reasoning);
    lemma_texts(env.model, env.model_provider, env.thinking_level);
    if let Some(running) = current {
        lemma_texts(running.model, running.provider, running.thinking);
        assert(running@.model == text_of(running.model));
        assert(running@.provider == text_of(running.provider));
        assert(running@.thinking == text_of(running.thinking));
    }
    if let ChildPlan::Start { overrides, replace } = plan {
        lemma_texts(overrides.model, overrides.provider, overrides.thinking);
        assert(overrides@.model == text_of(overrides.model));
        assert(overrides@.provider == text_of(overrides.provider));
        assert(overrides@.thinking == text_of(overrides.thinking));
    }
}

// ---------------------------------------------------------------------------
// Where the sessions live
// ---------------------------------------------------------------------------

/// Sessions live in the directory that is set for them, trimmed; where that is
/// blank or not set, in `pi` under the state directory as it is set; and nowhere
/// where neither is set.
pub proof fn law_sessions_have_their_place(env: EnvView)
    ensures
        ({
            let set = env.session_dir is Some && trimmed(env.session_dir->0).len() > 0;
            &&& session_path(env) is Some <==> set || env.state_dir is Some
            &&& set ==> session_path(env)->0.base == trimmed(env.session_dir->0)
                && session_path(env)->0.segments.len() == 0
            &&& !set && env.state_dir is Some ==> session_path(env)->0.base == env.state_dir->0
                && session_path(env)->0.segments =~= seq!["pi"@]
        }),
{
}

/// The marker is a file of its own name in the directory of the sessions.
pub proof fn law_the_marker_has_its_name(env: EnvView)
    ensures
        marker_path(env) is Some <==> session_path(env) is Some,
        marker_path(env) is Some ==> {
            &&& marker_path(env)->0.base == session_path(env)->0.base
            &&& marker_path(env)->0.segments =~= session_path(env)->0.segments.push(
                ".centaur-pi-started"@,
            )
        },
{
}

/// Whether the path has this base and these segments.
pub open spec fn is_path(path: SessionPath, base: Seq<char>, segments: Seq<Seq<char>>) -> bool {
    &&& path.base@ == base
    &&& path.segments@.len() == segments.len()
    &&& forall|i: int| 0 <= i < segments.len() ==> (#[trigger] path.segments@[i])@ == segments[i]
}

/// The directory and the marker, as the functions give them.
pub proof fn law_paths_are_given(
    env: &PiEnv,
    dir: Option<SessionPath>,
    marker: Option<SessionPath>,
)
    requires
        call_ensures(session_dir, (env,), dir),
        call_ensures(resume_marker_path, (env,), marker),
    ensures
        ({
            let set = text_of(env.session_dir) is Some && trimmed(
                text_of(env.session_dir)->0,
            ).len() > 0;
            &&& set ==> {
                &&& dir is Some && marker is Some
                &&& is_path(dir->0, trimmed(env.session_dir->0@), seq![])
                &&& is_path(
                    marker->0,
                    trimmed(env.session_dir->0@),
                    seq![".centaur-pi-started"@],
                )
            }
            &&& !set && env.state_dir is Some ==> {
                &&& dir is Some && marker is Some
                &&& is_path(dir->0, env.state_dir->0@, seq!["pi"@])
                &&& is_path(marker->0, env.state_dir->0@, seq!["pi"@, ".centaur-pi-started"@])
            }
            &&& !set && env.state_dir is None ==> dir is None && marker is None
        }),
{
    lemma_texts(env.session_dir, env.state_dir, None);
    law_sessions_have_their_place(env@);
    law_the_marker_has_its_name(env@);
    if let Some(path) = dir {
        lemma_segments(path);
    }
    if let Some(path) = marker {
        lemma_segments(path);
    }
}

proof fn lemma_segments(path: SessionPath)
    ensures
        path@.base == path.base@,
        path@.segments.len() == path.segments@.len(),
        forall|i: int|
            0 <= i < path.segments@.len() ==> (#[trigger] path.segments@[i])@ == path@.segments[i],
{
}

// ---------------------------------------------------------------------------
// How a process is started
// ---------------------------------------------------------------------------

/// The program is the one that is set, as it is set, or else `pi`.
pub proof fn law_the_program_is_the_one_set(env: &PiEnv, result: String)
    requires
        call_ensures(child_program, (env,), result),
    ensures
        env.bin matches Some(bin) ==> result@ == bin@,
        env.bin is None ==> result@ == "pi"@,
{
    lemma_texts(env.bin, None, None);
}

/// The arguments are the mode, each override behind its flag, the place of the
/// sessions behind its flag, and `--continue` where the session is resumed: in
/// this order, and nothing else.
pub proof fn law_arguments_in_order(overrides: OverridesView, env: EnvView, resume: bool)
    ensures
        ({
            let args = start_args(overrides, env, resume);
            let provider: int = 4;
            let model: int = provider + (if overrides.provider is Some {
                2int
            } else {
                0int
            });
            let thinking: int = model + (if overrides.model is Some {
                2int
            } else {
                0int
            });
            let sessions: int = thinking + (if overrides.thinking is Some {
                2int
            } else {
                0int
            });
            let end: int = sessions + (if session_path(env) is Some {
                2int
            } else {
                0int
            });
            &&& args[0] == ArgView::Text("--mode"@)
            &&& args[1] == ArgView::Text("rpc"@)
            &&& args[2] == ArgView::Text("--no-themes"@)
            &&& args[3] == ArgView::Text("--no-prompt-templates"@)
            &&& overrides.provider matches Some(value) ==> args[provider] == ArgView::Text(
                "--provider"@,
            ) && args[provider + 1] == ArgView::Text(value)
            &&& overrides.model matches Some(value) ==> args[model] == ArgView::Text("--model"@)
                && args[model + 1] == ArgView::Text(value)
            &&& overrides.thinking matches Some(value) ==> args[thinking] == ArgView::Text(
                "--thinking"@,
            ) && args[thinking + 1] == ArgView::Text(value)
            &&& session_path(env) matches Some(dir) ==> args[sessions] == ArgView::Text(
                "--session-dir"@,
            ) && args[sessions + 1] == ArgView::Path(dir)
            &&& resume ==> args.len() == end + 1 && args[end] == ArgView::Text("--continue"@)
            &&& !resume ==> args.len() == end
        }),
{
}

/// The arguments are given as they are: each in its place, a text as that text.
pub proof fn law_arguments_are_given(
    overrides: &ChildOverrides,
    env: &PiEnv,
    resume: bool,
    args: Vec<ChildArg>,
    i: int,
)
    requires
        call_ensures(child_args, (overrides, env, resume), args),
    ensures
        args@.len() == start_args(overrides@, env@, resume).len(),
        0 <= i < args@.len() ==> match args@[i] {
            ChildArg::Text(text) => start_args(overrides@, env@, resume)[i] == ArgView::Text(
                text@,
            ),
            ChildArg::Path(path) => start_args(overrides@, env@, resume)[i] == ArgView::Path(
                path@,
            ),
        },
        overrides@.model == text_of(overrides.model),
        overrides@.provider == text_of(overrides.provider),
        overrides@.thinking == text_of(overrides.thinking),
{
    lemma_texts(overrides.model, overrides.provider, overrides.thinking);
    if 0 <= i < args@.len() {
        assert(arg_views(args@)[i] == args@[i]@);
    }
    assert(arg_views(args@).len() == args@.len());
}

/// The environment is seen as it is set, each variable by itself.
pub proof fn law_variables_are_seen_whole(env: PiEnv)
    ensures
        env@.bin == text_of(env.bin),
        env@.model == text_of(env.model),
        env@.model_provider == text_of(env.model_provider),
        env@.thinking_level == text_of(env.thinking_level),
        env@.session_dir == text_of(env.session_dir),
        env@.state_dir == text_of(env.state_dir),
{
    lemma_texts(env.bin, env.model, env.model_provider);
    lemma_texts(env.thinking_level, env.session_dir, env.state_dir);
}

/// A process is started with its program, and with `--continue` exactly where
/// sessions have a place and the marker is in it; the directory of the sessions
/// is made, and the marker is to be left there.
pub proof fn law_plans_say_how_to_start(
    overrides: &ChildOverrides,
    env: &PiEnv,
    marker_exists: bool,
    plan: StartPlan,
)
    requires
        call_ensures(start_plan, (overrides, env, marker_exists), plan),
    ensures
        env.bin matches Some(bin) ==> plan.program@ == bin@,
        env.bin is None ==> plan.program@ == "pi"@,
        arg_views(plan.args@) == start_args(
            overrides@,
            env@,
            session_path(env@) is Some && marker_exists,
        ),
        plan.directory is Some <==> session_path(env@) is Some,
        plan.directory matches Some(dir) ==> session_path(env@) == Some(dir@),
        plan.marker is Some <==> marker_path(env@) is Some,
        plan.marker matches Some(marker) ==> marker_path(env@) == Some(marker@),
{
    lemma_texts(env.bin, None, None);
}

/// The marker is left where the process has started, and only there.
pub proof fn law_a_start_leaves_the_marker(
    marker: Option<SessionPath>,
    started: bool,
    left: Option<SessionPath>,
)
    requires
        call_ensures(marker_to_leave, (marker, started), left),
    ensures
        started ==> left == marker,
        !started ==> left is None,
{
}

} // verus!
