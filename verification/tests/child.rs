use pi_harness::child::{
    child_args, child_program, ensure_child, level_of_word, map_thinking_level, marker_to_leave,
    normalized_override, resolve_overrides, resume_marker_path, session_dir, start_plan,
    ChildArg, ChildOverrides, ChildPlan, PiEnv, SessionPath,
};

fn t(text: &str) -> Option<String> {
    Some(text.to_string())
}

fn no_env() -> PiEnv {
    PiEnv {
        bin: None,
        model: None,
        model_provider: None,
        thinking_level: None,
        session_dir: None,
        state_dir: None,
    }
}

fn shown(path: &SessionPath) -> String {
    let mut out = path.base.clone();
    for segment in &path.segments {
        out.push('|');
        out.push_str(segment);
    }
    out
}

fn shown_args(args: &[ChildArg]) -> Vec<String> {
    args.iter()
        .map(|arg| match arg {
            ChildArg::Text(text) => text.clone(),
            ChildArg::Path(path) => shown(path),
        })
        .collect()
}

#[test]
fn thinking_levels_map_and_reject() {
    assert_eq!(map_thinking_level("none").as_deref(), Some("off"));
    assert_eq!(map_thinking_level("HIGH").as_deref(), Some("high"));
    assert_eq!(map_thinking_level("xhigh").as_deref(), Some("xhigh"));
    assert_eq!(map_thinking_level("superduper"), None);
}

#[test]
fn every_level_names_itself() {
    for level in ["off", "minimal", "low", "medium", "high", "xhigh", "max"] {
        assert_eq!(map_thinking_level(level).as_deref(), Some(level));
        assert_eq!(level_of_word(level.to_string()).as_deref(), Some(level));
    }
    assert_eq!(map_thinking_level("\t Off\n").as_deref(), Some("off"));
    assert_eq!(map_thinking_level("\u{3000}MaX\u{85}").as_deref(), Some("max"));
    assert_eq!(map_thinking_level(""), None);
    assert_eq!(map_thinking_level("hi gh"), None);
    assert_eq!(map_thinking_level("x high"), None);
    // The lower case of the dotted capital I has a combining dot.
    assert_eq!(map_thinking_level("H\u{130}GH"), None);
    assert_eq!(level_of_word("HIGH".to_string()), None);
}

#[test]
fn overrides_fall_back_to_the_environment() {
    assert_eq!(normalized_override(t(" gpt "), &t("env")).as_deref(), Some("gpt"));
    assert_eq!(normalized_override(t(" \n"), &t(" env ")).as_deref(), Some("env"));
    assert_eq!(normalized_override(None, &t("env")).as_deref(), Some("env"));
    assert_eq!(normalized_override(None, &t("  ")), None);
    assert_eq!(normalized_override(None, &None), None);
    let mut env = no_env();
    env.thinking_level = t("LOW");
    env.model = t("m");
    env.model_provider = t("p");
    let wanted = resolve_overrides(None, t("q"), t("typo"), &env);
    assert_eq!(wanted.model.as_deref(), Some("m"));
    assert_eq!(wanted.provider.as_deref(), Some("q"));
    assert_eq!(wanted.thinking.as_deref(), Some("low"));
    let wanted = resolve_overrides(t("n"), None, t("none"), &env);
    assert_eq!(wanted.model.as_deref(), Some("n"));
    assert_eq!(wanted.provider.as_deref(), Some("p"));
    assert_eq!(wanted.thinking.as_deref(), Some("off"));
}

#[test]
fn child_is_kept_until_its_overrides_change() {
    let env = no_env();
    let started = match ensure_child(None, t("m"), None, t("high"), &env) {
        ChildPlan::Start { overrides, replace } => {
            assert!(!replace);
            overrides
        }
        other => panic!("unexpected plan: {other:?}"),
    };
    assert!(matches!(
        ensure_child(Some(&started), t(" m "), t(""), t("HIGH"), &env),
        ChildPlan::Keep
    ));
    for (model, provider, reasoning) in [
        (t("other"), None, t("high")),
        (t("m"), t("p"), t("high")),
        (t("m"), None, t("low")),
        (None, None, t("high")),
    ] {
        match ensure_child(Some(&started), model, provider, reasoning, &env) {
            ChildPlan::Start { replace, .. } => assert!(replace),
            other => panic!("unexpected plan: {other:?}"),
        }
    }
}

#[test]
fn sessions_live_where_they_are_set_to() {
    let mut env = no_env();
    assert!(session_dir(&env).is_none());
    assert!(resume_marker_path(&env).is_none());
    env.state_dir = t("/state");
    assert_eq!(shown(&session_dir(&env).unwrap()), "/state|pi");
    assert_eq!(
        shown(&resume_marker_path(&env).unwrap()),
        "/state|pi|.centaur-pi-started"
    );
    env.session_dir = t("   ");
    assert_eq!(shown(&session_dir(&env).unwrap()), "/state|pi");
    env.session_dir = t(" /sessions ");
    assert_eq!(shown(&session_dir(&env).unwrap()), "/sessions");
    assert_eq!(
        shown(&resume_marker_path(&env).unwrap()),
        "/sessions|.centaur-pi-started"
    );
}

#[test]
fn arguments_carry_the_overrides() {
    let mut env = no_env();
    let none = ChildOverrides {
        model: None,
        provider: None,
        thinking: None,
    };
    let plain = ["--mode", "rpc", "--no-themes", "--no-prompt-templates"];
    assert_eq!(shown_args(&child_args(&none, &env, false)), plain);
    assert_eq!(child_program(&env), "pi");
    env.bin = t("/usr/bin/pi2");
    assert_eq!(child_program(&env), "/usr/bin/pi2");
    env.state_dir = t("/state");
    let all = ChildOverrides {
        model: t("m"),
        provider: t("p"),
        thinking: t("max"),
    };
    assert_eq!(
        shown_args(&child_args(&all, &env, true)),
        [
            "--mode",
            "rpc",
            "--no-themes",
            "--no-prompt-templates",
            "--provider",
            "p",
            "--model",
            "m",
            "--thinking",
            "max",
            "--session-dir",
            "/state|pi",
            "--continue",
        ]
    );
}

#[test]
fn a_marked_session_is_resumed() {
    let overrides = ChildOverrides {
        model: None,
        provider: None,
        thinking: None,
    };
    let mut env = no_env();
    let lost = start_plan(&overrides, &env, true);
    assert_eq!(lost.program, "pi");
    assert!(lost.directory.is_none());
    assert!(lost.marker.is_none());
    assert_eq!(lost.args.len(), 4);
    env.session_dir = t("/s");
    let fresh = start_plan(&overrides, &env, false);
    assert_eq!(fresh.args.len(), 6);
    assert_eq!(shown(&fresh.directory.unwrap()), "/s");
    assert_eq!(shown(&fresh.marker.unwrap()), "/s|.centaur-pi-started");
    let resumed = start_plan(&overrides, &env, true);
    assert_eq!(shown_args(&resumed.args)[6], "--continue");
}

#[test]
fn every_start_after_the_first_success_resumes() {
    let overrides = ChildOverrides {
        model: None,
        provider: None,
        thinking: None,
    };
    let mut env = no_env();
    env.session_dir = t("/s");
    let mut marked = false;
    let mut resumed = vec![];
    for started in [false, false, true, false, true] {
        let plan = start_plan(&overrides, &env, marked);
        resumed.push(shown_args(&plan.args).contains(&"--continue".to_string()));
        if let Some(marker) = marker_to_leave(plan.marker, started) {
            assert_eq!(shown(&marker), "/s|.centaur-pi-started");
            marked = true;
        }
    }
    assert_eq!(resumed, [false, false, false, true, true]);
}

#[test]
fn case_and_outer_space_of_a_level_do_not_matter() {
    for (word, level) in [("off", "off"), ("minimal", "minimal"), ("xhigh", "xhigh")] {
        let upper = word.to_ascii_uppercase();
        assert_eq!(map_thinking_level(&upper).as_deref(), Some(level));
        assert_eq!(
            map_thinking_level(&format!("\u{a0}\n{upper}\u{2028} ")).as_deref(),
            Some(level)
        );
    }
    // The capital sigma has another lower case at the end of a word.
    for value in ["o\u{3a3}", "\u{3a3}off", "h\u{130}gh", "\u{212a}max", "high\u{3a3} x"] {
        assert_eq!(map_thinking_level(value), None);
        assert_eq!(map_thinking_level(&value.to_ascii_uppercase()), None);
        assert_eq!(value.to_lowercase(), value.to_ascii_uppercase().to_lowercase());
        assert_eq!(value.to_lowercase(), value.to_ascii_lowercase().to_lowercase());
    }
}
