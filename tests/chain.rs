use errchain::{Chain, Context, Error, Failure};

fn leaf(display: &str, debug: &str) -> Failure {
    Failure::new(display.to_string(), debug.to_string())
}

fn displays(mut chain: Chain<'_>) -> Vec<String> {
    let mut out = Vec::new();
    while let Some(layer) = chain.next() {
        out.push(layer.display().to_string());
    }
    out
}

#[test]
fn new_yields_single_item() {
    let error = Error::new(leaf("disk full", "DiskFull"));
    let mut chain = error.chain();
    let first = chain.next().expect("one item");
    assert_eq!(first.display(), "disk full");
    assert_eq!(first.debug(), "DiskFull");
    assert!(chain.next().is_none());
}

#[test]
fn context_prepends_one_layer() {
    let inner = Error::new(leaf("a", "A")).context("b".to_string());
    let before = displays(inner.chain());
    let outer = inner.context("c".to_string());
    let after = displays(outer.chain());
    assert_eq!(before, vec!["b".to_string(), "a".to_string()]);
    assert_eq!(after.len(), before.len() + 1);
    assert_eq!(after[0], "c");
    assert_eq!(&after[1..], &before[..]);
}

#[test]
fn chain_length_is_contexts_plus_one() {
    for n in 0..6usize {
        let mut error = Error::new(leaf("leaf", "Leaf"));
        for i in 0..n {
            error = error.context(format!("step {}", i));
        }
        let items = displays(error.chain());
        assert_eq!(items.len(), n + 1);
        assert_eq!(items[n], "leaf");
        if n > 0 {
            assert_eq!(items[0], format!("step {}", n - 1));
        }
    }
}

#[test]
fn drained_chain_stays_empty() {
    let error = Error::new(leaf("x", "X")).context("y".to_string());
    let mut chain = error.chain();
    assert!(chain.next().is_some());
    assert!(chain.next().is_some());
    assert!(chain.next().is_none());
    assert!(chain.next().is_none());
    assert!(chain.next().is_none());
}

#[test]
fn from_matches_new() {
    let converted: Error = leaf("bad input", "BadInput").into();
    let explicit = Error::new(leaf("bad input", "BadInput"));
    assert_eq!(displays(converted.chain()), displays(explicit.chain()));
    assert_eq!(displays(converted.chain()), vec!["bad input".to_string()]);
    assert_eq!(converted.to_debug_string(), explicit.to_debug_string());
}

fn fails() -> Result<u32, Error> {
    let failed: Result<u32, Failure> = Err(leaf("boom", "Boom"));
    let value = failed?;
    Ok(value)
}

#[test]
fn question_mark_converts_failure() {
    match fails() {
        Ok(_) => panic!("expected a failure"),
        Err(error) => assert_eq!(displays(error.chain()), vec!["boom".to_string()]),
    }
}

#[test]
fn debug_renders_outer_then_inner() {
    let error = Error::msg("file not found".to_string()).context("reading config".to_string());
    let debug = error.to_debug_string();
    let outer = debug.find("reading config").expect("outer message");
    let inner = debug.find("file not found").expect("inner message");
    assert!(outer < inner);
    assert_eq!(debug, "reading config: \"file not found\"");
}

#[test]
fn display_renders_outer_only() {
    let error = Error::msg("file not found".to_string()).context("reading config".to_string());
    let display = error.to_string();
    assert!(display.contains("reading config"));
    assert!(!display.contains("file not found"));
    assert_eq!(display, "reading config");
}

#[test]
fn msg_quotes_debug_form() {
    let error = Error::msg("say \"hi\"".to_string());
    assert_eq!(error.to_string(), "say \"hi\"");
    assert_eq!(error.to_debug_string(), "\"say \\\"hi\\\"\"");
}

#[test]
fn nested_context_debug_holds_every_layer() {
    let error = Error::new(leaf("root", "Root"))
        .context("middle".to_string())
        .context("top".to_string());
    assert_eq!(error.to_debug_string(), "top: middle: Root");
    assert_eq!(error.to_string(), "top");
}

#[test]
fn as_failure_and_source() {
    let single = Error::new(leaf("only", "Only"));
    assert_eq!(single.as_failure().display(), "only");
    assert!(single.source().is_none());
    let layered = single.context("outer".to_string());
    assert_eq!(layered.as_failure().display(), "outer");
    assert_eq!(layered.as_failure().debug(), "outer: Only");
    assert_eq!(layered.source().expect("a cause").display(), "only");
}

#[test]
fn context_leaves_success_unchanged() {
    let ok: Result<u32, Error> = Ok(7);
    match ok.context("unused".to_string()) {
        Ok(v) => assert_eq!(v, 7),
        Err(_) => panic!("success turned into a failure"),
    }
}

#[test]
fn with_context_leaves_success_unchanged() {
    let ok: Result<String, Error> = Ok("value".to_string());
    match ok.with_context(|| "unused".to_string()) {
        Ok(v) => assert_eq!(v, "value"),
        Err(_) => panic!("success turned into a failure"),
    }
}

#[test]
fn context_wraps_failure() {
    let failed: Result<u32, Error> = Err(Error::new(leaf("inner", "Inner")));
    match failed.context("outer".to_string()) {
        Ok(_) => panic!("failure turned into a success"),
        Err(e) => assert_eq!(displays(e.chain()), vec!["outer".to_string(), "inner".to_string()]),
    }
}

#[test]
fn with_context_is_lazy() {
    let calls = std::cell::Cell::new(0u32);
    let ok: Result<u32, Error> = Ok(1);
    let r = ok.with_context(|| {
        calls.set(calls.get() + 1);
        "expensive".to_string()
    });
    assert!(r.is_ok());
    assert_eq!(calls.get(), 0);

    let failed: Result<u32, Error> = Err(Error::new(leaf("inner", "Inner")));
    let r = failed.with_context(|| {
        calls.set(calls.get() + 1);
        "expensive".to_string()
    });
    assert_eq!(calls.get(), 1);
    match r {
        Ok(_) => panic!("failure turned into a success"),
        Err(e) => assert_eq!(displays(e.chain()), vec!["expensive".to_string(), "inner".to_string()]),
    }
}

fn shareable<T: Send + Sync>(_: &T) -> bool {
    true
}

#[test]
fn error_is_send_and_sync() {
    let error = Error::new(leaf("x", "X")).context("y".to_string());
    assert!(shareable(&error));
    assert!(shareable(&error.chain()));
}

#[test]
fn new_layered_keeps_own_causes() {
    assert!(Error::new_layered(Vec::new()).is_none());
    let error = Error::new_layered(vec![leaf("parse failed", "Parse"), leaf("bad digit", "Digit")])
        .expect("a container")
        .context("loading settings".to_string());
    assert_eq!(
        displays(error.chain()),
        vec!["loading settings".to_string(), "parse failed".to_string(), "bad digit".to_string()]
    );
    assert_eq!(error.to_debug_string(), "loading settings: Parse");
    assert_eq!(error.source().expect("a cause").display(), "parse failed");
}
