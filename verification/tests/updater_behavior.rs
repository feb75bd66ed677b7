use staked_nodes_overrides_updater::overrides::ipv4;
use staked_nodes_overrides_updater::overrides::StakeMap;
use staked_nodes_overrides_updater::overrides::StakedNodesOverrides;
use staked_nodes_overrides_updater::slot::SharedOverrides;
use staked_nodes_overrides_updater::source::resolve_source;
use staked_nodes_overrides_updater::source::ReloadError;
use staked_nodes_overrides_updater::source::SourceSelection;
use staked_nodes_overrides_updater::updater::apply_outcome;
use staked_nodes_overrides_updater::updater::locator_present;
use staked_nodes_overrides_updater::updater::poll;
use staked_nodes_overrides_updater::updater::record_attempt;
use staked_nodes_overrides_updater::updater::PollDecision;
use staked_nodes_overrides_updater::updater::UpdaterState;
use staked_nodes_overrides_updater::updater::RELOAD_PERIOD_MILLIS;

fn document(auto_reload: bool, entries: Vec<(u8, u64)>) -> StakedNodesOverrides {
    let mut m = StakeMap::new();
    for (last_octet, weight) in entries {
        m.insert(ipv4(10, 0, 0, last_octet), weight);
    }
    StakedNodesOverrides::new(auto_reload, m)
}

#[test]
fn existing_path_is_preferred_over_url() {
    // An ambiguous locator that both exists locally and parses as a URL is
    // always read as a local file.
    let sel = resolve_source("http://example.com/overrides.yaml", true);
    assert_eq!(sel, SourceSelection::LocalFile);
}

#[test]
fn url_locator_without_local_path_uses_url_reader() {
    let sel = resolve_source("http://example.com/overrides.yaml", false);
    assert_eq!(sel, SourceSelection::RemoteUrl);
}

#[test]
fn unusable_locator_has_no_reader() {
    let sel = resolve_source("no scheme, no path", false);
    assert_eq!(sel, SourceSelection::NoReader);
}

#[test]
fn relative_path_that_does_not_exist_has_no_reader() {
    let sel = resolve_source("missing/overrides.yaml", false);
    assert_eq!(sel, SourceSelection::NoReader);
}

#[test]
fn first_poll_attempts_at_once() {
    let st = UpdaterState::initial();
    assert_eq!(poll(&st, false, 0), PollDecision::Attempt);
}

#[test]
fn debounce_window_skips_then_reopens() {
    let mut st = UpdaterState::initial();
    record_attempt(&mut st, 100);
    assert_eq!(poll(&st, false, 100), PollDecision::Skip);
    assert_eq!(poll(&st, false, 100 + RELOAD_PERIOD_MILLIS - 1), PollDecision::Skip);
    assert_eq!(poll(&st, false, 100 + RELOAD_PERIOD_MILLIS), PollDecision::Attempt);
}

#[test]
fn failed_attempt_still_uses_up_the_window() {
    let mut st = UpdaterState::initial();
    record_attempt(&mut st, 100);
    let published = apply_outcome(&mut st, Err(ReloadError::Transport));
    assert!(published.is_none());
    // The window opened by the failed attempt still debounces.
    assert_eq!(poll(&st, false, 101), PollDecision::Skip);
    assert_eq!(poll(&st, false, 100 + RELOAD_PERIOD_MILLIS), PollDecision::Attempt);
}

#[test]
fn cancellation_mid_debounce_exits() {
    let mut st = UpdaterState::initial();
    record_attempt(&mut st, 100);
    assert_eq!(poll(&st, true, 150), PollDecision::Exit);
}

#[test]
fn successful_reload_publishes_document_exactly() {
    let slot = SharedOverrides::new();
    let mut st = UpdaterState::initial();
    record_attempt(&mut st, 0);
    let published = apply_outcome(&mut st, Ok(document(true, vec![(1, 5)])));
    let snap = published.expect("a successful reload publishes");
    slot.publish(snap);
    let seen = slot.read();
    assert!(seen.auto_reload);
    assert_eq!(seen.stake_map.get(ipv4(10, 0, 0, 1)), Some(5));
    assert_eq!(seen.stake_map.get(ipv4(10, 0, 0, 2)), None);
    // The task keeps polling: the document said auto_reload=true.
    assert!(st.auto_reload);
    assert_eq!(poll(&st, false, RELOAD_PERIOD_MILLIS), PollDecision::Attempt);
}

#[test]
fn reload_with_auto_reload_off_publishes_then_stops() {
    let slot = SharedOverrides::new();
    let mut st = UpdaterState::initial();
    record_attempt(&mut st, 0);
    let published = apply_outcome(&mut st, Ok(document(false, vec![(2, 7)])));
    let snap = published.expect("a successful reload publishes");
    slot.publish(snap);
    let seen = slot.read();
    assert!(!seen.auto_reload);
    assert_eq!(seen.stake_map.get(ipv4(10, 0, 0, 2)), Some(7));
    // No further attempt: every later poll exits.
    assert!(!st.auto_reload);
    assert_eq!(poll(&st, false, RELOAD_PERIOD_MILLIS), PollDecision::Exit);
    assert_eq!(poll(&st, false, 10 * RELOAD_PERIOD_MILLIS), PollDecision::Exit);
}

#[test]
fn failed_reload_leaves_snapshot_unchanged() {
    let slot = SharedOverrides::new();
    let mut st = UpdaterState::initial();

    // First attempt fails: the snapshot stays at its default.
    record_attempt(&mut st, 0);
    for err in [
        ReloadError::Configuration,
        ReloadError::Read,
        ReloadError::Transport,
        ReloadError::Decode,
    ] {
        let published = apply_outcome(&mut st, Err(err));
        assert!(published.is_none());
    }
    assert!(st.auto_reload);
    let seen = slot.read();
    assert!(!seen.auto_reload);
    assert_eq!(seen.stake_map.get(ipv4(10, 0, 0, 1)), None);

    // A later failure leaves the previously published snapshot in place.
    let published = apply_outcome(&mut st, Ok(document(true, vec![(1, 5)])));
    slot.publish(published.expect("a successful reload publishes"));
    let published = apply_outcome(&mut st, Err(ReloadError::Transport));
    assert!(published.is_none());
    let seen = slot.read();
    assert!(seen.auto_reload);
    assert_eq!(seen.stake_map.get(ipv4(10, 0, 0, 1)), Some(5));
}

#[test]
fn no_locator_means_no_polling() {
    assert!(!locator_present(&None));
    assert!(locator_present(&Some(String::from("overrides.yaml"))));
    // With no locator the task never runs, so the slot keeps its default.
    let slot = SharedOverrides::new();
    let seen = slot.read();
    assert!(!seen.auto_reload);
    assert_eq!(seen.stake_map.get(ipv4(10, 0, 0, 1)), None);
}

#[test]
fn yaml_document_decodes_into_snapshot() {
    // The document format of the source: a top-level mapping with an
    // optional auto_reload flag and a stake_map of address to weight.
    let text = "auto_reload: true\nstake_map:\n  10.0.0.1: 5\n";
    let value: serde_yaml::Value = serde_yaml::from_str(text).expect("well-formed document");
    let auto_reload = value
        .get("auto_reload")
        .and_then(|v| v.as_bool())
        .unwrap_or(false);
    let mut entries = Vec::new();
    if let Some(mapping) = value.get("stake_map").and_then(|v| v.as_mapping()) {
        for (addr, weight) in mapping {
            let key = match addr.as_str().expect("textual address") {
                "10.0.0.1" => ipv4(10, 0, 0, 1),
                other => panic!("unexpected address {other}"),
            };
            entries.push((key, weight.as_u64().expect("64-bit weight")));
        }
    }
    let snap = StakedNodesOverrides::new(auto_reload, StakeMap::from_entries(entries));
    assert!(snap.auto_reload);
    assert_eq!(snap.stake_map.get(ipv4(10, 0, 0, 1)), Some(5));
    assert_eq!(snap.stake_map.get(ipv4(10, 0, 0, 2)), None);
}

#[test]
fn readers_see_whole_snapshots() {
    // A reader sees either the full old pair or the full new pair: the
    // table and the flag always change together.
    let slot = SharedOverrides::new();
    slot.publish(document(true, vec![(1, 5)]));
    slot.publish(document(false, vec![(2, 7)]));
    let seen = slot.read();
    if seen.auto_reload {
        panic!("flag from the first load paired with nothing: torn snapshot");
    }
    assert_eq!(seen.stake_map.get(ipv4(10, 0, 0, 2)), Some(7));
    assert_eq!(seen.stake_map.get(ipv4(10, 0, 0, 1)), None);
}
