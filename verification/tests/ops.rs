//! What the operations decide under their lock, and the batch worker's loop.
use cargo_lbin::batch::MemberOutcome;
use cargo_lbin::job::{auth_answered, auth_gate, batch_outcome, build_outcome, migrate_outcome};
use cargo_lbin::job::{BuildError, BuildOutcome, Gate, MigrateOutcome};
use cargo_lbin::ops::{
    batch_cancel, member_outcome, pin_gated, reinstall_member, tui_downgrade_one,
    tui_install_batch, tui_install_one, tui_reinstall_one, tui_reinstall_plan, tui_remove_one,
    tui_set_pinned, tui_update_one, tui_update_plan, tui_update_premise, update_member,
    AuthorizationRefused, BatchCancel, BatchControl, BatchLoop, InstallBatchEnd, MemberWork, Order,
    PinPolicy, TuiRemove, TuiSetPinned, WorkError,
};
use cargo_lbin::state::{
    AuthAnswer, AuthPurpose, CancelOutcome, Checked, Entry, Manifest, PlannedUpdate, ReinstallPlan,
    UpdatePlan,
};
use cargo_lbin::validate::InstallSpec;
use cargo_lbin::version::Version;

fn v(s: &str) -> Version {
    Version::parse(s).unwrap()
}

fn entry(version: &str, name: &str, locked: bool, pinned: bool) -> Entry {
    Entry {
        version: version.to_owned(),
        bins: vec![name.to_owned()],
        locked,
        pinned,
        built_with_rustc: None,
    }
}

fn seeded(name: &str, locked: bool, pinned: bool) -> Manifest {
    Manifest { crates: vec![(name.to_owned(), entry("0.1.0", name, locked, pinned))] }
}

#[test]
fn a_captured_reinstall_returns_the_entry_it_found() {
    let m = seeded("okcrate", true, true);
    let found = m.get("okcrate").unwrap();
    let plan =
        ReinstallPlan { version: v(&found.version), pinned: found.pinned, locked: found.locked };
    let order = tui_reinstall_one("okcrate", &plan);
    assert_eq!(order.version, Some(v("0.1.0")), "the entry's version, not the newest");
    assert_eq!(order.pins, PinPolicy::Exactly(true), "a pinned crate stays pinned");
    assert!(order.locked, "and keeps its --locked");
}

#[test]
fn an_install_orders_what_was_typed() {
    let spec = InstallSpec::parse("foo@1.2.3").unwrap();
    let order = tui_install_one(spec, true, Ok(()), Ok(())).unwrap();
    assert_eq!(order.name, "foo");
    assert_eq!(order.version, Some(v("1.2.3")));
    assert!(order.locked);
    assert_eq!(order.pins, PinPolicy::Infer);
    let order =
        tui_install_one(InstallSpec::parse("foo").unwrap(), false, Ok(()), Ok(())).unwrap();
    assert_eq!((order.version, order.locked), (None, false));
}

/// A bare install of a pinned crate is refused; a named version over it is a
/// re-pin. What would not change anything is refused either way.
#[test]
fn a_named_version_over_a_pinned_crate_is_a_repin() {
    let pinned = || Err("foo is pinned".to_owned());
    let unchanged = || Err("nothing would change".to_owned());
    let bare = || InstallSpec::parse("foo").unwrap();
    let named = || InstallSpec::parse("foo@1.2.3").unwrap();
    let refused = |r: Result<Order, String>| r.map(|_| ()).unwrap_err();
    assert_eq!(refused(tui_install_one(bare(), false, pinned(), Ok(()))), "foo is pinned");
    assert_eq!(refused(tui_install_one(bare(), false, pinned(), unchanged())), "foo is pinned");
    assert_eq!(
        refused(tui_install_one(bare(), false, Ok(()), unchanged())),
        "nothing would change"
    );
    assert_eq!(
        refused(tui_install_one(named(), false, pinned(), unchanged())),
        "nothing would change"
    );
    let order = tui_install_one(named(), false, pinned(), Ok(())).unwrap();
    assert_eq!(order.version, Some(v("1.2.3")));
    assert_eq!(order.pins, PinPolicy::Infer, "an exact version infers a pin");
}

#[test]
fn the_pin_refusal_is_asked_about_bare_names() {
    let line = ["bar@0.2.0", "baz", "foo@1.2.3", "qux"].map(str::to_owned).to_vec();
    let specs = InstallSpec::parse_all(&line).unwrap();
    assert_eq!(pin_gated(&specs), ["baz", "qux"]);
    assert!(pin_gated(&vec![]).is_empty());
    // A list of named versions is ordered at them.
    let specs = InstallSpec::parse_all(&line[..1].to_vec()).unwrap();
    assert!(pin_gated(&specs).is_empty());
    let orders = tui_install_batch(&specs, false, Ok(()), &vec![Ok(())]).unwrap();
    assert_eq!(orders[0].version, Some(v("0.2.0")));
}

/// The plan is the prefix, in the order of the names; one entry that cannot be
/// frozen leaves none.
#[test]
fn a_rebuild_plan_is_the_prefix_by_name() {
    let m = Manifest {
        crates: ["bar", "baz", "foo"]
            .into_iter()
            .map(|n| (n.to_owned(), entry("0.1.0", n, false, n == "baz")))
            .collect(),
    };
    let plan = |pinned| ReinstallPlan { version: v("0.1.0"), pinned, locked: false };
    let frozen = vec![Ok(plan(false)), Ok(plan(true)), Ok(plan(false))];
    let planned = tui_reinstall_plan(&m, &frozen).unwrap();
    let names: Vec<&str> = planned.iter().map(|(name, _)| name.as_str()).collect();
    assert_eq!(names, ["bar", "baz", "foo"]);
    assert_eq!(planned[1].1, plan(true));
    let frozen = vec![Ok(plan(false)), Err("first".to_owned()), Err("second".to_owned())];
    assert_eq!(tui_reinstall_plan(&m, &frozen), Err("first".to_owned()));
}

/// The whole plan is checked before the first build: with one member pinned,
/// nobody is ordered.
#[test]
fn an_install_batch_checks_the_whole_plan_before_the_first_build() {
    let specs =
        InstallSpec::parse_all(&vec!["okcrate".to_owned(), "pinnedcrate".to_owned()]).unwrap();
    let err = tui_install_batch(
        &specs,
        false,
        Err("pinnedcrate is pinned".to_owned()),
        &vec![Ok(()), Ok(())],
    )
    .expect_err("a pinned member refuses the plan");
    assert!(err.contains("pinned"), "{err}");
    let err = tui_install_batch(
        &specs,
        false,
        Ok(()),
        &vec![Ok(()), Err("nothing would change".to_owned()), Err("later".to_owned())],
    )
    .expect_err("so does one that would not change anything");
    assert_eq!(err, "nothing would change");
    let orders = tui_install_batch(&specs, true, Ok(()), &vec![Ok(()), Ok(())]).unwrap();
    assert_eq!(orders.len(), 2);
    assert_eq!(orders[0].name, "okcrate");
    assert_eq!(orders[1].name, "pinnedcrate");
    assert!(orders.iter().all(|o| o.version.is_none()));
    assert!(orders.iter().all(|o| o.locked && o.pins == PinPolicy::Infer));
}

/// Runs a batch of named members the way a worker does, and says what happened.
fn run(
    names: &[&str],
    control: &mut BatchControl<u8>,
    build: &mut dyn FnMut(&str, &mut BatchControl<u8>) -> Result<(), WorkError>,
    after: &mut dyn FnMut(&mut BatchControl<u8>),
) -> (Vec<String>, InstallBatchEnd) {
    let mut steps: Vec<String> = Vec::new();
    let mut at = BatchLoop::new(names.len());
    while let Some(i) = at.next() {
        if !control.try_begin_member(0) {
            at.not_begun();
            continue;
        }
        steps.push(format!("start {}", names[i]));
        let result = build(names[i], control);
        control.finish_member();
        let outcome = member_outcome(result);
        steps.push(format!(
            "end {} {}",
            names[i],
            matches!(outcome, MemberOutcome::Installed)
        ));
        at.ended(&outcome);
        after(control);
    }
    (steps, at.end())
}

/// Members run in order; a failure is the member's, and the members behind it
/// still run — the batch ends early only for a cancel.
#[test]
fn an_install_batch_carries_past_a_failure() {
    let mut control = BatchControl::new();
    let (steps, end) = run(
        &["okcrate", "brokencrate", "lastcrate"],
        &mut control,
        &mut |name, _| {
            if name == "brokencrate" {
                Err(WorkError::Other("boom".to_owned()))
            } else {
                Ok(())
            }
        },
        &mut |_| {},
    );
    assert_eq!(
        steps,
        vec![
            "start okcrate".to_owned(),
            "end okcrate true".to_owned(),
            "start brokencrate".to_owned(),
            "end brokencrate false".to_owned(),
            "start lastcrate".to_owned(),
            "end lastcrate true".to_owned(),
        ],
        "brokencrate's failure is brokencrate's; lastcrate still runs"
    );
    assert_eq!(end, InstallBatchEnd::Completed);
}

/// A cancel between members stops the batch: the next one never starts.
#[test]
fn a_cancel_between_members_starts_nobody_else() {
    let mut control = BatchControl::new();
    let (steps, end) = run(
        &["okcrate", "nextcrate"],
        &mut control,
        &mut |_, _| Ok(()),
        &mut |control| {
            assert!(control.request_cancel().is_none(), "nobody is building in the gap");
        },
    );
    assert_eq!(steps, vec!["start okcrate", "end okcrate true"], "nextcrate never began");
    assert_eq!(end, InstallBatchEnd::Cancelled);
}

/// A batch cancelled before it starts attempts nobody at all.
#[test]
fn a_batch_cancelled_up_front_attempts_nobody() {
    let mut control = BatchControl::new();
    control.request_cancel();
    let (steps, end) = run(&["okcrate"], &mut control, &mut |_, _| Ok(()), &mut |_| {});
    assert_eq!(
        end,
        InstallBatchEnd::Cancelled,
        "and the batch says so: a stop with members left is cancelled"
    );
    assert!(steps.is_empty(), "a stopped batch begins nobody");
}

/// A cancel that lands while a member is building ends the batch, whether or
/// not that member noticed in time.
#[test]
fn a_cancel_while_a_member_builds_stops_the_batch() {
    for noticed in [true, false] {
        let mut control = BatchControl::new();
        let (steps, end) = run(
            &["okcrate", "nextcrate"],
            &mut control,
            &mut |_, control| {
                assert!(control.request_cancel().is_some(), "a member is in flight");
                if noticed {
                    Err(WorkError::Cancelled)
                } else {
                    Ok(())
                }
            },
            &mut |_| {},
        );
        assert_eq!(steps.len(), 2, "nextcrate never began: {steps:?}");
        assert_eq!(steps[1], format!("end okcrate {}", !noticed));
        assert_eq!(end, InstallBatchEnd::Cancelled, "and the batch's own end carries it");
    }
}

/// A plan that reached its last member completed, even if a cancel came too
/// late to stop that member.
#[test]
fn a_cancel_after_the_last_member_stops_nothing() {
    let mut control = BatchControl::new();
    let (_, end) = run(
        &["only"],
        &mut control,
        &mut |_, control| {
            control.request_cancel();
            Ok(())
        },
        &mut |_| {},
    );
    assert_eq!(end, InstallBatchEnd::Completed);
    assert!(control.cancelled());
}

/// The plan that was shown is checked against the entry it was made about.
#[test]
fn a_captured_update_refuses_a_plan_the_manifest_outgrew() {
    let m = seeded("okcrate", true, false);
    // The entry says 0.1.0; a plan made about 0.0.9 is out of date.
    let text = tui_update_one(&m, Ok(()), "okcrate", "0.0.9").unwrap_err();
    assert!(text.contains("is 0.1.0 now") && text.contains("out of date"), "{text}");

    // With the premise intact it asks for the newest, keeps `--locked` and
    // acquires no pin.
    let order = tui_update_one(&m, Ok(()), "okcrate", "0.1.0").unwrap();
    assert_eq!(order.version, None);
    assert!(order.locked, "the entry's build policy is carried");
    assert_eq!(order.pins, PinPolicy::Infer, "an update is not a pin");

    let refused = tui_update_one(&m, Err("okcrate is pinned".to_owned()), "okcrate", "0.0.9");
    assert_eq!(refused.unwrap_err(), "okcrate is pinned", "the pin is asked first");
    let missing = tui_update_one(&m, Ok(()), "other", "0.1.0").unwrap_err();
    assert_eq!(missing, "not installed: other");
}

/// The plan is read from the manifest, not from a row: a pin set since the list
/// was drawn still refuses, and a crate this prefix does not manage is named as
/// such.
#[test]
fn an_update_plan_reads_the_manifest_not_the_screen() {
    let m = seeded("okcrate", false, true);
    let err = tui_update_premise(&m, "okcrate", Err("okcrate is pinned".to_owned()))
        .expect_err("a pin refuses an update");
    assert!(err.contains("pinned"), "{err}");
    let err = tui_update_premise(&m, "nosuchcrate", Ok(())).expect_err("nothing to update");
    assert!(err.contains("not installed"), "{err}");
    assert_eq!(tui_update_premise(&m, "okcrate", Ok(())).unwrap(), "0.1.0");

    let answer = |latest: &str| {
        Some(Checked { name: "okcrate".to_owned(), current: v("0.1.0"), latest: v(latest) })
    };
    assert!(matches!(
        tui_update_plan("okcrate", "0.1.0".to_owned(), answer("0.2.0")),
        Ok(UpdatePlan::Outdated { current, latest }) if current == "0.1.0" && latest == v("0.2.0")
    ));
    assert!(matches!(
        tui_update_plan("okcrate", "0.1.0".to_owned(), answer("0.1.0")),
        Ok(UpdatePlan::UpToDate { current }) if current == "0.1.0"
    ));
    assert_eq!(
        tui_update_plan("okcrate", "0.1.0".to_owned(), None).unwrap_err(),
        "no version information for `okcrate`"
    );
}

/// The sweep re-checks each member against the plan the person confirmed, and a
/// failure does not end it.
#[test]
fn a_reinstall_sweep_skips_what_moved_and_carries_on_past_failure() {
    let mut m = Manifest {
        crates: ["brokencrate", "movedcrate", "okcrate"]
            .into_iter()
            .map(|n| (n.to_owned(), entry("0.1.0", n, false, false)))
            .collect(),
    };
    let frozen: Vec<Result<ReinstallPlan, String>> = m
        .crates
        .iter()
        .map(|(_, e)| {
            Ok(ReinstallPlan { version: v(&e.version), pinned: e.pinned, locked: e.locked })
        })
        .collect();
    let planned = tui_reinstall_plan(&m, &frozen).unwrap();
    assert_eq!(planned.len(), 3, "the plan is the prefix");

    // Between the plan and the apply, one entry moves.
    m.crates[1].1.pinned = true;

    let mut seen: Vec<String> = Vec::new();
    let mut at = BatchLoop::new(planned.len());
    while let Some(i) = at.next() {
        let (name, plan) = &planned[i];
        let outcome = match reinstall_member(&m, name, plan) {
            MemberWork::Skip(outcome) => outcome,
            MemberWork::Build(_) if name == "brokencrate" => {
                member_outcome(Err(WorkError::Other("boom".to_owned())))
            }
            MemberWork::Build(order) => {
                assert_eq!(order.pins, PinPolicy::Exactly(false));
                member_outcome(Ok(()))
            }
        };
        seen.push(format!(
            "{name} {}",
            match &outcome {
                MemberOutcome::Installed => "installed",
                MemberOutcome::Skipped(_) => "skipped",
                MemberOutcome::Failed(_) => "failed",
                MemberOutcome::Refused(_) => "refused",
                MemberOutcome::Cancelled => "cancelled",
            }
        ));
        at.ended(&outcome);
    }
    assert_eq!(
        seen,
        vec![
            "brokencrate failed".to_owned(),
            "movedcrate skipped".to_owned(),
            "okcrate installed".to_owned(),
        ],
        "every member was asked about, in the plan's order"
    );
}

/// An entry updated elsewhere, or pinned since, is skipped rather than updated
/// against a premise that no longer holds.
#[test]
fn an_update_sweep_skips_what_moved_and_carries_on() {
    let mut m = Manifest {
        crates: ["okcrate", "pinnedsince", "movedcrate"]
            .into_iter()
            .map(|n| (n.to_owned(), entry("0.1.0", n, false, false)))
            .collect(),
    };
    m.crates[1].1.pinned = true;
    m.crates[2].1.version = "0.3.0".to_owned();
    let mut seen: Vec<String> = Vec::new();
    for name in ["okcrate", "pinnedsince", "movedcrate"] {
        let planned = PlannedUpdate {
            name: name.to_owned(),
            current: "0.1.0".to_owned(),
            latest: v("0.2.0"),
        };
        seen.push(match update_member(&m, &planned) {
            MemberWork::Build(order) => {
                assert_eq!(order.version, None, "the newest, not the plan's");
                format!("{} updated", order.name)
            }
            MemberWork::Skip(MemberOutcome::Skipped(why)) => {
                assert_eq!(why, "changed since the plan was confirmed");
                format!("{name} skipped")
            }
            MemberWork::Skip(_) => panic!("a skipped member is skipped"),
        });
    }
    assert_eq!(
        seen,
        vec![
            "okcrate updated".to_owned(),
            "pinnedsince skipped".to_owned(),
            "movedcrate skipped".to_owned(),
        ],
        "every member was asked about, in the plan's order"
    );
}

/// A crate moved or removed in between must stop the build — otherwise a
/// command called downgrade could upgrade, or resurrect what somebody just
/// removed.
#[test]
fn a_tui_downgrade_refuses_a_premise_the_manifest_no_longer_holds() {
    let m = seeded("okcrate", false, false);
    // The manifest says 0.1.0; a choice made against 0.3.0 is a choice about a
    // world that is not there.
    let err = tui_downgrade_one(&m, "okcrate", "0.3.0", v("0.0.9"))
        .expect_err("a stale premise builds nothing");
    assert!(err.contains("changed from"), "{err}");

    // A crate removed while the list sat open is the same answer.
    let gone = Manifest { crates: Vec::new() };
    let err = tui_downgrade_one(&gone, "okcrate", "0.1.0", v("0.0.9"))
        .expect_err("a removed crate is not resurrected");
    assert!(err.contains("was removed"), "{err}");
}

#[test]
fn a_tui_downgrade_repins_at_the_chosen_version() {
    let m = seeded("okcrate", true, false);
    let order = tui_downgrade_one(&m, "okcrate", "0.1.0", v("0.0.9")).unwrap();
    assert_eq!(order.version, Some(v("0.0.9")), "the chosen version");
    assert_eq!(
        order.pins,
        PinPolicy::Infer,
        "an exact version infers a pin, as `install NAME@VERSION` pins"
    );
    assert!(order.locked, "and its --locked setting is carried over");
}

#[test]
fn a_tui_downgrade_refuses_a_pin_set_meanwhile() {
    let m = seeded("okcrate", true, true);
    let err = tui_downgrade_one(&m, "okcrate", "0.1.0", v("0.0.9"))
        .expect_err("a pin set while choosing is changed state");
    assert!(err.contains("pinned"), "{err}");
}

/// A pin flips one bit, and the same call again finds itself answered.
#[test]
fn a_pin_flips_one_bit_of_one_entry() {
    let mut m = Manifest {
        crates: vec![
            ("bar".to_owned(), entry("1.0.0", "bar", true, false)),
            ("foo".to_owned(), entry("0.1.0", "foo", false, false)),
        ],
    };
    assert_eq!(
        tui_set_pinned(&mut m, "foo", true),
        Ok(TuiSetPinned::Changed { version: "0.1.0".to_owned() })
    );
    assert_eq!(m.get("foo").unwrap(), &entry("0.1.0", "foo", false, true));
    assert_eq!(m.get("bar").unwrap(), &entry("1.0.0", "bar", true, false));
    assert_eq!(tui_set_pinned(&mut m, "foo", true), Ok(TuiSetPinned::Already));
    assert!(tui_set_pinned(&mut m, "nope", true).unwrap_err().contains("not in the manifest"));
}

#[test]
fn a_removal_takes_one_entry_and_names_its_binaries() {
    let mut m = Manifest {
        crates: vec![
            ("bar".to_owned(), entry("1.0.0", "bar", true, false)),
            ("foo".to_owned(), entry("0.1.0", "foo", false, false)),
        ],
    };
    assert_eq!(tui_remove_one(&mut m, "foo"), Ok(TuiRemove::Removed(vec!["foo".to_owned()])));
    assert!(m.get("foo").is_none());
    assert!(m.get("bar").is_some());
    assert!(tui_remove_one(&mut m, "foo").unwrap_err().contains("not in the manifest"));
}

/// Each name stays listed once, whatever is flipped or taken out.
#[test]
fn a_manifest_lists_each_crate_once() {
    let names = ["bar", "baz", "foo"];
    let all = |m: &Manifest| m.crates.iter().map(|(n, _)| n.clone()).collect::<Vec<String>>();
    let mut m = Manifest {
        crates: names.iter().map(|n| ((*n).to_owned(), entry("1.0.0", n, true, false))).collect(),
    };
    assert!(matches!(tui_set_pinned(&mut m, "baz", true), Ok(TuiSetPinned::Changed { .. })));
    assert_eq!(all(&m), names);
    assert!(tui_remove_one(&mut m, "bar").is_ok());
    assert_eq!(all(&m), names[1..]);
    assert!(m.get("baz").unwrap().pinned && !m.get("foo").unwrap().pinned);
}

fn refused(purpose: AuthPurpose) -> WorkError {
    WorkError::Refused(AuthorizationRefused { purpose, reason: "no password".to_owned() })
}

/// Only a refusal at this member's placement door makes it "built, but not
/// placed"; anything else is a failure.
#[test]
fn a_member_ends_as_its_error_says() {
    assert!(matches!(member_outcome(Ok(())), MemberOutcome::Installed));
    assert!(matches!(member_outcome(Err(WorkError::Cancelled)), MemberOutcome::Cancelled));
    assert!(matches!(
        member_outcome(Err(refused(AuthPurpose::Placement))),
        MemberOutcome::Refused(r) if r == "no password"
    ));
    assert!(matches!(
        member_outcome(Err(refused(AuthPurpose::Retirement))),
        MemberOutcome::Failed(e)
            if e == "retiring the source installation could not be authorized: no password"
    ));
    assert!(matches!(
        member_outcome(Err(WorkError::Other("boom".to_owned()))),
        MemberOutcome::Failed(e) if e == "boom"
    ));
}

#[test]
fn a_cancel_answers_for_the_member_it_reached() {
    assert_eq!(
        batch_cancel(Some(CancelOutcome::Killed)),
        BatchCancel::Member(CancelOutcome::Killed)
    );
    assert_eq!(batch_cancel(None), BatchCancel::BetweenMembers);
    let mut control: BatchControl<u8> = BatchControl::new();
    assert!(control.try_begin_member(7));
    assert_eq!(control.with_current(), Some(&7));
    control.finish_member();
    assert_eq!(control.with_current(), None);
    control.request_cancel();
    assert!(!control.try_begin_member(8), "stopped means stopped");
}

/// What a worker's result is to the interface.
#[test]
fn results_become_outcomes() {
    assert!(matches!(build_outcome(Ok(())), BuildOutcome::Success));
    assert!(matches!(build_outcome(Err(WorkError::Cancelled)), BuildOutcome::Cancelled));
    assert!(matches!(
        build_outcome(Err(WorkError::Other("boom".to_owned()))),
        BuildOutcome::Failed(e) if e.chain() == "boom"
    ));
    assert!(matches!(
        migrate_outcome(Ok(MigrateOutcome::Moved { version: v("1.0.0") })),
        BuildOutcome::Migrated(moved) if moved == v("1.0.0")
    ));
    assert!(matches!(
        migrate_outcome(Ok(MigrateOutcome::Incomplete("left behind".to_owned()))),
        BuildOutcome::CompletedWithWarning(w) if w.contains("left behind")
    ));
    assert!(matches!(
        batch_outcome(Ok(InstallBatchEnd::Cancelled)),
        BuildOutcome::Cancelled
    ));
    assert!(matches!(batch_outcome(Ok(InstallBatchEnd::Completed)), BuildOutcome::Success));
    assert!(matches!(
        build_outcome(Err(refused(AuthPurpose::Mutation))),
        BuildOutcome::Failed(BuildError::Refused(_))
    ));
}

/// The placement door: fresh credentials pass, a cancel ends, anything else
/// asks, and the answer is the person's.
#[test]
fn the_placement_door_asks_only_where_it_has_to() {
    assert!(matches!(auth_gate(false, Ok(true)), Gate::Answer(Ok(()))));
    assert!(matches!(auth_gate(false, Ok(false)), Gate::Ask));
    assert!(matches!(
        auth_gate(true, Ok(false)),
        Gate::Answer(Err(WorkError::Cancelled))
    ));
    assert_eq!(
        auth_answered(Some(AuthAnswer::Authorized), false, AuthPurpose::Placement),
        Ok(())
    );
    assert_eq!(
        auth_answered(
            Some(AuthAnswer::Refused("no password".to_owned())),
            false,
            AuthPurpose::Placement
        ),
        Err(refused(AuthPurpose::Placement))
    );
}
