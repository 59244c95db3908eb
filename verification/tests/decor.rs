use tao_ohos::decor::{ActiveResize, DecorAction, DecorWatch, ACTIVE_RESIZE_RECHECKS};

fn tracking() -> DecorWatch {
    let mut d = DecorWatch::new();
    // asked inner 700, decor 70 -> outer 770, window was 500 high
    assert_eq!(d.dispatch(1200, 700, 770, 500, 70), (1200, 770));
    d
}

#[test]
fn dispatch_tracks_the_resize() {
    let d = tracking();
    assert_eq!(
        d.active,
        Some(ActiveResize { w: 1200, req_h: 700, outer_h: 770, pre_h: 500, decor_used: 70, rechecks_left: ACTIVE_RESIZE_RECHECKS })
    );
}

#[test]
fn no_op_dispatch_uses_sentinel() {
    let mut d = DecorWatch::new();
    d.dispatch(10, 20, 30, 30, 10);
    assert_eq!(d.active.unwrap().pre_h, i64::MIN);
}

#[test]
fn growing_decor_corrects_once_landed() {
    let mut d = tracking();
    assert_eq!(d.observe(146, 770), DecorAction::Resize { width: 1200, height: 846 });
    let a = d.active.unwrap();
    assert_eq!((a.outer_h, a.pre_h, a.decor_used), (846, 770, 146));
    // the same estimate again does nothing
    assert_eq!(d.observe(146, 846), DecorAction::Nothing);
    assert!(d.active.is_some());
}

#[test]
fn not_landed_schedules_recheck() {
    let mut d = tracking();
    assert_eq!(d.observe(146, 500), DecorAction::ScheduleRecheck);
    assert_eq!(d.active.unwrap().rechecks_left, ACTIVE_RESIZE_RECHECKS);
    assert_eq!(d.recheck(146, 500), DecorAction::ScheduleRecheck);
    assert_eq!(d.active.unwrap().rechecks_left, ACTIVE_RESIZE_RECHECKS - 1);
    assert_eq!(d.recheck(146, 770), DecorAction::Resize { width: 1200, height: 846 });
}

#[test]
fn shrinking_decor_or_external_resize_stops_tracking() {
    let mut d = tracking();
    assert_eq!(d.observe(66, 770), DecorAction::Nothing);
    assert!(d.active.is_none());
    let mut d = tracking();
    assert_eq!(d.observe(146, 999), DecorAction::Nothing);
    assert!(d.active.is_none());
    // nothing tracked: nothing happens
    assert_eq!(d.observe(200, 770), DecorAction::Nothing);
    assert_eq!(d.recheck(200, 770), DecorAction::Nothing);
}

#[test]
fn recheck_budget_runs_out() {
    let mut d = tracking();
    for _ in 0..ACTIVE_RESIZE_RECHECKS {
        assert_eq!(d.recheck(146, 500), DecorAction::ScheduleRecheck);
    }
    assert_eq!(d.active.unwrap().rechecks_left, 0);
    assert_eq!(d.recheck(146, 500), DecorAction::Nothing);
    assert!(d.active.is_none());
}

#[test]
fn failed_correction_stops_tracking() {
    let mut d = tracking();
    d.observe(146, 770);
    d.resize_failed();
    assert!(d.active.is_none());
}

#[test]
fn correction_saturates() {
    let mut d = DecorWatch::new();
    d.dispatch(1, i64::MAX - 5, 100, 50, 0);
    assert_eq!(d.observe(10, 100), DecorAction::Resize { width: 1, height: i64::MAX });
}
