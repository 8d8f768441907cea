use overlay::startup::{
    choose_monitor, plan_overlay, require_target, Monitor, OverlayError, Rect, TargetWindow,
};

fn mon(x: i32, w: u32) -> Monitor {
    Monitor { x, y: 0, width: w, height: 1080 }
}

#[test]
fn missing_target_window_fails_before_window() {
    // the target titled "Game" was not found
    let target: Option<TargetWindow> = None;
    assert_eq!(
        plan_overlay(target, Some(mon(0, 1920)), &vec![mon(0, 1920)]),
        Err(OverlayError::WindowNotFound)
    );
    assert_eq!(require_target(None), Err(OverlayError::WindowNotFound));
    assert_eq!(require_target(Some(TargetWindow { handle: 3 })), Ok(TargetWindow { handle: 3 }));
}

#[test]
fn no_monitor_fails() {
    assert_eq!(
        plan_overlay(Some(TargetWindow { handle: 42 }), None, &vec![]),
        Err(OverlayError::NoMonitorAvailable)
    );
}

#[test]
fn primary_monitor_preferred() {
    assert_eq!(choose_monitor(Some(mon(0, 1920)), &vec![mon(1920, 2560)]), Some(mon(0, 1920)));
    assert_eq!(choose_monitor(None, &vec![mon(1920, 2560), mon(0, 1920)]), Some(mon(1920, 2560)));
    assert_eq!(choose_monitor(None, &vec![]), None);
}

#[test]
fn plan_covers_monitor_hidden_and_click_through() {
    let p = plan_overlay(Some(TargetWindow { handle: 7 }), None, &vec![mon(1920, 2560)]).unwrap();
    assert_eq!(p.target, TargetWindow { handle: 7 });
    assert_eq!(p.monitor, mon(1920, 2560));
    assert!(!p.resizable);
    assert!(!p.visible);
    assert!(!p.decorations);
    assert!(!p.shadow);
    assert!(p.topmost);
    assert_eq!(p.style.bits, 0x9400_0000);
    assert!(p.ex_style.is_layered());
    assert!(p.ex_style.is_input_transparent());
    assert!(p.ex_style.is_no_activate());
    assert!(p.ex_style.is_tool_window());
    assert_eq!(p.blur.flags, 3);
    assert!(p.blur.enable);
    assert_eq!(p.blur.region, Rect { left: 0, top: 0, right: 1, bottom: 1 });
}
