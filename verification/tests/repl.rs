use oro_link::repl::{monitor_standby_arg, power_arg, scene_arg, ReplPowerState, ReplScene};

#[test]
fn scene_arguments() {
    assert_eq!(scene_arg("test"), Some(ReplScene::Test));
    assert_eq!(scene_arg("log"), Some(ReplScene::Log));
    assert_eq!(scene_arg("logo"), Some(ReplScene::Logo));
    assert_eq!(scene_arg("logos"), None);
}

#[test]
fn monitor_arguments() {
    assert_eq!(monitor_standby_arg("on"), Some(false));
    assert_eq!(monitor_standby_arg("off"), Some(true));
    assert_eq!(monitor_standby_arg("standby"), None);
}

#[test]
fn power_arguments() {
    assert_eq!(power_arg("on"), Some(ReplPowerState::On));
    assert_eq!(power_arg("off"), Some(ReplPowerState::Off));
    assert_eq!(power_arg("standby"), Some(ReplPowerState::Standby));
    assert_eq!(power_arg("reboot"), None);
}
