use wrist_hello::advertisement::{
    btmgmt_advertisement_exists, btmgmt_invocation, is_running_as_root, u8_decimal, AdvertisementSetup, BtmgmtError,
    SetupAction, SetupEvent,
};

fn strings(v: &[&str]) -> Vec<String> {
    v.iter().map(|s| s.to_string()).collect()
}

#[test]
fn decimal_text_of_bytes() {
    assert_eq!(u8_decimal(0), "0");
    assert_eq!(u8_decimal(1), "1");
    assert_eq!(u8_decimal(42), "42");
    assert_eq!(u8_decimal(100), "100");
    assert_eq!(u8_decimal(255), "255");
}

#[test]
fn invocation_runs_btmgmt_under_script_and_timeout() {
    let args = btmgmt_invocation(&strings(&["-i", "hci0", "rm-adv", "1"]));
    assert_eq!(args, strings(&["5", "script", "-q", "-e", "-c", "btmgmt -i hci0 rm-adv 1", "/dev/null"]));
    let quoted = btmgmt_invocation(&strings(&["-i", "my adapter"]));
    assert_eq!(quoted[5], "btmgmt -i 'my adapter'");
    let odd = btmgmt_invocation(&strings(&["", "it's", "a\nb", "x=1"]));
    assert_eq!(odd[5], "btmgmt '' 'it'\\''s' 'a\nb' 'x=1'");
}

#[test]
fn advinfo_output_is_parsed() {
    assert_eq!(btmgmt_advertisement_exists(false, "Instances list with 1 item", ""), None);
    assert_eq!(btmgmt_advertisement_exists(true, "Advertising Features:\nInstances list with 1 item\n", ""), Some(true));
    assert_eq!(btmgmt_advertisement_exists(true, "Instances list with 0 items\n", ""), Some(false));
    assert_eq!(btmgmt_advertisement_exists(true, "", "Instances list with 2 items"), Some(true));
    assert_eq!(btmgmt_advertisement_exists(true, "Instances list ", "with 1 item"), Some(true));
    assert_eq!(btmgmt_advertisement_exists(true, "nothing here", ""), Some(false));
}

#[test]
fn root_check_output_is_parsed() {
    assert_eq!(is_running_as_root(true, "0\n"), Some(true));
    assert_eq!(is_running_as_root(true, "  0 "), Some(true));
    assert_eq!(is_running_as_root(true, "1000\n"), Some(false));
    assert_eq!(is_running_as_root(true, "00"), Some(false));
    assert_eq!(is_running_as_root(true, ""), Some(false));
    assert_eq!(is_running_as_root(true, "\u{a0}0\u{3000}"), Some(true));
    assert_eq!(is_running_as_root(false, "0"), None);
}

#[test]
fn setup_keeps_dbus_advertisement() {
    let (mut setup, first) = AdvertisementSetup::start("hci0".to_string());
    assert!(matches!(first, SetupAction::AdvertiseWithBluer));
    assert!(matches!(setup.step(SetupEvent::BluerAttempted(true)), SetupAction::UseBluer));
}

#[test]
fn setup_falls_back_to_btmgmt() {
    let (mut setup, _) = AdvertisementSetup::start("hci0".to_string());
    assert!(matches!(setup.step(SetupEvent::BluerAttempted(false)), SetupAction::CheckRoot));
    match setup.step(SetupEvent::RootChecked(Ok(true))) {
        SetupAction::RunBtmgmt(args) => assert_eq!(args, strings(&["-i", "hci0", "rm-adv", "1"])),
        _ => panic!("expected rm-adv"),
    }
    match setup.step(SetupEvent::CommandFinished(Err("stale".to_string()))) {
        SetupAction::RunBtmgmt(args) => assert_eq!(
            args,
            strings(&["-i", "hci0", "add-adv", "-c", "-g", "-u", "ddc6ea97-db6e-4ecd-a3ff-0143368ef829", "1"])
        ),
        _ => panic!("expected add-adv"),
    }
    match setup.step(SetupEvent::CommandFinished(Ok(()))) {
        SetupAction::UseBtmgmt(handle) => {
            assert_eq!(handle.unregister(), strings(&["-i", "hci0", "rm-adv", "1"]));
        }
        _ => panic!("expected a btmgmt handle"),
    }
}

#[test]
fn setup_refuses_without_root() {
    let (mut setup, _) = AdvertisementSetup::start("hci0".to_string());
    setup.step(SetupEvent::BluerAttempted(false));
    assert!(matches!(setup.step(SetupEvent::RootChecked(Ok(false))), SetupAction::Fail(BtmgmtError::NotRoot)));
    let (mut setup, _) = AdvertisementSetup::start("hci0".to_string());
    setup.step(SetupEvent::BluerAttempted(false));
    match setup.step(SetupEvent::RootChecked(Err("id failed".to_string()))) {
        SetupAction::Fail(BtmgmtError::RootCheckFailed(m)) => assert_eq!(m, "id failed"),
        _ => panic!("expected a failed root check"),
    }
}

#[test]
fn failed_add_is_checked_with_advinfo() {
    for (listed, expect_handle) in [(true, true), (false, false)] {
        let (mut setup, _) = AdvertisementSetup::start("hci1".to_string());
        setup.step(SetupEvent::BluerAttempted(false));
        setup.step(SetupEvent::RootChecked(Ok(true)));
        setup.step(SetupEvent::CommandFinished(Ok(())));
        match setup.step(SetupEvent::CommandFinished(Err("timed out".to_string()))) {
            SetupAction::QueryAdvinfo(args) => assert_eq!(args, strings(&["-i", "hci1", "advinfo"])),
            _ => panic!("expected advinfo"),
        }
        match setup.step(SetupEvent::AdvinfoRead(Ok(listed))) {
            SetupAction::UseBtmgmt(_) => assert!(expect_handle),
            SetupAction::Fail(BtmgmtError::AddFailed(m)) => {
                assert!(!expect_handle);
                assert_eq!(m, "timed out");
            }
            _ => panic!("unexpected action"),
        }
    }
}

#[test]
fn failed_advinfo_is_reported() {
    let (mut setup, _) = AdvertisementSetup::start("hci0".to_string());
    setup.step(SetupEvent::BluerAttempted(false));
    setup.step(SetupEvent::RootChecked(Ok(true)));
    setup.step(SetupEvent::CommandFinished(Ok(())));
    setup.step(SetupEvent::CommandFinished(Err("add".to_string())));
    match setup.step(SetupEvent::AdvinfoRead(Err("advinfo".to_string()))) {
        SetupAction::Fail(BtmgmtError::AdvinfoFailed(m)) => assert_eq!(m, "advinfo"),
        _ => panic!("expected advinfo failure"),
    }
}
