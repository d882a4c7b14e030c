use hidpp::error::CommandError;
use hidpp::error::Hidpp20Error;
use hidpp::features::root::RootError;
use hidpp::features::FeatureError;
use hidpp::hiddev::Devinfo;
use hidpp::hiddev::UsageRefMulti;

#[test]
fn hidpp20_error_messages() {
    assert_eq!(
        Hidpp20Error::OutOfRange.display_string(),
        "Hid++ 2.0 error: OutOfRange"
    );
    assert_eq!(
        Hidpp20Error::Unrecognized(9).display_string(),
        "Hid++ 2.0 error: Unrecognized(9)"
    );
    assert_eq!(
        Hidpp20Error::Unrecognized(250).display_string(),
        "Hid++ 2.0 error: Unrecognized(250)"
    );
}

#[test]
fn command_and_feature_error_messages() {
    assert_eq!(
        CommandError::TimedOut.display_string(),
        "timed out waiting for an answer"
    );
    assert_eq!(
        FeatureError::Internal(CommandError::TimedOut).display_string(),
        "Internal error: timed out waiting for an answer"
    );
    assert_eq!(
        FeatureError::Hidpp20(Hidpp20Error::HWError).display_string(),
        "Hid++ 2.0 error: HWError"
    );
    assert_eq!(
        RootError::Internal(CommandError::Transport).display_string(),
        "Internal Root Error: transport send failed"
    );
}

#[test]
fn devinfo_display() {
    let info = Devinfo {
        bustype: 3,
        busnum: 1,
        devnum: 2,
        ifnum: 0,
        vendor: 0x046D,
        product: 0xC900u16 as i16,
        version: 0x0111,
        num_applications: 2,
    };
    assert_eq!(
        info.display_string(),
        "{ busnum: 0x1, bustype: 0x3, devnum: 0x2, ifnum: 0x0, num_applications: 0x2, product: 0xC900, vendor: 0x46D, version: 0x111 }"
    );
}

#[test]
fn usage_ref_multi_default_is_empty() {
    let multi = UsageRefMulti::default();
    assert_eq!(multi.num_values, 0);
    assert!(multi.values.iter().all(|v| *v == 0));
    assert_eq!(multi.uref.usage_code, 0);
}
