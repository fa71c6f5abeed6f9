use op1nput::tray::{icon_for, Icon, TrayMessage};

#[test]
fn connection_turns_the_icon_on() {
    assert_eq!(icon_for(TrayMessage::Connected), Some(Icon::On));
}

#[test]
fn disconnection_turns_the_icon_off() {
    assert_eq!(icon_for(TrayMessage::Disconnected), Some(Icon::Off));
}

#[test]
fn quit_leaves_the_icon_as_it_is() {
    assert_eq!(icon_for(TrayMessage::Quit), None);
}

#[test]
fn icon_resources() {
    assert_eq!(Icon::On.resource(), "op1nput-on");
    assert_eq!(Icon::Off.resource(), "op1nput-off");
}
