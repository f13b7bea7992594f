use hwmonitor::failure::{Failure, Severity};
use hwmonitor::startup::{
    address_choices, choice_label, endpoints, resolve_selection, Choice, Interface,
};

fn interface(name: &str, address: &str, is_ipv4: bool) -> Interface {
    Interface { name: name.to_string(), address: address.to_string(), is_ipv4 }
}

fn choice(label: &str, address: &str) -> Choice {
    Choice { label: label.to_string(), address: address.to_string() }
}

#[test]
fn label_is_address_arrow_name() {
    assert_eq!(
        choice_label(&"192.168.1.10".to_string(), &"eth0".to_string()),
        "192.168.1.10 <- eth0"
    );
    assert_eq!(choice_label(&String::new(), &String::new()), " <- ");
}

#[test]
fn only_ipv4_addresses_are_offered() {
    let interfaces = vec![
        interface("lo", "127.0.0.1", true),
        interface("lo", "::1", false),
        interface("eth0", "10.0.0.5", true),
        interface("eth0", "fe80::1", false),
    ];
    let choices = address_choices(&interfaces).unwrap();
    assert_eq!(choices.len(), 2);
    assert_eq!(choices[0].label, "127.0.0.1 <- lo");
    assert_eq!(choices[0].address, "127.0.0.1");
    assert_eq!(choices[1].label, "10.0.0.5 <- eth0");
    assert_eq!(choices[1].address, "10.0.0.5");
}

#[test]
fn no_ipv4_address_is_fatal() {
    let interfaces = vec![interface("lo", "::1", false)];
    assert_eq!(address_choices(&interfaces).err(), Some(Failure::NoIpv4Interface));
    assert_eq!(address_choices(&Vec::new()).err(), Some(Failure::NoIpv4Interface));
}

#[test]
fn selection_resolves_to_its_address() {
    let choices = vec![choice("127.0.0.1 <- lo", "127.0.0.1"), choice("10.0.0.5 <- eth0", "10.0.0.5")];
    assert_eq!(
        resolve_selection(&choices, Some("10.0.0.5 <- eth0".to_string())),
        Ok("10.0.0.5".to_string())
    );
    assert_eq!(
        resolve_selection(&choices, Some("127.0.0.1 <- lo".to_string())),
        Ok("127.0.0.1".to_string())
    );
}

#[test]
fn later_choice_with_the_same_label_wins() {
    let choices = vec![choice("same", "1.1.1.1"), choice("other", "3.3.3.3"), choice("same", "2.2.2.2")];
    assert_eq!(resolve_selection(&choices, Some("same".to_string())), Ok("2.2.2.2".to_string()));
}

#[test]
fn no_selection_is_fatal() {
    let choices = vec![choice("127.0.0.1 <- lo", "127.0.0.1")];
    assert_eq!(resolve_selection(&choices, None), Err(Failure::NoSelection));
    assert_eq!(
        resolve_selection(&choices, Some("127.0.0.1".to_string())),
        Err(Failure::NoSelection)
    );
    assert_eq!(resolve_selection(&Vec::new(), Some("x".to_string())), Err(Failure::NoSelection));
}

#[test]
fn offered_labels_resolve() {
    let interfaces = vec![interface("wlan0", "192.168.0.2", true), interface("eth0", "10.1.1.1", true)];
    let choices = address_choices(&interfaces).unwrap();
    for k in 0..choices.len() {
        let picked = resolve_selection(&choices, Some(choices[k].label.clone()));
        assert_eq!(picked, Ok(interfaces[k].address.clone()));
    }
}

#[test]
fn endpoints_use_the_two_fixed_ports() {
    let both = endpoints(&"192.168.1.10".to_string());
    assert_eq!(both.ingestion, "192.168.1.10:7887");
    assert_eq!(both.query, "192.168.1.10:7667");
}

#[test]
fn severity_of_each_failure() {
    assert_eq!(Failure::NoIpv4Interface.severity(), Severity::StartupFatal);
    assert_eq!(Failure::NoSelection.severity(), Severity::StartupFatal);
    assert_eq!(Failure::BindFailed.severity(), Severity::StartupFatal);
    assert_eq!(Failure::ProviderInitFailed.severity(), Severity::StartupFatal);
    assert_eq!(Failure::FrameDecodeFailed.severity(), Severity::ConnectionFatal);
    assert_eq!(Failure::ReadingUnavailable.severity(), Severity::FieldRecoverable);
}

#[test]
fn only_startup_failures_end_the_process() {
    assert!(Failure::NoIpv4Interface.ends_process());
    assert!(Failure::NoSelection.ends_process());
    assert!(Failure::BindFailed.ends_process());
    assert!(Failure::ProviderInitFailed.ends_process());
    assert!(!Failure::FrameDecodeFailed.ends_process());
    assert!(!Failure::ReadingUnavailable.ends_process());
}

#[test]
fn failure_messages() {
    assert_eq!(Failure::NoIpv4Interface.message(), "no IPv4 interface found");
    assert_eq!(Failure::NoSelection.message(), "no address selected");
    assert_eq!(Failure::BindFailed.message(), "cannot bind the port");
    assert_eq!(Failure::ProviderInitFailed.message(), "cannot initialise the sensor provider");
    assert_eq!(Failure::FrameDecodeFailed.message(), "cannot decode the frame");
    assert_eq!(Failure::ReadingUnavailable.message(), "reading unavailable");
}
