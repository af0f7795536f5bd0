use modkit::wiring::{
    GrpcWatcher, InstanceEvent, InstanceEventKind, RewireSignal, WatcherGoneError, Wiring,
    WiringAction, WiringEvent,
};

const SERVICE: &str = "calculator.v1.CalculatorService";

fn instance(kind: InstanceEventKind, services: &[&str]) -> WiringEvent {
    WiringEvent::Instance {
        event: InstanceEvent {
            kind,
            services: services.iter().map(|s| (*s).to_owned()).collect(),
        },
    }
}

fn resolved() -> WiringEvent {
    WiringEvent::Resolved {
        uri: "http://127.0.0.1:1".to_owned(),
    }
}

/// Takes the event, which must be possible.
fn step(wiring: &mut Wiring, event: WiringEvent) -> WiringAction {
    assert!(wiring.can_take(&event), "{event:?}");
    wiring.step(event)
}

/// A client that has been wired for the first time.
fn wired() -> Wiring {
    let mut wiring = Wiring::new(SERVICE);
    assert_eq!(wiring.service(), SERVICE);
    assert!(matches!(
        step(&mut wiring, WiringEvent::Subscribed),
        WiringAction::Resolve
    ));
    match step(&mut wiring, resolved()) {
        WiringAction::Connect { uri } => assert_eq!(uri, "http://127.0.0.1:1"),
        other => panic!("{other:?}"),
    }
    assert!(matches!(
        step(&mut wiring, WiringEvent::Connected),
        WiringAction::RegisterClient
    ));
    assert!(matches!(
        step(&mut wiring, WiringEvent::ClientRegistered),
        WiringAction::Wait
    ));
    assert_eq!(wiring.rewires(), 0);
    wiring
}

#[test]
fn events_are_subscribed_to_first() {
    let wiring = Wiring::new(SERVICE);
    assert!(wiring.can_take(&WiringEvent::Subscribed));
    assert!(!wiring.can_take(&resolved()));
    assert!(!wiring.can_take(&WiringEvent::Cancelled));
}

#[test]
fn the_first_wiring_fails_as_a_whole() {
    let mut wiring = Wiring::new(SERVICE);
    step(&mut wiring, WiringEvent::Subscribed);
    assert!(matches!(
        step(&mut wiring, WiringEvent::ResolveFailed),
        WiringAction::Fail
    ));
    assert!(!wiring.can_take(&WiringEvent::Lagged));

    let mut wiring = Wiring::new(SERVICE);
    step(&mut wiring, WiringEvent::Subscribed);
    step(&mut wiring, resolved());
    assert!(matches!(
        step(&mut wiring, WiringEvent::ConnectFailed),
        WiringAction::Fail
    ));
}

#[test]
fn a_new_instance_replaces_the_client() {
    let mut wiring = wired();
    for count in 1..=3u64 {
        assert!(matches!(
            step(
                &mut wiring,
                instance(InstanceEventKind::Registered, &["other", SERVICE])
            ),
            WiringAction::Resolve
        ));
        step(&mut wiring, resolved());
        assert!(matches!(
            step(&mut wiring, WiringEvent::Connected),
            WiringAction::RegisterClient
        ));
        // the count is not known before the client is registered
        assert_eq!(wiring.rewires(), count - 1);
        assert!(!wiring.can_take(&WiringEvent::Lagged));
        match step(&mut wiring, WiringEvent::ClientRegistered) {
            WiringAction::Announce { rewires } => assert_eq!(rewires, count),
            other => panic!("{other:?}"),
        }
        assert_eq!(wiring.rewires(), count);
    }
}

#[test]
fn additive_events_keep_the_client_on_failure() {
    for kind in [
        InstanceEventKind::Registered,
        InstanceEventKind::BecameHealthy,
    ] {
        let mut wiring = wired();
        step(&mut wiring, instance(kind, &[SERVICE]));
        assert!(matches!(
            step(&mut wiring, WiringEvent::ResolveFailed),
            WiringAction::KeepClient
        ));
        step(&mut wiring, instance(kind, &[SERVICE]));
        step(&mut wiring, resolved());
        assert!(matches!(
            step(&mut wiring, WiringEvent::ConnectFailed),
            WiringAction::KeepClient
        ));
        assert_eq!(wiring.rewires(), 0);
    }
}

#[test]
fn destructive_events_remove_the_client_on_failure() {
    for kind in [InstanceEventKind::Deregistered, InstanceEventKind::Evicted] {
        let mut wiring = wired();
        step(&mut wiring, instance(kind, &[SERVICE]));
        assert!(matches!(
            step(&mut wiring, WiringEvent::ResolveFailed),
            WiringAction::RemoveClient
        ));
        step(&mut wiring, instance(kind, &[SERVICE]));
        step(&mut wiring, resolved());
        assert!(matches!(
            step(&mut wiring, WiringEvent::ConnectFailed),
            WiringAction::RemoveClient
        ));
        // and a later instance brings it back
        step(
            &mut wiring,
            instance(InstanceEventKind::BecameHealthy, &[SERVICE]),
        );
        step(&mut wiring, resolved());
        step(&mut wiring, WiringEvent::Connected);
        assert!(matches!(
            step(&mut wiring, WiringEvent::ClientRegistered),
            WiringAction::Announce { rewires: 1 }
        ));
    }
}

#[test]
fn missed_events_count_as_destructive() {
    let mut wiring = wired();
    assert!(matches!(
        step(&mut wiring, WiringEvent::Lagged),
        WiringAction::Resolve
    ));
    assert!(matches!(
        step(&mut wiring, WiringEvent::ResolveFailed),
        WiringAction::RemoveClient
    ));
}

#[test]
fn unrelated_events_change_nothing() {
    let mut wiring = wired();
    for kind in [
        InstanceEventKind::Registered,
        InstanceEventKind::BecameHealthy,
        InstanceEventKind::Deregistered,
        InstanceEventKind::Evicted,
    ] {
        assert!(matches!(
            step(&mut wiring, instance(kind, &["other", "calculator.v1"])),
            WiringAction::Wait
        ));
        assert!(matches!(
            step(&mut wiring, instance(kind, &[])),
            WiringAction::Wait
        ));
    }
    assert_eq!(wiring.rewires(), 0);
}

#[test]
fn the_watcher_stops_for_good() {
    for end in [WiringEvent::Cancelled, WiringEvent::SourceClosed] {
        let mut wiring = wired();
        assert!(matches!(step(&mut wiring, end), WiringAction::Stop));
        assert!(!wiring.can_take(&WiringEvent::Lagged));
        assert!(!wiring.can_take(&WiringEvent::Cancelled));
        assert!(!wiring.can_take(&WiringEvent::Subscribed));
    }
}

#[test]
fn the_handle_reports_the_count_or_the_end() {
    assert_eq!(
        GrpcWatcher.rewired(RewireSignal::Rewired { count: 3 }),
        Ok(3)
    );
    assert_eq!(
        GrpcWatcher.rewired(RewireSignal::Exited),
        Err(WatcherGoneError)
    );
    assert_eq!(
        WatcherGoneError.message(),
        "wire_and_watch background task has exited"
    );
}
