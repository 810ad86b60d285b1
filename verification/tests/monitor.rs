use dioxus_dnd::monitor::Monitor;

#[test]
fn events_emitted_during_dispatch_queue_in_order() {
    let mut monitor: Monitor<&str, u8> = Monitor::new();
    assert!(!monitor.emit("dropped before anyone listens"));
    monitor.subscribe(1, 10);
    monitor.subscribe(2, 20);
    assert!(monitor.has_listeners());

    assert!(monitor.emit("started"));
    let mut delivered = Vec::new();
    while let Some(event) = monitor.next_event() {
        for (_, listener) in monitor.listeners() {
            delivered.push((event, *listener));
        }
        if event == "started" {
            // A listener emits while being notified: no nested dispatch.
            assert!(!monitor.emit("moved"));
        }
    }
    monitor.end_dispatch();
    assert_eq!(
        delivered,
        vec![("started", 10), ("started", 20), ("moved", 10), ("moved", 20)]
    );

    monitor.unsubscribe(1);
    assert_eq!(monitor.listeners(), &[(2, 20)]);
    monitor.unsubscribe(2);
    assert!(!monitor.has_listeners());
    assert!(!monitor.emit("nobody hears this"));
}
