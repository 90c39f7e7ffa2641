use tutti_session::midi::components::MidiReceiver;
use tutti_session::midi::components::MpeReceiver;
use tutti_session::midi::systems::collect_receiver_bindings;
use tutti_session::midi::systems::midi_routing_sync_system;
use tutti_session::midi::systems::rebuild_routing_table;
use tutti_session::session::SessionStore;

#[test]
fn rebuild_places_each_binding_in_its_slot() {
    let receivers = vec![
        MidiReceiver { node_id: 10, channel: Some(0) },
        MidiReceiver { node_id: 11, channel: Some(5) },
        MidiReceiver { node_id: 12, channel: None },
    ];
    let t = rebuild_routing_table(&receivers, &Vec::new());
    assert_eq!(t.channels.len(), 16);
    assert_eq!(t.channels[0], Some(10));
    assert_eq!(t.channels[5], Some(11));
    for c in [1usize, 2, 3, 4, 6, 7, 8, 9, 10, 11, 12, 13, 14, 15] {
        assert_eq!(t.channels[c], None);
    }
    assert_eq!(t.fallback, Some(12));
}

#[test]
fn last_binding_wins_a_contested_slot() {
    let receivers = vec![
        MidiReceiver { node_id: 1, channel: Some(3) },
        MidiReceiver { node_id: 2, channel: Some(3) },
        MidiReceiver { node_id: 7, channel: None },
        MidiReceiver { node_id: 8, channel: None },
    ];
    let t = rebuild_routing_table(&receivers, &Vec::new());
    assert_eq!(t.channels[3], Some(2));
    assert_eq!(t.fallback, Some(8));
}

#[test]
fn rebuild_leaves_no_stale_entries() {
    let first = vec![
        MidiReceiver { node_id: 1, channel: Some(2) },
        MidiReceiver { node_id: 2, channel: Some(9) },
        MidiReceiver { node_id: 3, channel: None },
    ];
    let _ = rebuild_routing_table(&first, &Vec::new());
    // The configuration changed: channel 9 and the fallback are gone.
    let second = vec![MidiReceiver { node_id: 4, channel: Some(2) }];
    let t = rebuild_routing_table(&second, &Vec::new());
    assert_eq!(t.channels[2], Some(4));
    assert_eq!(t.channels[9], None);
    assert_eq!(t.fallback, None);
}

#[test]
fn mpe_receiver_claims_the_fallback_slot() {
    let receivers = vec![MidiReceiver { node_id: 1, channel: None }];
    let mpe = vec![MpeReceiver { node_id: 20 }, MpeReceiver { node_id: 21 }];
    let t = rebuild_routing_table(&receivers, &mpe);
    assert_eq!(t.fallback, Some(21));
}

#[test]
fn bindings_are_gathered_in_session_order() {
    let mut store = SessionStore::new();
    let a = store.spawn();
    let _b = store.spawn();
    let c = store.spawn();
    let ai = store.index_of(a).unwrap();
    let ci = store.index_of(c).unwrap();
    store.session_at_mut(ai).midi_receiver = Some(MidiReceiver { node_id: 1, channel: Some(0) });
    store.session_at_mut(ci).midi_receiver = Some(MidiReceiver { node_id: 2, channel: None });
    store.session_at_mut(ci).mpe_receiver = Some(MpeReceiver { node_id: 3 });

    let (receivers, mpe) = collect_receiver_bindings(&store);
    assert_eq!(
        receivers,
        vec![
            MidiReceiver { node_id: 1, channel: Some(0) },
            MidiReceiver { node_id: 2, channel: None },
        ]
    );
    assert_eq!(mpe, vec![MpeReceiver { node_id: 3 }]);
}

#[test]
fn routing_sync_rebuilds_only_on_change() {
    let receivers = vec![MidiReceiver { node_id: 1, channel: Some(0) }];
    assert!(midi_routing_sync_system(false, &receivers, &Vec::new()).is_none());
    let t = midi_routing_sync_system(true, &receivers, &Vec::new());
    assert!(t.is_some());
    assert_eq!(t.unwrap().channels[0], Some(1));
}
