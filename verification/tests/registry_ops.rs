use button_relay::registry::{Registry, SessionEntry};

#[test]
fn register_two_then_unregister_one() {
    let mut reg: Registry<u8> = Registry::new();
    reg.register(SessionEntry { id: 1, transport: 10u8 });
    reg.register(SessionEntry { id: 2, transport: 20u8 });
    assert_eq!(reg.snapshot_ids(), vec![1u16, 2u16]);
    reg.unregister(1);
    assert_eq!(reg.snapshot_ids(), vec![2u16]);
}

#[test]
fn unregister_absent_id_is_noop() {
    let mut reg: Registry<u8> = Registry::new();
    reg.unregister(9);
    assert_eq!(reg.len(), 0);
    reg.register(SessionEntry { id: 7, transport: 0u8 });
    reg.unregister(9);
    assert_eq!(reg.snapshot_ids(), vec![7u16]);
}

#[test]
fn unregister_removes_every_match() {
    let mut reg: Registry<u8> = Registry::new();
    reg.register(SessionEntry { id: 4, transport: 1u8 });
    reg.register(SessionEntry { id: 4, transport: 2u8 });
    reg.register(SessionEntry { id: 5, transport: 3u8 });
    reg.unregister(4);
    assert_eq!(reg.snapshot_ids(), vec![5u16]);
}

#[test]
fn snapshot_keeps_registration_order() {
    let mut reg: Registry<u8> = Registry::new();
    reg.register(SessionEntry { id: 3, transport: 0u8 });
    reg.register(SessionEntry { id: 1, transport: 0u8 });
    reg.register(SessionEntry { id: 2, transport: 0u8 });
    assert_eq!(reg.snapshot_ids(), vec![3u16, 1u16, 2u16]);
    assert_eq!(reg.len(), 3);
    assert_eq!(reg.get(1).id, 1);
}

#[test]
fn interleaved_register_unregister() {
    let mut reg: Registry<u8> = Registry::new();
    for round in 0..50u16 {
        reg.register(SessionEntry { id: round, transport: 0u8 });
        if round % 2 == 0 {
            reg.unregister(round);
        }
        let ids = reg.snapshot_ids();
        assert_eq!(ids.len(), reg.len());
    }
    // every odd identity is still registered, in order
    let ids = reg.snapshot_ids();
    let expected: Vec<u16> = (0..50u16).filter(|r| r % 2 == 1).collect();
    assert_eq!(ids, expected);
}
