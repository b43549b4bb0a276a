use pty_sessions::geometry::{default_size, Geometry};
use pty_sessions::ident::identifier_from_bytes;
use pty_sessions::locator::{not_found_message, select_candidate, sidecar_candidates, sidecar_file_names};
use pty_sessions::pump::{exit_status, ExitProbe, PtyEvent, PumpPhase, ReadOutcome, ReaderPump};
use pty_sessions::registry::SessionRegistry;
use pty_sessions::session::{
    lookup_session, register_session, register_with_bytes, register_with_id, terminate_session,
    SessionError, StartError,
};

fn s(x: &str) -> String {
    x.to_string()
}

#[test]
fn default_size_without_sides_is_80_by_24() {
    let g = default_size(None, None);
    assert_eq!(g, Geometry { cols: 80, rows: 24, pixel_width: 0, pixel_height: 0 });
}

#[test]
fn default_size_keeps_given_sides() {
    let g = default_size(Some(100), Some(40));
    assert_eq!((g.cols, g.rows, g.pixel_width, g.pixel_height), (100, 40, 0, 0));
    let g = default_size(Some(132), None);
    assert_eq!((g.cols, g.rows), (132, 24));
    let g = default_size(None, Some(50));
    assert_eq!((g.cols, g.rows), (80, 50));
}

#[test]
fn resize_geometry_has_zero_pixels() {
    assert_eq!(Geometry::cells(120, 30), Geometry { cols: 120, rows: 30, pixel_width: 0, pixel_height: 0 });
    assert_eq!(Geometry::cells(0, 0).cols, 0);
}

#[test]
fn names_without_and_with_triple() {
    assert_eq!(sidecar_file_names(&None), vec![s("popper")]);
    assert_eq!(
        sidecar_file_names(&Some(s("x86_64-unknown-linux-gnu"))),
        vec![s("popper"), s("popper-x86_64-unknown-linux-gnu")]
    );
}

#[test]
fn candidates_in_order_of_precedence() {
    let c = sidecar_candidates(&Some(s("/res")), &Some(s("/app")), &s("/dev"), &Some(s("t")));
    assert_eq!(
        c,
        vec![
            s("/res/bin/popper"),
            s("/res/bin/popper-t"),
            s("/app/bin/popper"),
            s("/app/bin/popper-t"),
            s("/dev/bin/popper"),
            s("/dev/bin/popper-t"),
        ]
    );
}

#[test]
fn candidates_skip_unknown_places_and_triple() {
    let c = sidecar_candidates(&None, &Some(s("/app")), &s("/dev"), &None);
    assert_eq!(c, vec![s("/app/bin/popper"), s("/dev/bin/popper")]);
}

#[test]
fn first_existing_candidate_wins() {
    let c = vec![s("a"), s("b"), s("c")];
    assert_eq!(select_candidate(c, &vec![false, true, true]), Ok(s("b")));
}

#[test]
fn no_existing_candidate_lists_all_tried() {
    let c = vec![s("a"), s("b")];
    let r = select_candidate(c, &vec![false, false]);
    assert_eq!(r, Err(vec![s("a"), s("b")]));
    assert_eq!(
        not_found_message(&vec![s("a"), s("b")]),
        "Popper sidecar not found. Tried: a, b"
    );
    assert_eq!(not_found_message(&vec![]), "Popper sidecar not found. Tried: ");
}

#[test]
fn start_error_messages() {
    assert_eq!(StartError::SpawnFailed(s("denied")).message(), "failed to start popper: denied");
    assert_eq!(
        StartError::PtyIoSetupFailed { writer: true, detail: s("x") }.message(),
        "failed to take pty writer: x"
    );
    assert_eq!(
        StartError::PtyIoSetupFailed { writer: false, detail: s("y") }.message(),
        "failed to clone pty reader: y"
    );
    assert_eq!(StartError::PtyAllocationFailed(s("no pty")).message(), "no pty");
    assert_eq!(
        StartError::SidecarNotFound(vec![s("/a/bin/popper")]).message(),
        "Popper sidecar not found. Tried: /a/bin/popper"
    );
    assert_eq!(StartError::LockPoisoned.message(), "failed to lock session state");
    assert_eq!(StartError::DuplicateIdentifier.message(), "session identifier already in use");
}

#[test]
fn session_error_messages() {
    assert_eq!(SessionError::SessionNotFound.message(), "session not found");
    assert_eq!(SessionError::WriteFailed(s("eio")).message(), "write error: eio");
    assert_eq!(SessionError::ResizeFailed(s("bad")).message(), "resize error: bad");
    assert_eq!(SessionError::LockPoisoned.message(), "failed to lock session state");
    assert_eq!(SessionError::WriterLockPoisoned.message(), "failed to lock writer");
}

#[test]
fn registry_insert_get_remove() {
    let mut r: SessionRegistry<u32> = SessionRegistry::new();
    assert_eq!(r.len(), 0);
    assert!(r.insert(s("a"), 1));
    assert!(r.insert(s("b"), 2));
    assert!(!r.insert(s("a"), 3));
    assert_eq!(r.len(), 2);
    assert_eq!(r.get(&s("a")), Some(&1));
    assert_eq!(r.remove(&s("a")), Some(1));
    assert_eq!(r.remove(&s("a")), None);
    assert!(!r.contains(&s("a")));
    assert_eq!(r.get(&s("b")), Some(&2));
}

#[test]
fn duplicate_identifier_is_refused() {
    let mut r: SessionRegistry<u32> = SessionRegistry::new();
    assert_eq!(register_with_id(&mut r, s("id"), 1).ok(), Some(s("id")));
    assert!(matches!(register_with_id(&mut r, s("id"), 2), Err(StartError::DuplicateIdentifier)));
    assert_eq!(r.get(&s("id")), Some(&1));
}

#[test]
fn started_sessions_get_distinct_usable_ids() {
    let mut r: SessionRegistry<u32> = SessionRegistry::new();
    let mut ids = Vec::new();
    for h in 0..8u32 {
        let id = register_session(&mut r, h).ok().unwrap();
        assert_eq!(id.len(), 36);
        ids.push(id);
    }
    for (i, id) in ids.iter().enumerate() {
        assert!(ids.iter().filter(|other| *other == id).count() == 1);
        assert_eq!(*lookup_session(&r, id).ok().unwrap(), i as u32);
    }
}

#[test]
fn terminate_twice_is_a_no_op() {
    let mut r: SessionRegistry<u32> = SessionRegistry::new();
    let id = register_session(&mut r, 7).ok().unwrap();
    assert_eq!(terminate_session(&mut r, &id), Some(7));
    assert_eq!(terminate_session(&mut r, &id), None);
    assert_eq!(r.len(), 0);
}

#[test]
fn unknown_or_removed_id_is_not_found() {
    let mut r: SessionRegistry<u32> = SessionRegistry::new();
    assert!(matches!(lookup_session(&r, &s("never")), Err(SessionError::SessionNotFound)));
    assert_eq!(terminate_session(&mut r, &s("never")), None);
    let id = register_session(&mut r, 1).ok().unwrap();
    assert!(lookup_session(&r, &id).is_ok());
    terminate_session(&mut r, &id);
    assert!(matches!(lookup_session(&r, &id), Err(SessionError::SessionNotFound)));
}

#[test]
fn output_is_emitted_before_the_single_exit_event() {
    let mut p = ReaderPump::new(s("sid"));
    let mut buf = vec![0u8; 4096];
    buf[..6].copy_from_slice(b"hello\n");
    match p.on_read(&ReadOutcome::Bytes(6), &buf) {
        Some(PtyEvent::Data { session_id, data }) => {
            assert_eq!(session_id, "sid");
            assert_eq!(data, "hello\n");
        }
        _ => panic!("expected a data event"),
    }
    p.on_emitted(true);
    assert!(p.is_reading());
    assert!(p.on_read(&ReadOutcome::Bytes(0), &buf).is_none());
    assert_eq!(p.phase, PumpPhase::Closing);
    match p.close(&ExitProbe::Exited) {
        PtyEvent::Exit { session_id, status } => {
            assert_eq!(session_id, "sid");
            assert_eq!(status, 0);
        }
        _ => panic!("expected an exit event"),
    }
    assert_eq!(p.phase, PumpPhase::Done);
}

#[test]
fn invalid_bytes_are_replaced() {
    let mut p = ReaderPump::new(s("sid"));
    let buf = vec![b'o', b'k', 0xff, b'!'];
    match p.on_read(&ReadOutcome::Bytes(4), &buf) {
        Some(PtyEvent::Data { data, .. }) => assert_eq!(data, "ok\u{FFFD}!"),
        _ => panic!("expected a data event"),
    }
    match p.on_read(&ReadOutcome::Bytes(2), &buf) {
        Some(PtyEvent::Data { data, .. }) => assert_eq!(data, "ok"),
        _ => panic!("expected a data event"),
    }
}

#[test]
fn read_error_or_lost_host_closes_the_pump() {
    let mut p = ReaderPump::new(s("a"));
    assert!(p.on_read(&ReadOutcome::Failed, &vec![]).is_none());
    assert_eq!(p.phase, PumpPhase::Closing);
    let mut q = ReaderPump::new(s("b"));
    q.on_emitted(false);
    assert!(!q.is_reading());
    match q.close(&ExitProbe::Running) {
        PtyEvent::Exit { status, .. } => assert_eq!(status, -1),
        _ => panic!("expected an exit event"),
    }
}

#[test]
fn exit_status_values() {
    assert_eq!(exit_status(&ExitProbe::Exited), 0);
    assert_eq!(exit_status(&ExitProbe::Running), -1);
    assert_eq!(exit_status(&ExitProbe::Failed), -1);
}

#[test]
fn removed_identifier_is_never_issued_again() {
    let mut r: SessionRegistry<u32> = SessionRegistry::new();
    assert!(!r.was_issued(&s("a")));
    assert!(r.insert(s("a"), 1));
    assert!(r.was_issued(&s("a")));
    assert_eq!(r.remove(&s("a")), Some(1));
    assert!(r.was_issued(&s("a")));
    assert!(!r.insert(s("a"), 2));
    assert!(matches!(register_with_id(&mut r, s("a"), 3), Err(StartError::DuplicateIdentifier)));
    assert_eq!(r.len(), 0);
}

#[test]
fn registration_on_a_fresh_table_succeeds() {
    let mut r: SessionRegistry<u32> = SessionRegistry::new();
    let id = register_session(&mut r, 5).ok().unwrap();
    assert_eq!(id.len(), 36);
    assert!(r.was_issued(&id));
    assert_eq!(r.len(), 1);
}

#[test]
fn chunks_are_emitted_in_read_order() {
    let mut p = ReaderPump::new(s("sid"));
    let mut texts = Vec::new();
    for chunk in [&b"ab"[..], &b"c\xffd"[..], &b"e"[..]] {
        let buf = chunk.to_vec();
        match p.on_read(&ReadOutcome::Bytes(buf.len()), &buf) {
            Some(PtyEvent::Data { session_id, data }) => {
                assert_eq!(session_id, "sid");
                texts.push(data);
            }
            _ => panic!("expected a data event"),
        }
        p.on_emitted(true);
    }
    assert_eq!(texts, vec![s("ab"), s("c\u{FFFD}d"), s("e")]);
    assert!(p.on_read(&ReadOutcome::Bytes(0), &vec![]).is_none());
    assert!(!p.is_reading());
}

#[test]
fn identifier_text_is_hyphenated_version_4_hex() {
    assert_eq!(identifier_from_bytes([0u8; 16]), "00000000-0000-4000-8000-000000000000");
    assert_eq!(identifier_from_bytes([0xffu8; 16]), "ffffffff-ffff-4fff-bfff-ffffffffffff");
    let b: [u8; 16] = [0x12, 0x34, 0x56, 0x78, 0x9a, 0xbc, 0xde, 0xf0, 0x12, 0x34, 0x56, 0x78, 0x9a, 0xbc, 0xde, 0xf0];
    assert_eq!(identifier_from_bytes(b), "12345678-9abc-4ef0-9234-56789abcdef0");
}

#[test]
fn same_random_bytes_twice_clash() {
    let mut r: SessionRegistry<u32> = SessionRegistry::new();
    let id = register_with_bytes(&mut r, [7u8; 16], 1).ok().unwrap();
    assert_eq!(id, "07070707-0707-4707-8707-070707070707");
    assert!(matches!(register_with_bytes(&mut r, [7u8; 16], 2), Err(StartError::DuplicateIdentifier)));
    assert_eq!(r.len(), 1);
    assert_eq!(StartError::IdentifierUnavailable.message(), "failed to generate session identifier");
}
