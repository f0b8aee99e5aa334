use blackgpib::pi::controller::{ControllerError, ControllerSession, ControllerStep, Event, Operation, Phase};
use blackgpib::disk_protocol::{RequestCode, StatusResponseErrno};

fn status_bytes(sector_count: u16) -> Vec<u8> {
    let mut bytes = vec![0u8; 52];
    bytes[0] = 0x00;
    bytes[1] = 0x02;
    bytes[2] = 0xf8;
    bytes[3] = 0x01;
    bytes[4] = (sector_count & 0xff) as u8;
    bytes[5] = (sector_count >> 8) as u8;
    bytes[6] = 1;
    bytes
}

fn respond(session: &mut ControllerSession, bytes: &[u8]) -> ControllerStep {
    session.begin_response();
    for (i, b) in bytes.iter().enumerate() {
        session.response_byte(*b, i + 1 == bytes.len());
    }
    session.next(Event::Received)
}

fn formatted_sector() -> Vec<u8> {
    let mut sector = vec![0xe5u8; 512];
    sector[..8].fill(0xff);
    sector
}

fn expect_send(step: ControllerStep, code: RequestCode, sector: u32, size: u16) {
    match step {
        ControllerStep::Send(r) => {
            assert_eq!(r.code, code);
            assert_eq!(r.sector, sector);
            assert_eq!(r.data_size, size);
        },
        other => panic!("expected a request, got {other:?}"),
    }
}

#[test]
fn status_session() {
    let mut session = ControllerSession::new(4, Operation::Status);
    assert_eq!(session.address(), 4);
    expect_send(session.next(Event::Started), RequestCode::GET_STATUS(), 0, 54);
    assert!(matches!(session.next(Event::Sent), ControllerStep::Receive));
    match respond(&mut session, &status_bytes(720)) {
        ControllerStep::Reported(st) => {
            assert_eq!(st.sector_count, 720);
            assert_eq!(st.size(), 368_640);
        },
        other => panic!("expected the status, got {other:?}"),
    }
    assert!(matches!(session.next(Event::Reported), ControllerStep::Finished));
    assert_eq!(session.phase(), Phase::Done);
}

#[test]
fn format_and_validate_session() {
    let mut session = ControllerSession::new(5, Operation::Format { validate: true });
    session.next(Event::Started);
    session.next(Event::Sent);
    assert!(matches!(respond(&mut session, &status_bytes(2)), ControllerStep::Reported(_)));
    expect_send(session.next(Event::Reported), RequestCode::FORMAT(), 0, 1);
    assert!(matches!(session.next(Event::Sent), ControllerStep::SerialPoll));
    assert!(matches!(session.next(Event::Polled(0x4F)), ControllerStep::Receive));
    expect_send(respond(&mut session, &[0, 0, 0, 0, 0, 0, 0]), RequestCode::GET_STATUS(), 0, 54);
    assert!(matches!(session.next(Event::Sent), ControllerStep::Receive));
    expect_send(respond(&mut session, &status_bytes(2)), RequestCode::READ(), 0, 512);
    assert_eq!(session.sector_count(), 2);

    for sector in 0..2u32 {
        assert!(matches!(session.next(Event::Sent), ControllerStep::SerialPoll));
        assert!(matches!(session.next(Event::Polled(0x4F)), ControllerStep::Receive));
        let step = respond(&mut session, &formatted_sector());
        if sector == 0 {
            expect_send(step, RequestCode::READ(), 1, 512);
        } else {
            assert!(matches!(step, ControllerStep::Finished));
        }
    }
}

#[test]
fn format_session_failures() {
    let mut session = ControllerSession::new(5, Operation::Format { validate: false });
    session.next(Event::Started);
    session.next(Event::Sent);
    respond(&mut session, &status_bytes(2));
    session.next(Event::Reported);
    session.next(Event::Sent);
    assert!(matches!(session.next(Event::Polled(0x0F)), ControllerStep::Failed(ControllerError::AnotherDevice)));

    let mut session = ControllerSession::new(5, Operation::Format { validate: false });
    session.next(Event::Started);
    session.next(Event::Sent);
    respond(&mut session, &status_bytes(2));
    session.next(Event::Reported);
    session.next(Event::Sent);
    session.next(Event::Polled(0x4F));
    match respond(&mut session, &[0x68, 0, 0, 0, 0, 0, 0]) {
        ControllerStep::Failed(ControllerError::DiskError(status)) => {
            assert_eq!(status, StatusResponseErrno::NOT_FORMATTED())
        },
        other => panic!("expected a disk error, got {other:?}"),
    }
}

#[test]
fn read_disk_session() {
    let mut session = ControllerSession::new(4, Operation::ReadDisk);
    session.next(Event::Started);
    session.next(Event::Sent);
    respond(&mut session, &status_bytes(1));
    expect_send(session.next(Event::Reported), RequestCode::GET_STATUS(), 0, 54);
    session.next(Event::Sent);
    expect_send(respond(&mut session, &status_bytes(1)), RequestCode::READ(), 0, 512);
    session.next(Event::Sent);
    session.next(Event::Polled(0x4F));
    assert!(matches!(respond(&mut session, &[7u8; 512]), ControllerStep::Store));
    assert_eq!(session.response(), &[7u8; 512][..]);
    assert!(matches!(session.next(Event::Stored), ControllerStep::Finished));
}

#[test]
fn write_disk_session() {
    let mut session = ControllerSession::new(4, Operation::WriteDisk);
    session.next(Event::Started);
    session.next(Event::Sent);
    respond(&mut session, &status_bytes(1));
    session.next(Event::Reported);
    session.next(Event::Sent);
    match respond(&mut session, &status_bytes(1)) {
        ControllerStep::SendWithSector(r) => {
            assert_eq!(r.code, RequestCode::WRITE());
            assert_eq!(r.sector, 0);
        },
        other => panic!("expected a write, got {other:?}"),
    }
    let data = vec![9u8; 512];
    assert!(matches!(session.next(Event::SectorSent(data.clone())), ControllerStep::SerialPoll));
    session.next(Event::Polled(0x4F));
    expect_send(respond(&mut session, &[0, 0, 0, 0, 0, 0, 0]), RequestCode::READ(), 0, 512);
    session.next(Event::Sent);
    session.next(Event::Polled(0x4F));
    assert!(matches!(respond(&mut session, &data), ControllerStep::Finished));

    let mut session = ControllerSession::new(4, Operation::WriteDisk);
    session.next(Event::Started);
    session.next(Event::Sent);
    respond(&mut session, &status_bytes(1));
    session.next(Event::Reported);
    session.next(Event::Sent);
    respond(&mut session, &status_bytes(1));
    session.next(Event::SectorSent(data.clone()));
    session.next(Event::Polled(0x4F));
    respond(&mut session, &[0, 0, 0, 0, 0, 0, 0]);
    session.next(Event::Sent);
    session.next(Event::Polled(0x4F));
    assert!(matches!(respond(&mut session, &[8u8; 512]), ControllerStep::Failed(ControllerError::DataMismatch)));
}

#[test]
fn legacy_session_asks_for_52_bytes_and_reads() {
    let mut session = ControllerSession::new_legacy(6, Operation::ReadDisk);
    expect_send(session.next(Event::Started), RequestCode::GET_STATUS(), 0, 52);
    session.next(Event::Sent);
    assert!(matches!(respond(&mut session, &status_bytes(1)), ControllerStep::Reported(_)));
    expect_send(session.next(Event::Reported), RequestCode::GET_STATUS(), 0, 52);
    session.next(Event::Sent);
    expect_send(respond(&mut session, &status_bytes(1)), RequestCode::READ(), 0, 512);
    session.next(Event::Sent);
    assert!(matches!(session.next(Event::Polled(0x4F)), ControllerStep::Receive));
    assert!(matches!(respond(&mut session, &[3u8; 512]), ControllerStep::Store));
    assert!(matches!(session.next(Event::Stored), ControllerStep::Finished));
}

#[test]
fn legacy_format_accepts_a_leading_zero() {
    let mut session = ControllerSession::new_legacy(6, Operation::Format { validate: false });
    session.next(Event::Started);
    session.next(Event::Sent);
    respond(&mut session, &status_bytes(1));
    expect_send(session.next(Event::Reported), RequestCode::FORMAT(), 0, 1);
    session.next(Event::Sent);
    session.next(Event::Polled(0x4F));
    // The first controller looks only at the first byte of the answer.
    assert!(matches!(respond(&mut session, &[0, 5, 0, 0, 0, 0, 0]), ControllerStep::Finished));
}
