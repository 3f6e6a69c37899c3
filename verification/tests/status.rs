use ql_driver::driver::command::CommandResponse;
use ql_driver::driver::commands::{StatusInfoRequest, STATUS_SIZE};
use ql_driver::error::QlError;
use ql_driver::driver::types::{
    ErrorInformation1, ErrorInformation2, MediaType, PhaseState, PrinterStatus, StatusType,
};

fn frame(
    error1: u8,
    error2: u8,
    width: u8,
    media: u8,
    length: u8,
    status: u8,
    phase: u8,
) -> [u8; 32] {
    let mut frame = [0u8; 32];
    frame[0] = 0x80;
    frame[1] = 0x20;
    frame[8] = error1;
    frame[9] = error2;
    frame[10] = width;
    frame[11] = media;
    frame[17] = length;
    frame[18] = status;
    frame[19] = phase;
    frame
}

#[test]
fn status_reply_is_thirty_two_bytes() {
    assert_eq!(StatusInfoRequest.reply_length(), 32);
    assert_eq!(STATUS_SIZE, 32);
}

#[test]
fn status_frame_round_trips() {
    let reply = frame(0x01 | 0x04 | 0x80, 0x10 | 0x40, 62, 0x0a, 100, 0x02, 0x01);
    assert!(StatusInfoRequest.is_framed(&reply));
    let status = StatusInfoRequest.read_response(&reply).unwrap();
    assert_eq!(
        status,
        PrinterStatus {
            media_width: 62,
            media_length: 100,
            media_type: MediaType::Continuous,
            error1: ErrorInformation1 {
                no_media_when_printing: true,
                end_of_media: false,
                tape_cutter_jam: true,
                main_unit_in_use: false,
                fan_doesnt_work: true,
            },
            error2: ErrorInformation2 {
                transmission_error: false,
                cover_opened_while_printing: true,
                cannot_feed: true,
                system_error: false,
            },
            status_type: StatusType::Error,
            phase_state: PhaseState::Printing,
        }
    );
}

#[test]
fn status_frame_of_an_idle_printer() {
    let reply = frame(0, 0, 29, 0x0b, 90, 0x00, 0x00);
    let status = StatusInfoRequest.read_response(&reply).unwrap();
    assert_eq!(status.media_width, 29);
    assert_eq!(status.media_length, 90);
    assert_eq!(status.media_type, MediaType::DieCutLabels);
    assert_eq!(status.status_type, StatusType::ReplyToStatusRequest);
    assert_eq!(status.phase_state, PhaseState::Waiting);
    assert_eq!(status.error1, ErrorInformation1::from_bits(0));
    assert_eq!(status.error2, ErrorInformation2::from_bits(0));
    assert!(!status.error1.no_media_when_printing);
    assert!(!status.error2.system_error);
}

#[test]
fn status_decoder_reads_only_its_offsets() {
    let mut reply = [0xffu8; 32];
    reply[0] = 0x80;
    reply[1] = 0x20;
    reply[8] = 0x00;
    reply[9] = 0x00;
    reply[10] = 12;
    reply[11] = 0x00;
    reply[17] = 34;
    reply[18] = 0x06;
    reply[19] = 0x00;
    let status = StatusInfoRequest.read_response(&reply).unwrap();
    assert_eq!(status.media_width, 12);
    assert_eq!(status.media_length, 34);
    assert_eq!(status.media_type, MediaType::NoMedia);
    assert_eq!(status.status_type, StatusType::PhaseChange);
    assert_eq!(status.phase_state, PhaseState::Waiting);
    assert_eq!(status.error1, ErrorInformation1::from_bits(0));
    assert_eq!(status.error2, ErrorInformation2::from_bits(0));
}

#[test]
fn every_media_type_code_decodes() {
    let media = |code| StatusInfoRequest.read_response(&frame(0, 0, 0, code, 0, 0, 0)).map(|s| s.media_type);
    assert_eq!(media(0x00), Ok(MediaType::NoMedia));
    assert_eq!(media(0x0a), Ok(MediaType::Continuous));
    assert_eq!(media(0x0b), Ok(MediaType::DieCutLabels));
}

#[test]
fn every_status_type_code_decodes() {
    let kind = |code| StatusInfoRequest.read_response(&frame(0, 0, 0, 0, 0, code, 0)).map(|s| s.status_type);
    assert_eq!(kind(0x00), Ok(StatusType::ReplyToStatusRequest));
    assert_eq!(kind(0x01), Ok(StatusType::PrintingCompleted));
    assert_eq!(kind(0x02), Ok(StatusType::Error));
    assert_eq!(kind(0x05), Ok(StatusType::Notification));
    assert_eq!(kind(0x06), Ok(StatusType::PhaseChange));
}

#[test]
fn every_phase_code_decodes() {
    let phase = |code| StatusInfoRequest.read_response(&frame(0, 0, 0, 0, 0, 0, code)).map(|s| s.phase_state);
    assert_eq!(phase(0x00), Ok(PhaseState::Waiting));
    assert_eq!(phase(0x01), Ok(PhaseState::Printing));
}

#[test]
fn unknown_media_type_is_bad_data() {
    for code in 0..=255u8 {
        let decoded = StatusInfoRequest.read_response(&frame(0, 0, 62, code, 0, 0, 0));
        if code == 0x00 || code == 0x0a || code == 0x0b {
            assert!(decoded.is_ok());
        } else {
            assert_eq!(decoded, Err(QlError::BadData("unknown media type")));
        }
    }
}

#[test]
fn unknown_status_type_is_bad_data() {
    for code in 0..=255u8 {
        let decoded = StatusInfoRequest.read_response(&frame(0, 0, 62, 0x0a, 0, code, 0));
        if code <= 0x02 || code == 0x05 || code == 0x06 {
            assert!(decoded.is_ok());
        } else {
            assert_eq!(decoded, Err(QlError::BadData("unknown status type")));
        }
    }
}

#[test]
fn unknown_phase_is_bad_data() {
    for code in 0..=255u8 {
        let decoded = StatusInfoRequest.read_response(&frame(0, 0, 62, 0x0a, 0, 0, code));
        if code <= 0x01 {
            assert!(decoded.is_ok());
        } else {
            assert_eq!(decoded, Err(QlError::BadData("unknown phase status")));
        }
    }
}

#[test]
fn the_first_unknown_code_is_reported() {
    assert_eq!(
        StatusInfoRequest.read_response(&frame(0, 0, 0, 0x77, 0, 0x77, 0x77)),
        Err(QlError::BadData("unknown media type"))
    );
    assert_eq!(
        StatusInfoRequest.read_response(&frame(0, 0, 0, 0x0a, 0, 0x77, 0x77)),
        Err(QlError::BadData("unknown status type"))
    );
}

#[test]
fn a_frame_without_the_magic_header_is_not_framed() {
    let good = frame(0, 0, 62, 0x0a, 0, 0, 0);
    assert!(StatusInfoRequest.is_framed(&good));
    let mut bad = good;
    bad[0] = 0x81;
    assert!(!StatusInfoRequest.is_framed(&bad));
    let mut bad = good;
    bad[1] = 0x00;
    assert!(!StatusInfoRequest.is_framed(&bad));
    let mut bad = good;
    bad[0] = 0x20;
    bad[1] = 0x80;
    assert!(!StatusInfoRequest.is_framed(&bad));
    assert!(!StatusInfoRequest.is_framed(&[0u8; 32]));
}

#[test]
fn a_frame_of_another_size_is_not_framed() {
    let good = frame(0, 0, 62, 0x0a, 0, 0, 0);
    assert!(!StatusInfoRequest.is_framed(&good[..31]));
    assert!(!StatusInfoRequest.is_framed(&[]));
    assert!(!StatusInfoRequest.is_framed(&[0x80]));
    assert!(!StatusInfoRequest.is_framed(&[0x80, 0x20]));
    let mut long = good.to_vec();
    long.push(0);
    assert!(!StatusInfoRequest.is_framed(&long));
}

#[test]
fn first_error_register_reads_each_flag() {
    let none = ErrorInformation1::from_bits(0x00);
    assert_eq!(
        none,
        ErrorInformation1 {
            no_media_when_printing: false,
            end_of_media: false,
            tape_cutter_jam: false,
            main_unit_in_use: false,
            fan_doesnt_work: false,
        }
    );
    assert!(ErrorInformation1::from_bits(0x01).no_media_when_printing);
    assert!(ErrorInformation1::from_bits(0x02).end_of_media);
    assert!(ErrorInformation1::from_bits(0x04).tape_cutter_jam);
    assert!(ErrorInformation1::from_bits(0x10).main_unit_in_use);
    assert!(ErrorInformation1::from_bits(0x80).fan_doesnt_work);
    assert_eq!(ErrorInformation1::from_bits(0x08 | 0x20 | 0x40), none);
    let all = ErrorInformation1::from_bits(0xff);
    assert!(
        all.no_media_when_printing
            && all.end_of_media
            && all.tape_cutter_jam
            && all.main_unit_in_use
            && all.fan_doesnt_work
    );
}

#[test]
fn first_error_register_flags_are_independent() {
    for bits in 0..=255u8 {
        let register = ErrorInformation1::from_bits(bits);
        assert_eq!(register.no_media_when_printing, bits & 0x01 != 0);
        assert_eq!(register.end_of_media, bits & 0x02 != 0);
        assert_eq!(register.tape_cutter_jam, bits & 0x04 != 0);
        assert_eq!(register.main_unit_in_use, bits & 0x10 != 0);
        assert_eq!(register.fan_doesnt_work, bits & 0x80 != 0);
    }
}

#[test]
fn second_error_register_reads_each_flag() {
    let none = ErrorInformation2::from_bits(0x00);
    assert_eq!(
        none,
        ErrorInformation2 {
            transmission_error: false,
            cover_opened_while_printing: false,
            cannot_feed: false,
            system_error: false,
        }
    );
    assert!(ErrorInformation2::from_bits(0x04).transmission_error);
    assert!(ErrorInformation2::from_bits(0x10).cover_opened_while_printing);
    assert!(ErrorInformation2::from_bits(0x40).cannot_feed);
    assert!(ErrorInformation2::from_bits(0x80).system_error);
    assert_eq!(ErrorInformation2::from_bits(0x01 | 0x02 | 0x08 | 0x20), none);
}

#[test]
fn second_error_register_flags_are_independent() {
    for bits in 0..=255u8 {
        let register = ErrorInformation2::from_bits(bits);
        assert_eq!(register.transmission_error, bits & 0x04 != 0);
        assert_eq!(register.cover_opened_while_printing, bits & 0x10 != 0);
        assert_eq!(register.cannot_feed, bits & 0x40 != 0);
        assert_eq!(register.system_error, bits & 0x80 != 0);
    }
}

#[test]
fn codes_outside_the_protocol_name_nothing() {
    assert_eq!(MediaType::from_code(0x01), None);
    assert_eq!(MediaType::from_code(0x0c), None);
    assert_eq!(StatusType::from_code(0x03), None);
    assert_eq!(StatusType::from_code(0x04), None);
    assert_eq!(StatusType::from_code(0x07), None);
    assert_eq!(PhaseState::from_code(0x02), None);
    assert_eq!(MediaType::from_code(MediaType::DieCutLabels.code()), Some(MediaType::DieCutLabels));
}
