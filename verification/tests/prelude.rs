use ql_driver::prelude::{
    Command, CommandResponse, Initialize, MediaType, PrinterCommandMode, RasterTransfer, Reset,
    SetCommandMode, SetPrintInformation, StatusInfoRequest, StatusType,
};
use ql_driver::QlError;

#[test]
fn the_prelude_brings_commands_and_types() {
    assert_eq!(Reset.to_bytes().len(), 200);
    assert_eq!(Initialize.to_bytes(), vec![0x1b, 0x40]);
    assert_eq!(
        SetCommandMode::new(PrinterCommandMode::Raster).to_bytes(),
        vec![0x1b, 0x69, 0x61, 0x01]
    );
    assert_eq!(
        SetPrintInformation::new(MediaType::Continuous, 62, 0, 1).to_bytes().len(),
        13
    );
    assert_eq!(StatusInfoRequest.reply_length(), 32);
    assert_eq!(StatusType::from_code(0x05), Some(StatusType::Notification));
}

#[test]
fn the_prelude_brings_the_raster_transfer() {
    let mut ship = match RasterTransfer::new(1).start_transfer() {
        Ok(ship) => ship,
        Err(error) => panic!("{}", error.message()),
    };
    ship.push_bits(&[true, true, true, true]);
    assert_eq!(ship.send_line(), vec![b'g', 0, 1, 0xf0]);
}

#[test]
fn the_error_is_at_the_root() {
    let mut reply = [0u8; 32];
    reply[0] = 0x80;
    reply[1] = 0x20;
    reply[18] = 0x03;
    assert_eq!(
        StatusInfoRequest.read_response(&reply),
        Err(QlError::BadData("unknown status type"))
    );
    assert_eq!(QlError::ReadTimeout, ql_driver::error::QlError::ReadTimeout);
}
