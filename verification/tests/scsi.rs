use picokernel::scsi::{
    csw_bytes, inquiry_standard_response, inquiry_vpd_device_id, inquiry_vpd_serial_number,
    inquiry_vpd_supported_pages, mode_sense10_response, mode_sense6_response,
    read_capacity10_response, read_format_capacities_response, truncate_response,
    CommandBlockWrapper, ScsiSense, SCSI_KEY_ILLEGAL_REQUEST, SCSI_KEY_MEDIUM_ERROR,
};

#[test]
fn sense_codes() {
    let s = ScsiSense::new(1, 2, 3);
    assert_eq!((s.key, s.asc, s.ascq), (1, 2, 3));
    assert_eq!(ScsiSense::no_sense(), ScsiSense::new(0, 0, 0));
    let s = ScsiSense::invalid_cdb();
    assert_eq!((s.key, s.asc, s.ascq), (SCSI_KEY_ILLEGAL_REQUEST, 0x24, 0));
    let s = ScsiSense::lba_out_of_range();
    assert_eq!((s.key, s.asc, s.ascq), (SCSI_KEY_ILLEGAL_REQUEST, 0x21, 0));
    let s = ScsiSense::medium_not_present();
    assert_eq!((s.key, s.asc, s.ascq), (0x02, 0x3a, 0));
    let s = ScsiSense::unrecovered_read_error();
    assert_eq!((s.key, s.asc, s.ascq), (SCSI_KEY_MEDIUM_ERROR, 0x11, 0));
    let s = ScsiSense::unrecovered_write_error();
    assert_eq!((s.key, s.asc, s.ascq), (SCSI_KEY_MEDIUM_ERROR, 0x03, 0x01));
    let s = ScsiSense::write_protected();
    assert_eq!((s.key, s.asc, s.ascq), (0x07, 0x27, 0));
}

fn sample_cbw() -> Vec<u8> {
    let mut buf = vec![0u8; 31];
    buf[0..4].copy_from_slice(&[0x55, 0x53, 0x42, 0x43]); // "USBC"
    buf[4..8].copy_from_slice(&[0x78, 0x56, 0x34, 0x12]); // tag
    buf[8..12].copy_from_slice(&[0x00, 0x02, 0x00, 0x00]); // transfer length 512
    buf[12] = 0x80;
    buf[13] = 0;
    buf[14] = 10;
    for k in 0..16 {
        buf[15 + k] = k as u8;
    }
    buf
}

#[test]
fn cbw_parsing() {
    let buf = sample_cbw();
    let cbw = CommandBlockWrapper::parse(&buf).unwrap();
    assert_eq!(cbw.dCBWSignature, 0x43425355);
    assert_eq!(cbw.dCBWTag, 0x12345678);
    assert_eq!(cbw.dCBWDataTransferLength, 512);
    assert_eq!(cbw.bmCBWFlags, 0x80);
    assert_eq!(cbw.bCBWLUN, 0);
    assert_eq!(cbw.bCBWCBLength, 10);
    assert_eq!(cbw.CBWCB.len(), 16);
    assert_eq!(cbw.CBWCB[3], 3);
}

#[test]
fn cbw_rejects_bad_input() {
    let mut buf = sample_cbw();
    buf[0] = 0x54; // wrong signature
    assert!(CommandBlockWrapper::parse(&buf).is_none());
    let buf = sample_cbw();
    assert!(CommandBlockWrapper::parse(&buf[..30]).is_none());
}

#[test]
fn csw_layout() {
    let csw = csw_bytes(0x12345678, 0x01, 7);
    assert_eq!(csw.len(), 13);
    assert_eq!(&csw[0..4], &[0x55, 0x53, 0x42, 0x53]); // "USBS"
    assert_eq!(&csw[4..8], &[0x78, 0x56, 0x34, 0x12]);
    assert_eq!(&csw[8..12], &[7, 0, 0, 0]);
    assert_eq!(csw[12], 0x01);
}

#[test]
fn inquiry_data() {
    let r = inquiry_standard_response();
    assert_eq!(r.len(), 36);
    assert_eq!(&r[0..5], &[0x00, 0x80, 0x05, 0x02, 31]);
    assert_eq!(&r[8..16], b"LEGTCMPR");
    assert_eq!(&r[16..32], b"Pico Calc Sdcard");
    assert_eq!(&r[32..36], b"1.00");
}

#[test]
fn inquiry_vpd_pages() {
    assert_eq!(inquiry_vpd_supported_pages(), vec![0x00, 0x00, 0x00, 0x03, 0x00, 0x80, 0x83]);
    let serial = inquiry_vpd_serial_number();
    assert_eq!(&serial[0..4], &[0x00, 0x80, 0x00, 9]);
    assert_eq!(&serial[4..], b"Pico Calc");
    let id = inquiry_vpd_device_id();
    assert_eq!(&id[0..8], &[0x00, 0x83, 0x00, 10, 0x02, 0x01, 0x00, 6]);
    assert_eq!(&id[8..], b"SdCard");
}

#[test]
fn mode_sense_data() {
    assert_eq!(mode_sense6_response(), vec![0x03, 0x00, 0x00, 0x00]);
    assert_eq!(mode_sense10_response(), vec![0x00, 0x06, 0, 0, 0, 0, 0, 0]);
}

#[test]
fn read_capacity_data() {
    // A 4 MiB card: 8192 blocks, so the last block address is 8191.
    let r = read_capacity10_response(4 * 1024 * 1024);
    assert_eq!(&r[0..4], &8191u32.to_be_bytes());
    assert_eq!(&r[4..8], &512u32.to_be_bytes());
    // An empty card reports block zero rather than wrapping below it.
    let r = read_capacity10_response(0);
    assert_eq!(&r[0..4], &[0, 0, 0, 0]);
}

#[test]
fn format_capacities_data() {
    let r = read_format_capacities_response(4 * 1024 * 1024);
    assert_eq!(r.len(), 12);
    assert_eq!(&r[0..4], &[0, 0, 0, 8]);
    assert_eq!(&r[4..8], &8192u32.to_be_bytes());
    assert_eq!(r[8], 0x03);
    assert_eq!(&r[9..12], &[0x00, 0x02, 0x00]);
}

#[test]
fn response_truncation() {
    let full = inquiry_standard_response();
    let r = truncate_response(&full, 5);
    assert_eq!(r.len(), 5);
    assert_eq!(&r[..], &full[..5]);
    let r = truncate_response(&full, 100);
    assert_eq!(r.len(), 36);
}
