use barcode_reports::report::{
    continuation, data_fragment, symbology, validate, Rejection, MAX_DATA_LEN, REPORT_LEN,
    SCANNED_DATA_REPORT_ID,
};

fn report(data: &[u8], symbology: [u8; 3], flag: u8) -> Vec<u8> {
    let mut raw: Vec<u8> = vec![0u8; 64];
    raw[0] = 0x02;
    raw[1] = data.len() as u8;
    raw[2..5].copy_from_slice(&symbology);
    raw[5..5 + data.len()].copy_from_slice(data);
    raw[63] = flag;
    raw
}

#[test]
fn constants_match_the_report_layout() {
    assert_eq!(REPORT_LEN, 64);
    assert_eq!(SCANNED_DATA_REPORT_ID, 0x02);
    assert_eq!(MAX_DATA_LEN, 56);
}

#[test]
fn validate_returns_declared_length() {
    let raw = report(&[1, 2, 3, 4, 5], *b"]C1", 0);
    assert_eq!(validate(&raw), Ok(5));
}

#[test]
fn validate_accepts_empty_and_full_window() {
    assert_eq!(validate(&report(&[], *b"]C1", 1)), Ok(0));
    assert_eq!(validate(&report(&[7u8; 56], *b"]C1", 1)), Ok(56));
}

#[test]
fn validate_rejects_every_other_length() {
    let mut len: usize = 0;
    while len < 200 {
        if len != 64 {
            let mut raw: Vec<u8> = vec![0u8; len];
            if len > 1 {
                raw[0] = 0x02;
                raw[1] = 3;
            }
            assert_eq!(validate(&raw), Err(Rejection::BadLength));
        }
        len += 1;
    }
}

#[test]
fn validate_rejects_every_other_report_id() {
    let mut id: u16 = 0;
    while id < 256 {
        let mut raw = report(&[1, 2, 3], *b"]C1", 0);
        raw[0] = id as u8;
        if id == 0x02 {
            assert_eq!(validate(&raw), Ok(3));
        } else {
            assert_eq!(validate(&raw), Err(Rejection::UnexpectedReportId(id as u8)));
        }
        id += 1;
    }
}

#[test]
fn validate_rejects_every_declared_length_above_the_window() {
    let mut n: u16 = 0;
    while n < 256 {
        let mut raw = report(&[], *b"]C1", 0);
        raw[1] = n as u8;
        if n <= 56 {
            assert_eq!(validate(&raw), Ok(n as usize));
        } else {
            assert_eq!(validate(&raw), Err(Rejection::DataLengthOverflow(n as u8)));
        }
        n += 1;
    }
}

#[test]
fn length_is_checked_before_report_id() {
    let mut raw: Vec<u8> = vec![0u8; 63];
    raw[0] = 0x07;
    raw[1] = 200;
    assert_eq!(validate(&raw), Err(Rejection::BadLength));
}

#[test]
fn report_id_is_checked_before_declared_length() {
    let mut raw = report(&[], *b"]C1", 0);
    raw[0] = 0x03;
    raw[1] = 57;
    assert_eq!(validate(&raw), Err(Rejection::UnexpectedReportId(0x03)));
}

#[test]
fn data_fragment_ignores_padding() {
    let mut raw = report(&[0x41, 0x42], *b"]C1", 0);
    raw[7] = 0xEE;
    raw[60] = 0xEE;
    raw[61] = 0xEE;
    raw[62] = 0xEE;
    assert_eq!(data_fragment(&raw), Ok(vec![0x41, 0x42]));
}

#[test]
fn data_fragment_of_full_window() {
    let data: Vec<u8> = (100u8..156u8).collect();
    let raw = report(&data, *b"]C1", 1);
    assert_eq!(data_fragment(&raw), Ok(data));
}

#[test]
fn data_fragment_of_rejected_report() {
    assert_eq!(data_fragment(&[0x02, 1, 0, 0, 0, 9]), Err(Rejection::BadLength));
    let mut raw = report(&[1], *b"]C1", 0);
    raw[1] = 57;
    assert_eq!(data_fragment(&raw), Err(Rejection::DataLengthOverflow(57)));
}

#[test]
fn continuation_reads_the_last_byte() {
    assert_eq!(continuation(&report(&[1], *b"]C1", 0x00)), Ok(false));
    assert_eq!(continuation(&report(&[1], *b"]C1", 0x01)), Ok(true));
    assert_eq!(continuation(&report(&[1], *b"]C1", 0xFF)), Ok(true));
}

#[test]
fn continuation_of_rejected_report() {
    let mut raw = report(&[1], *b"]C1", 0x01);
    raw[0] = 0x04;
    assert_eq!(continuation(&raw), Err(Rejection::UnexpectedReportId(0x04)));
}

#[test]
fn symbology_of_ascii_identifier() {
    let raw = report(&[1, 2], *b"]C1", 0);
    assert_eq!(symbology(&raw), Some(String::from("]C1")));
}

#[test]
fn symbology_keeps_nul_bytes() {
    let raw = report(&[1, 2], [0x00, 0x00, 0x00], 0);
    assert_eq!(symbology(&raw), Some(String::from("\0\0\0")));
}

#[test]
fn symbology_of_multibyte_text() {
    let raw = report(&[1, 2], [0xE2, 0x82, 0xAC], 0);
    assert_eq!(symbology(&raw), Some(String::from("\u{20AC}")));
}

#[test]
fn symbology_absent_for_invalid_text() {
    assert_eq!(symbology(&report(&[1, 2], [0xFF, 0xFE, 0xFD], 0)), None);
    assert_eq!(symbology(&report(&[1, 2], [0x41, 0x80, 0x41], 0)), None);
    assert_eq!(symbology(&report(&[1, 2], [0x41, 0x42, 0xC3], 0)), None);
}

#[test]
fn symbology_absent_for_rejected_report() {
    let mut raw = report(&[1, 2], *b"]C1", 0);
    raw[0] = 0x01;
    assert_eq!(symbology(&raw), None);
    assert_eq!(symbology(b"]C1"), None);
}
