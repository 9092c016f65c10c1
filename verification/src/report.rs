//! The layout of an incoming "Scanned Data Report" and its validation.
//!
//! | offset | field                                          |
//! |--------|------------------------------------------------|
//! | 0      | report id, `0x02`                              |
//! | 1      | number of valid data bytes, at most 56         |
//! | 2..5   | symbology identifier, conventionally ASCII     |
//! | 5..61  | data window; only the declared prefix is valid |
//! | 61..63 | vendor bytes, ignored                          |
//! | 63     | continuation flag, zero on the last report     |

use vstd::prelude::*;
use vstd::string::StringSliceAdditionalSpecFns;
use vstd::utf8::{
    decode_utf8, encode_utf8, encode_utf8_decode_utf8, is_ascii_chars, is_ascii_chars_encode_utf8,
    is_leading_byte_width_1, partial_valid_utf8, partial_valid_utf8_extend_ascii_block, valid_utf8,
};

verus! {

/// Length in bytes of every incoming report.
pub const REPORT_LEN: usize = 64;

/// Report id of a "Scanned Data Report".
pub const SCANNED_DATA_REPORT_ID: u8 = 0x02;

/// Largest data length a report may declare: the size of its data window.
pub const MAX_DATA_LEN: u8 = 56;

/// Offset of the declared data length.
pub const DATA_LEN_OFFSET: usize = 1;

/// Offset of the first symbology byte.
pub const SYMBOLOGY_OFFSET: usize = 2;

/// Offset of the first data byte.
pub const DATA_OFFSET: usize = 5;

/// Offset of the continuation flag.
pub const CONTINUATION_OFFSET: usize = 63;

/// Why a buffer is not an acceptable scanned-data report.
#[derive(Clone, Copy, Debug, PartialEq, Eq, Structural)]
pub enum Rejection {
    /// The buffer is not exactly 64 bytes long.
    BadLength,
    /// The first byte, carried here, is not the scanned-data report id.
    UnexpectedReportId(u8),
    /// The declared data length, carried here, exceeds the data window.
    DataLengthOverflow(u8),
}

/// The reason for which `raw` is rejected, if it is. The checks apply in a
/// fixed order: length, then report id, then declared data length.
pub open spec fn rejection(raw: Seq<u8>) -> Option<Rejection> {
    if raw.len() != REPORT_LEN {
        Some(Rejection::BadLength)
    } else if raw[0] != SCANNED_DATA_REPORT_ID {
        Some(Rejection::UnexpectedReportId(raw[0]))
    } else if raw[DATA_LEN_OFFSET as int] > MAX_DATA_LEN {
        Some(Rejection::DataLengthOverflow(raw[DATA_LEN_OFFSET as int]))
    } else {
        None
    }
}

/// `raw` passes every framing check.
pub open spec fn well_formed(raw: Seq<u8>) -> bool {
    rejection(raw) is None
}

/// The data fragment of a well-formed report: the declared number of bytes
/// from the start of the data window. Padding behind it is not part of it.
pub open spec fn fragment(raw: Seq<u8>) -> Seq<u8>
    recommends
        well_formed(raw),
{
    raw.subrange(DATA_OFFSET as int, DATA_OFFSET + raw[DATA_LEN_OFFSET as int])
}

/// The three raw symbology bytes of a well-formed report.
pub open spec fn symbology_bytes(raw: Seq<u8>) -> Seq<u8>
    recommends
        well_formed(raw),
{
    raw.subrange(SYMBOLOGY_OFFSET as int, DATA_OFFSET as int)
}

/// More reports follow this one in the same burst.
pub open spec fn continues(raw: Seq<u8>) -> bool
    recommends
        well_formed(raw),
{
    raw[CONTINUATION_OFFSET as int] != 0
}

/// Checks the framing of `raw` and returns the declared data length, or the
/// first check that failed.
pub fn validate(raw: &[u8]) -> (res: Result<usize, Rejection>)
    ensures
        match res {
            Ok(n) => well_formed(raw@) && n == raw@[DATA_LEN_OFFSET as int],
            Err(e) => rejection(raw@) == Some(e),
        },
{
    if raw.len() != REPORT_LEN {
        return Err(Rejection::BadLength);
    }
    if raw[0] != SCANNED_DATA_REPORT_ID {
        return Err(Rejection::UnexpectedReportId(raw[0]));
    }
    let declared: u8 = raw[DATA_LEN_OFFSET];
    if declared > MAX_DATA_LEN {
        return Err(Rejection::DataLengthOverflow(declared));
    }
    Ok(declared as usize)
}

/// Copies the data fragment out of `raw`, or says why `raw` is rejected.
pub fn data_fragment(raw: &[u8]) -> (res: Result<Vec<u8>, Rejection>)
    ensures
        match res {
            Ok(data) => well_formed(raw@) && data@ == fragment(raw@),
            Err(e) => rejection(raw@) == Some(e),
        },
{
    match validate(raw) {
        Ok(n) => {
            let mut data: Vec<u8> = Vec::new();
            data.extend_from_slice(&raw[DATA_OFFSET..DATA_OFFSET + n]);
            assert(data@ =~= fragment(raw@));
            Ok(data)
        },
        Err(e) => Err(e),
    }
}

/// Whether `raw` announces further reports of the same burst, or why `raw`
/// is rejected.
pub fn continuation(raw: &[u8]) -> (res: Result<bool, Rejection>)
    ensures
        match res {
            Ok(more) => well_formed(raw@) && more == continues(raw@),
            Err(e) => rejection(raw@) == Some(e),
        },
{
    match validate(raw) {
        Ok(_) => Ok(raw[CONTINUATION_OFFSET] != 0),
        Err(e) => Err(e),
    }
}

/// `std::str::from_utf8`: the bytes as a string slice when they are valid
/// UTF-8, nothing when they are not. The slice returned covers exactly the
/// bytes given. None of this is proved here.
#[verifier::external_body]
fn utf8_text(bytes: &[u8]) -> (res: Option<&str>)
    ensures
        res is Some <==> valid_utf8(bytes@),
        res matches Some(s) ==> s.spec_bytes() == bytes@,
{
    match std::str::from_utf8(bytes) {
        Ok(s) => Some(s),
        Err(_) => None,
    }
}

/// The symbology identifier of `raw` as text.
///
/// A rejected report has none. A well-formed report has one exactly when its
/// three symbology bytes are valid UTF-8; bytes that are not text are no
/// reason to reject the report, they only leave it without an identifier.
pub fn symbology(raw: &[u8]) -> (res: Option<String>)
    ensures
        res is Some <==> well_formed(raw@) && valid_utf8(symbology_bytes(raw@)),
        res matches Some(s) ==> s@ == decode_utf8(symbology_bytes(raw@)),
{
    match validate(raw) {
        Ok(_) => {
            match utf8_text(&raw[SYMBOLOGY_OFFSET..DATA_OFFSET]) {
                Some(text) => {
                    proof {
                        encode_utf8_decode_utf8(text@);
                    }
                    Some(text.to_owned())
                },
                None => None,
            }
        },
        Err(_) => None,
    }
}

/// Three ASCII symbology bytes, the conventional case, are always text: the
/// identifier is the three characters with those codes.
pub proof fn lemma_ascii_symbology_is_text(raw: Seq<u8>)
    requires
        well_formed(raw),
        forall|i: int| SYMBOLOGY_OFFSET <= i < DATA_OFFSET ==> raw[i] <= 0x7F,
    ensures
        valid_utf8(symbology_bytes(raw)),
        decode_utf8(symbology_bytes(raw)) == seq![raw[2] as char, raw[3] as char, raw[4] as char],
{
    let bytes = symbology_bytes(raw);
    let chars = seq![raw[2] as char, raw[3] as char, raw[4] as char];
    assert(bytes.len() == 3);
    assert(forall|i: int| 0 <= i < 3 ==> bytes[i] == raw[i + 2]);
    assert(forall|i: int| 0 <= i < 3 ==> #[trigger] is_leading_byte_width_1(bytes[i]));
    assert(partial_valid_utf8(bytes, 0)) by {
        assert(bytes.subrange(0, 0).len() == 0);
    }
    partial_valid_utf8_extend_ascii_block(bytes, 0, 3);
    assert(bytes.subrange(0, 3) =~= bytes);
    assert(is_ascii_chars(chars));
    is_ascii_chars_encode_utf8(chars);
    assert(encode_utf8(chars) =~= bytes);
    encode_utf8_decode_utf8(chars);
}

} // verus!
