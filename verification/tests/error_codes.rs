use ffav::{check_non_negative, check_status, AvError};

fn tag(a: u8, b: u8, c: u8, d: u8) -> i32 {
    -((a as u32 | (b as u32) << 8 | (c as u32) << 16 | (d as u32) << 24) as i32)
}

#[test]
fn posix_codes_decode_to_their_variants() {
    assert_eq!(AvError::from(-11), AvError::Again);
    assert_eq!(AvError::from(-16), AvError::Busy);
    assert_eq!(AvError::from(-111), AvError::ConnectionRefused);
    assert_eq!(AvError::from(-110), AvError::ConnectionTimeOut);
    assert_eq!(AvError::from(-33), AvError::NumericalDomain);
    assert_eq!(AvError::from(-27), AvError::FileTooLarge);
    assert_eq!(AvError::from(-22), AvError::InvalidArgument);
    assert_eq!(AvError::from(-19), AvError::NoSuchDevice);
    assert_eq!(AvError::from(-2), AvError::NoSuchFile);
    assert_eq!(AvError::from(-38), AvError::NotImplemented);
    assert_eq!(AvError::from(-93), AvError::ProtocolUnsupported);
}

#[test]
fn tagged_codes_decode_to_their_variants() {
    assert_eq!(AvError::from(tag(0xF8, b'B', b'S', b'F')), AvError::BsfNotFound);
    assert_eq!(AvError::from(tag(b'B', b'U', b'G', b'!')), AvError::Bug);
    assert_eq!(AvError::from(tag(b'B', b'U', b'F', b'S')), AvError::BufferTooSmall);
    assert_eq!(AvError::from(tag(0xF8, b'D', b'E', b'C')), AvError::DecoderNotFound);
    assert_eq!(AvError::from(tag(0xF8, b'D', b'E', b'M')), AvError::DemuxerNotFound);
    assert_eq!(AvError::from(tag(0xF8, b'E', b'N', b'C')), AvError::EncoderNotFound);
    assert_eq!(AvError::from(tag(b'E', b'O', b'F', b' ')), AvError::EndOfFile);
    assert_eq!(AvError::from(tag(b'E', b'X', b'I', b'T')), AvError::ExitRequested);
    assert_eq!(AvError::from(tag(b'E', b'X', b'T', b' ')), AvError::ExternalError);
    assert_eq!(AvError::from(tag(0xF8, b'F', b'I', b'L')), AvError::FilterNotFound);
    assert_eq!(AvError::from(tag(b'I', b'N', b'D', b'A')), AvError::InvalidData);
    assert_eq!(AvError::from(tag(0xF8, b'M', b'U', b'X')), AvError::MuxerNotFound);
    assert_eq!(AvError::from(tag(0xF8, b'O', b'P', b'T')), AvError::OptionNotFound);
    assert_eq!(AvError::from(tag(b'P', b'A', b'W', b'E')), AvError::PatchWelcome);
    assert_eq!(AvError::from(tag(0xF8, b'P', b'R', b'O')), AvError::ProtocolNotFound);
    assert_eq!(AvError::from(tag(0xF8, b'S', b'T', b'R')), AvError::StreamNotFound);
    assert_eq!(AvError::from(tag(b'B', b'U', b'G', b' ')), AvError::Bug2);
    assert_eq!(AvError::from(tag(b'U', b'N', b'K', b'N')), AvError::Unknown);
    assert_eq!(AvError::from(-0x2bb2afa8), AvError::Experimental);
    assert_eq!(AvError::from(-0x636e6701), AvError::InputChanged);
    assert_eq!(AvError::from(-0x636e6702), AvError::OutputChanged);
    assert_eq!(AvError::from(tag(0xF8, b'4', b'0', b'0')), AvError::HttpBadRequest);
    assert_eq!(AvError::from(tag(0xF8, b'4', b'0', b'1')), AvError::HttpUnauthorized);
    assert_eq!(AvError::from(tag(0xF8, b'4', b'0', b'3')), AvError::HttpForbidden);
    assert_eq!(AvError::from(tag(0xF8, b'4', b'0', b'4')), AvError::HttpNotFound);
    assert_eq!(AvError::from(tag(0xF8, b'4', b'X', b'X')), AvError::HttpOther400);
    assert_eq!(AvError::from(tag(0xF8, b'5', b'X', b'X')), AvError::HttpServerError);
}

#[test]
fn other_codes_decode_to_misc_io_error_with_the_code() {
    assert_eq!(AvError::from(-1), AvError::MiscIoError(-1));
    assert_eq!(AvError::from(-12), AvError::MiscIoError(-12));
    assert_eq!(AvError::from(i32::MIN), AvError::MiscIoError(i32::MIN));
    // one past a tag is no tag
    assert_eq!(AvError::from(tag(b'E', b'O', b'F', b' ') - 1), AvError::MiscIoError(tag(b'E', b'O', b'F', b' ') - 1));
}

#[test]
fn different_codes_give_different_errors() {
    let codes = [-1, -2, -11, -12, -16, -110, -111, tag(b'E', b'O', b'F', b' '), tag(b'B', b'U', b'G', b'!'), tag(b'B', b'U', b'G', b' ')];
    for (i, a) in codes.iter().enumerate() {
        for (j, b) in codes.iter().enumerate() {
            assert_eq!(i == j, AvError::from(*a) == AvError::from(*b));
        }
    }
}

#[test]
fn zero_status_is_success() {
    assert_eq!(check_status(0), Ok(()));
    assert_eq!(check_status(-22), Err(AvError::InvalidArgument));
    assert_eq!(check_status(tag(b'E', b'O', b'F', b' ')), Err(AvError::EndOfFile));
}

#[test]
fn non_negative_status_is_success() {
    assert_eq!(check_non_negative(0), Ok(()));
    assert_eq!(check_non_negative(1), Ok(()));
    assert_eq!(check_non_negative(i32::MAX), Ok(()));
    assert_eq!(check_non_negative(-11), Err(AvError::Again));
    assert_eq!(check_non_negative(-5), Err(AvError::MiscIoError(-5)));
}

#[test]
fn messages_of_errors() {
    assert_eq!(AvError::Again.message(), "Resource temporarily unavailable");
    assert_eq!(AvError::EndOfFile.message(), "End of file");
    assert_eq!(AvError::Bug.message(), "Internal bug");
    assert_eq!(AvError::Bug2.message(), "Internal bug");
    assert_eq!(AvError::PatchWelcome.message(), "Not yet implemented in FFmpeg, patches welcome");
    assert_eq!(AvError::HttpOther400.message(), "Http 4XX");
    assert_eq!(AvError::MiscIoError(-5).message(), "Misc IO Error");
}
