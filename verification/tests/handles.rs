use ffav::codec::{push_pix_fmt, AvCodec, AvCodecContext, AvCodecParameters, PIX_FMT_NONE};
use ffav::context::{
    ContextType, DecodeContext, EncodeContext, FormatRelease, InputContext, OutputContext,
};
use ffav::dict::AvDictionary;
use ffav::format::{AvFormatContext, AvOutputFormat};
use ffav::frame::AvFrame;
use ffav::packet::AvPacket;
use ffav::stream::AvStream;
use ffav::sws::SwsContext;
use ffav::{AvBorrow, AvBorrowMut, AvError, AvOwnable, AvOwned};

#[test]
fn null_allocations_give_none() {
    assert!(AvFrame::from_raw(0).is_none());
    assert_eq!(AvFrame::from_raw(0x1000).map(|f| f.as_raw()), Some(0x1000));
    assert!(AvPacket::from_raw(0).is_none());
    assert_eq!(AvPacket::from_raw(0x2000).map(|p| p.as_raw()), Some(0x2000));
    assert!(SwsContext::from_raw(0).is_none());
    assert_eq!(SwsContext::from_raw(0x30).map(|s| s.as_raw()), Some(0x30));
    assert!(AvOutputFormat::from_raw(0).is_none());
    assert_eq!(AvOutputFormat::from_raw(0x40).map(|s| s.as_raw()), Some(0x40));
    assert!(AvCodecContext::<DecodeContext>::from_raw(0).is_none());
    assert_eq!(AvCodecContext::<EncodeContext>::from_raw(0x50).map(|c| c.as_raw()), Some(0x50));
}

#[test]
fn codec_lookup_without_result_gives_none() {
    assert!(AvCodec::<DecodeContext>::from_raw(0).is_none());
    assert_eq!(AvCodec::<EncodeContext>::from_raw(0x77).map(|c| c.as_raw()), Some(0x77));
    assert_eq!(AvCodec::<DecodeContext>::wrap_raw(0x78).as_raw(), 0x78);
}

#[test]
fn empty_dictionary_is_null_and_drop_nulls_it() {
    let mut d = AvDictionary::empty();
    assert_eq!(d.as_raw(), 0);
    d.set_raw(0x1234);
    assert_eq!(d.as_raw(), 0x1234);
    AvOwnable::drop(&mut *d);
    assert_eq!(d.as_raw(), 0);
}

#[test]
fn codec_parameters_drop_nulls_them() {
    let mut p = AvCodecParameters::from_raw(0x99);
    assert_eq!(p.as_raw(), 0x99);
    AvOwnable::drop(&mut *p);
    assert_eq!(p.as_raw(), 0);
}

struct Counter {
    released: u32,
}

impl AvOwnable for Counter {
    fn drop(&mut self) {
        self.released += 1;
    }
}

#[test]
fn owned_value_reads_back() {
    let mut o = AvOwned::wrap(Counter { released: 7 });
    assert_eq!(o.released, 7);
    o.released = 9;
    assert_eq!(o.released, 9);
}

#[test]
fn borrowed_value_reads_back() {
    let src = 5u8;
    let b = AvBorrow::wrap(&src, 42u32);
    assert_eq!(*b, 42);
    let mut src2 = 6u8;
    let mut m = AvBorrowMut::wrap(&mut src2, 1u32);
    *m += 1;
    assert_eq!(*m, 2);
}

#[test]
fn format_context_from_status() {
    let ok = AvFormatContext::<InputContext>::from_status(0, 0x500);
    assert_eq!(ok.map(|c| c.as_raw()), Ok(0x500));
    let err = AvFormatContext::<OutputContext>::from_status(-2, 0);
    assert_eq!(err.map(|c| c.as_raw()), Err(AvError::NoSuchFile));
}

#[test]
fn stream_index_must_be_below_stream_count() {
    let ctx = AvFormatContext::<InputContext>::from_status(0, 0x500).unwrap();
    let streams = [0x10usize, 0x20, 0x30];
    let s = ctx.stream(&streams, 1).unwrap();
    assert_eq!(s.format_raw(), 0x500);
    assert_eq!(s.stream_raw(), 0x20);
    assert!(ctx.stream(&streams, 3).is_none());
    assert!(ctx.stream(&[], 0).is_none());
    let mut ctx = ctx;
    let m = ctx.stream_mut(&streams, 2).unwrap();
    assert_eq!(m.stream_raw(), 0x30);
}

#[test]
fn new_stream_null_gives_none() {
    let mut ctx = AvFormatContext::<OutputContext>::from_status(0, 0x600).unwrap();
    assert!(ctx.new_stream(0).is_none());
    let s = ctx.new_stream(0x66).unwrap();
    assert_eq!(s.format_raw(), 0x600);
    assert_eq!(s.stream_raw(), 0x66);
}

#[test]
fn io_slot_and_codec_parameters_carry_their_address() {
    let mut ctx = AvFormatContext::<OutputContext>::from_status(0, 0x600).unwrap();
    assert_eq!(ctx.pb(0x608).as_raw(), 0x608);
    assert_eq!(ctx.pb_mut(0x610).as_raw(), 0x610);
    let mut stream = AvStream::<OutputContext>::wrap(0x600, 0x700);
    assert_eq!(stream.codec_parameters(0x710).as_raw(), 0x710);
    assert_eq!(stream.codec_parameters_mut(0x720).as_raw(), 0x720);
}

#[test]
fn pixel_formats_end_at_none() {
    let list = [0, 3, 25, PIX_FMT_NONE, 7];
    let mut fmts = Vec::new();
    for &f in list.iter() {
        if !push_pix_fmt(&mut fmts, f) {
            break;
        }
    }
    assert_eq!(fmts, vec![0, 3, 25]);
    let mut empty = Vec::new();
    assert!(!push_pix_fmt(&mut empty, PIX_FMT_NONE));
    assert!(empty.is_empty());
}

#[test]
fn each_context_kind_releases_its_own_way() {
    assert_eq!(InputContext::format_release(), Some(FormatRelease::CloseInput));
    assert_eq!(OutputContext::format_release(), Some(FormatRelease::FreeContext));
    assert_eq!(DecodeContext::format_release(), None);
    assert_eq!(EncodeContext::format_release(), None);
}

#[test]
fn dictionary_addresses_in_order() {
    let mut a = AvDictionary::empty();
    a.set_raw(0x100);
    let mut b = AvDictionary::empty();
    b.set_raw(0x200);
    let dicts = [&*a, &*b];
    assert_eq!(AvDictionary::addresses(Some(&dicts)), Some(vec![0x100, 0x200]));
    assert_eq!(AvDictionary::addresses(Some(&[])), Some(vec![]));
    assert_eq!(AvDictionary::addresses(None), None);
}
