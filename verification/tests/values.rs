use objc_bridge::call::Decode;
use objc_bridge::call::RawPointer;
use objc_bridge::foundation::NSRange;
use objc_bridge::foundation::NSStringEncoding;
use objc_bridge::lifetime::release;
use objc_bridge::lifetime::retain;
use objc_bridge::lifetime::Upkeep;
use objc_bridge::message::dispatch;
use objc_bridge::message::dispatch_to_class;
use objc_bridge::message::Argument;
use objc_bridge::message::DispatchError;
use objc_bridge::message::Kind;
use objc_bridge::message::Receiver;
use objc_bridge::message::Reply;
use objc_bridge::metal::MTLCPUCacheMode;
use objc_bridge::metal::MTLCompareFunction;
use objc_bridge::metal::MTLCullMode;
use objc_bridge::metal::MTLFeatureSet;
use objc_bridge::metal::MTLIndexType;
use objc_bridge::metal::MTLPrimitiveType;
use objc_bridge::metal::MTLSize;
use objc_bridge::metal::MTLStorageMode;
use objc_bridge::metal::MTLWinding;
use objc_bridge::NSErrorID;
use objc_bridge::NSObjectID;
use objc_bridge::ObjectiveC;

#[test]
fn the_encodings_have_the_numbers_of_the_framework() {
    assert_eq!(NSStringEncoding::NSASCIIStringEncoding.bits(), 1);
    assert_eq!(NSStringEncoding::NSNEXTSTEPStringEncoding.bits(), 2);
    assert_eq!(NSStringEncoding::NSJapaneseEUCStringEncoding.bits(), 3);
    assert_eq!(NSStringEncoding::NSUTF8StringEncoding.bits(), 4);
    assert_eq!(NSStringEncoding::NSISOLatin1StringEncoding.bits(), 5);
    assert_eq!(NSStringEncoding::NSSymbolStringEncoding.bits(), 6);
    assert_eq!(NSStringEncoding::NSNonLossyASCIIStringEncoding.bits(), 7);
    assert_eq!(NSStringEncoding::NSShiftJISStringEncoding.bits(), 8);
    assert_eq!(NSStringEncoding::NSISOLatin2StringEncoding.bits(), 9);
    assert_eq!(NSStringEncoding::NSUnicodeStringEncoding.bits(), 10);
    assert_eq!(NSStringEncoding::NSWindowsCP1251StringEncoding.bits(), 11);
    assert_eq!(NSStringEncoding::NSWindowsCP1252StringEncoding.bits(), 12);
    assert_eq!(NSStringEncoding::NSWindowsCP1253StringEncoding.bits(), 13);
    assert_eq!(NSStringEncoding::NSWindowsCP1254StringEncoding.bits(), 14);
    assert_eq!(NSStringEncoding::NSWindowsCP1250StringEncoding.bits(), 15);
    assert_eq!(NSStringEncoding::NSISO2022JPStringEncoding.bits(), 21);
    assert_eq!(NSStringEncoding::NSMacOSRomanStringEncoding.bits(), 30);
    assert_eq!(NSStringEncoding::NSUTF16BigEndianStringEncoding.bits(), 0x90000100);
    assert_eq!(NSStringEncoding::NSUTF16LittleEndianStringEncoding.bits(), 0x94000100);
    assert_eq!(NSStringEncoding::NSUTF32StringEncoding.bits(), 0x8c000100);
    assert_eq!(NSStringEncoding::NSUTF32BigEndianStringEncoding.bits(), 0x98000100);
    assert_eq!(NSStringEncoding::NSUTF32LittleEndianStringEncoding.bits(), 0x9c000100);
}

#[test]
fn an_encoding_is_found_again_by_its_number() {
    assert_eq!(NSStringEncoding::from_bits(4), Some(NSStringEncoding::NSUTF8StringEncoding));
    assert_eq!(NSStringEncoding::from_bits(8), Some(NSStringEncoding::NSShiftJISStringEncoding));
    assert_eq!(
        NSStringEncoding::from_bits(0x9c000100),
        Some(NSStringEncoding::NSUTF32LittleEndianStringEncoding)
    );
    assert_eq!(NSStringEncoding::from_bits(0), None);
    assert_eq!(NSStringEncoding::from_bits(16), None);
    assert_eq!(NSStringEncoding::from_bits(0x90000101), None);
}

#[test]
fn the_metal_values_have_the_numbers_of_the_framework() {
    assert_eq!(MTLCompareFunction::MTLCompareFunctionNever.value(), 0);
    assert_eq!(MTLCompareFunction::MTLCompareFunctionLess.value(), 1);
    assert_eq!(MTLCompareFunction::MTLCompareFunctionEqual.value(), 2);
    assert_eq!(MTLCompareFunction::MTLCompareFunctionLessEqual.value(), 3);
    assert_eq!(MTLCompareFunction::MTLCompareFunctionGreater.value(), 4);
    assert_eq!(MTLCompareFunction::MTLCompareFunctionNotEqual.value(), 5);
    assert_eq!(MTLCompareFunction::MTLCompareFunctionGreaterEqual.value(), 6);
    assert_eq!(MTLCompareFunction::MTLCompareFunctionAlways.value(), 7);
    assert_eq!(MTLCPUCacheMode::MTLCPUCacheModeDefaultCache.value(), 0);
    assert_eq!(MTLCPUCacheMode::MTLCPUCacheModeWriteCombined.value(), 1);
    assert_eq!(MTLCullMode::MTLCullModeNone.value(), 0);
    assert_eq!(MTLCullMode::MTLCullModeFront.value(), 1);
    assert_eq!(MTLCullMode::MTLCullModeBack.value(), 2);
    assert_eq!(MTLIndexType::MTLIndexTypeUInt16.value(), 0);
    assert_eq!(MTLIndexType::MTLIndexTypeUInt32.value(), 1);
    assert_eq!(MTLPrimitiveType::MTLPrimitiveTypePoint.value(), 0);
    assert_eq!(MTLPrimitiveType::MTLPrimitiveTypeLine.value(), 1);
    assert_eq!(MTLPrimitiveType::MTLPrimitiveTypeLineStrip.value(), 2);
    assert_eq!(MTLPrimitiveType::MTLPrimitiveTypeTriangle.value(), 3);
    assert_eq!(MTLPrimitiveType::MTLPrimitiveTypeTriangleStrip.value(), 4);
    assert_eq!(MTLStorageMode::MTLStorageModeShared.value(), 0);
    assert_eq!(MTLStorageMode::MTLStorageModeManaged.value(), 1);
    assert_eq!(MTLStorageMode::MTLStorageModePrivate.value(), 2);
    assert_eq!(MTLWinding::MTLWindingClockwise.value(), 0);
    assert_eq!(MTLWinding::MTLWindingCounterClockwise.value(), 1);
}

#[test]
fn the_feature_sets_keep_their_scattered_numbers() {
    assert_eq!(MTLFeatureSet::iOS_GPUFamily1_v1.value(), 0);
    assert_eq!(MTLFeatureSet::iOS_GPUFamily1_v2.value(), 2);
    assert_eq!(MTLFeatureSet::iOS_GPUFamily1_v3.value(), 5);
    assert_eq!(MTLFeatureSet::iOS_GPUFamily2_v1.value(), 1);
    assert_eq!(MTLFeatureSet::iOS_GPUFamily2_v2.value(), 3);
    assert_eq!(MTLFeatureSet::iOS_GPUFamily2_v3.value(), 6);
    assert_eq!(MTLFeatureSet::iOS_GPUFamily3_v1.value(), 4);
    assert_eq!(MTLFeatureSet::iOS_GPUFamily3_v2.value(), 7);
    assert_eq!(MTLFeatureSet::OSX_GPUFamily1_v1.value(), 10000);
    assert_eq!(MTLFeatureSet::OSX_GPUFamily1_v2.value(), 10001);
    assert_eq!(MTLFeatureSet::OSX_ReadWriteTextureTier2.value(), 10002);
    assert_eq!(MTLFeatureSet::tvOS_GPUFamily1_v1.value(), 30000);
    assert_eq!(MTLFeatureSet::tvOS_GPUFamily1_v2.value(), 30001);
}

#[test]
fn retain_and_release_name_the_object_and_pass_over_nil() {
    assert_eq!(retain(0x10), Upkeep::Retain(0x10));
    assert_eq!(release(0x10), Upkeep::Release(0x10));
    assert_eq!(retain(0), Upkeep::Nothing);
    assert_eq!(release(0), Upkeep::Nothing);
    assert_eq!(retain(usize::MAX), Upkeep::Retain(usize::MAX));
}

#[test]
fn dispatch_refuses_nil_before_it_counts_the_arguments() {
    assert_eq!(dispatch(0, "count", vec![], Kind::Word), Err(DispatchError::NilReceiver));
    assert_eq!(
        dispatch(0, "count", vec![Argument::Word(1)], Kind::Word),
        Err(DispatchError::NilReceiver)
    );
}

#[test]
fn dispatch_refuses_a_selector_with_the_wrong_number_of_arguments() {
    assert_eq!(
        dispatch(0x10, "count", vec![Argument::Word(1)], Kind::Word),
        Err(DispatchError::WrongArity)
    );
    assert_eq!(dispatch(0x10, "objectAtIndex:", vec![], Kind::Object), Err(DispatchError::WrongArity));
    assert_eq!(
        dispatch_to_class("NSObject", "alloc", vec![Argument::Flag(true)], Kind::Object),
        Err(DispatchError::WrongArity)
    );
}

#[test]
fn dispatch_writes_down_what_it_is_given() {
    let range = NSRange { location: 2, length: 5 };
    let message = dispatch(0x10, "subdataWithRange:", vec![Argument::Range(range)], Kind::Object).unwrap();
    assert_eq!(message.receiver, Receiver::Object(0x10));
    assert_eq!(message.selector, "subdataWithRange:");
    assert_eq!(message.arguments, vec![Argument::Range(NSRange { location: 2, length: 5 })]);
    assert!(message.buffer.is_empty());
    assert_eq!(message.yields, Kind::Object);
    let message = dispatch_to_class("NSData", "alloc", vec![], Kind::Object).unwrap();
    assert_eq!(message.receiver, Receiver::Class("NSData"));
    assert_eq!(message.selector, "alloc");
}

#[test]
fn a_reply_is_read_as_the_type_of_its_kind_and_no_other() {
    assert_eq!(<()>::decode(Reply::Nothing), Some(()));
    assert_eq!(<()>::decode(Reply::Word(0)), None);
    assert_eq!(bool::decode(Reply::Flag(true)), Some(true));
    assert_eq!(bool::decode(Reply::Word(1)), None);
    assert_eq!(usize::decode(Reply::Word(9)), Some(9));
    assert_eq!(usize::decode(Reply::Long(9)), None);
    assert_eq!(u64::decode(Reply::Long(u64::MAX)), Some(u64::MAX));
    assert_eq!(u64::decode(Reply::Word(9)), None);
    assert_eq!(RawPointer::decode(Reply::Pointer(0x20)), Some(RawPointer { address: 0x20 }));
    assert_eq!(RawPointer::decode(Reply::Object(0x20)), None);
    let size = MTLSize { width: 512, height: 256, depth: 1 };
    assert_eq!(MTLSize::decode(Reply::Size(size)), Some(size));
    assert_eq!(MTLSize::decode(Reply::Nothing), None);
    assert_eq!(NSObjectID::decode(Reply::Object(0x30)).map(|id| id.as_ptr()), Some(0x30));
    assert!(NSObjectID::decode(Reply::Pointer(0x30)).is_none());
    assert!(<Result<NSObjectID, NSErrorID>>::decode(Reply::Object(0x30)).is_none());
}

#[test]
fn only_an_object_stands_for_a_unit() {
    assert_eq!(NSObjectID::from_ptr(0x30).object(), 0x30);
    assert_eq!(7usize.object(), 0);
    assert_eq!(true.object(), 0);
    assert_eq!(RawPointer { address: 0x30 }.object(), 0);
    let attempt: Result<NSObjectID, NSErrorID> = Ok(NSObjectID::from_ptr(0x30));
    assert_eq!(attempt.object(), 0);
    assert_eq!(usize::expects(), Kind::Word);
    assert_eq!(NSObjectID::expects(), Kind::Object);
    assert_eq!(<Result<NSObjectID, NSErrorID>>::expects(), Kind::Attempt);
}
