//! Foundation: the object model's own classes.

use vstd::prelude::*;

pub mod array;
pub mod coder;
pub mod data;
pub mod dictionary;
pub mod error;
pub mod mutable_array;
pub mod object;
pub mod string;
pub mod url;

pub use self::array::NSArray;
pub use self::array::NSArrayID;
pub use self::array::ToVec;
pub use self::coder::NSCoder;
pub use self::coder::NSCoderID;
pub use self::data::NSData;
pub use self::data::NSDataID;
pub use self::dictionary::NSDictionary;
pub use self::dictionary::NSDictionaryID;
pub use self::error::NSError;
pub use self::error::NSErrorID;
pub use self::mutable_array::NSMutableArray;
pub use self::mutable_array::NSMutableArrayID;
pub use self::object::NSObject;
pub use self::object::NSObjectID;
pub use self::string::NSString;
pub use self::string::NSStringID;
pub use self::string::ReadText;
pub use self::url::NSURL;
pub use self::url::NSURLID;
pub use self::NSStringEncoding::NSASCIIStringEncoding;
pub use self::NSStringEncoding::NSNEXTSTEPStringEncoding;
pub use self::NSStringEncoding::NSJapaneseEUCStringEncoding;
pub use self::NSStringEncoding::NSUTF8StringEncoding;
pub use self::NSStringEncoding::NSISOLatin1StringEncoding;
pub use self::NSStringEncoding::NSSymbolStringEncoding;
pub use self::NSStringEncoding::NSNonLossyASCIIStringEncoding;
pub use self::NSStringEncoding::NSShiftJISStringEncoding;
pub use self::NSStringEncoding::NSISOLatin2StringEncoding;
pub use self::NSStringEncoding::NSUnicodeStringEncoding;
pub use self::NSStringEncoding::NSWindowsCP1251StringEncoding;
pub use self::NSStringEncoding::NSWindowsCP1252StringEncoding;
pub use self::NSStringEncoding::NSWindowsCP1253StringEncoding;
pub use self::NSStringEncoding::NSWindowsCP1254StringEncoding;
pub use self::NSStringEncoding::NSWindowsCP1250StringEncoding;
pub use self::NSStringEncoding::NSISO2022JPStringEncoding;
pub use self::NSStringEncoding::NSMacOSRomanStringEncoding;
pub use self::NSStringEncoding::NSUTF16BigEndianStringEncoding;
pub use self::NSStringEncoding::NSUTF16LittleEndianStringEncoding;
pub use self::NSStringEncoding::NSUTF32StringEncoding;
pub use self::NSStringEncoding::NSUTF32BigEndianStringEncoding;
pub use self::NSStringEncoding::NSUTF32LittleEndianStringEncoding;

verus! {

/// A signed machine word.
pub type NSInteger = isize;

/// An unsigned machine word.
pub type NSUInteger = usize;

/// A stretch of a sequence: where it starts and how many items it holds.
#[derive(Clone, Copy, Debug, PartialEq, Eq, Structural)]
pub struct NSRange {
    pub location: NSUInteger,
    pub length: NSUInteger,
}

/// The encodings of text that the runtime knows. Each has a number that is
/// the framework's own and is handed over as it is.
#[derive(Clone, Copy, Debug, PartialEq, Eq, Structural)]
pub enum NSStringEncoding {
    NSASCIIStringEncoding,
    NSNEXTSTEPStringEncoding,
    NSJapaneseEUCStringEncoding,
    NSUTF8StringEncoding,
    NSISOLatin1StringEncoding,
    NSSymbolStringEncoding,
    NSNonLossyASCIIStringEncoding,
    NSShiftJISStringEncoding,
    NSISOLatin2StringEncoding,
    NSUnicodeStringEncoding,
    NSWindowsCP1251StringEncoding,
    NSWindowsCP1252StringEncoding,
    NSWindowsCP1253StringEncoding,
    NSWindowsCP1254StringEncoding,
    NSWindowsCP1250StringEncoding,
    NSISO2022JPStringEncoding,
    NSMacOSRomanStringEncoding,
    NSUTF16BigEndianStringEncoding,
    NSUTF16LittleEndianStringEncoding,
    NSUTF32StringEncoding,
    NSUTF32BigEndianStringEncoding,
    NSUTF32LittleEndianStringEncoding,
}

impl NSStringEncoding {
    /// The number by which the runtime knows the encoding.
    pub open spec fn number(self) -> usize {
        match self {
            NSStringEncoding::NSASCIIStringEncoding => 1,
            NSStringEncoding::NSNEXTSTEPStringEncoding => 2,
            NSStringEncoding::NSJapaneseEUCStringEncoding => 3,
            NSStringEncoding::NSUTF8StringEncoding => 4,
            NSStringEncoding::NSISOLatin1StringEncoding => 5,
            NSStringEncoding::NSSymbolStringEncoding => 6,
            NSStringEncoding::NSNonLossyASCIIStringEncoding => 7,
            NSStringEncoding::NSShiftJISStringEncoding => 8,
            NSStringEncoding::NSISOLatin2StringEncoding => 9,
            NSStringEncoding::NSUnicodeStringEncoding => 10,
            NSStringEncoding::NSWindowsCP1251StringEncoding => 11,
            NSStringEncoding::NSWindowsCP1252StringEncoding => 12,
            NSStringEncoding::NSWindowsCP1253StringEncoding => 13,
            NSStringEncoding::NSWindowsCP1254StringEncoding => 14,
            NSStringEncoding::NSWindowsCP1250StringEncoding => 15,
            NSStringEncoding::NSISO2022JPStringEncoding => 21,
            NSStringEncoding::NSMacOSRomanStringEncoding => 30,
            NSStringEncoding::NSUTF16BigEndianStringEncoding => 0x90000100,
            NSStringEncoding::NSUTF16LittleEndianStringEncoding => 0x94000100,
            NSStringEncoding::NSUTF32StringEncoding => 0x8c000100,
            NSStringEncoding::NSUTF32BigEndianStringEncoding => 0x98000100,
            NSStringEncoding::NSUTF32LittleEndianStringEncoding => 0x9c000100,
        }
    }

    /// The number by which the runtime knows the encoding.
    pub fn bits(&self) -> (number: usize)
        ensures
            number == self.number(),
    {
        match self {
            NSStringEncoding::NSASCIIStringEncoding => 1,
            NSStringEncoding::NSNEXTSTEPStringEncoding => 2,
            NSStringEncoding::NSJapaneseEUCStringEncoding => 3,
            NSStringEncoding::NSUTF8StringEncoding => 4,
            NSStringEncoding::NSISOLatin1StringEncoding => 5,
            NSStringEncoding::NSSymbolStringEncoding => 6,
            NSStringEncoding::NSNonLossyASCIIStringEncoding => 7,
            NSStringEncoding::NSShiftJISStringEncoding => 8,
            NSStringEncoding::NSISOLatin2StringEncoding => 9,
            NSStringEncoding::NSUnicodeStringEncoding => 10,
            NSStringEncoding::NSWindowsCP1251StringEncoding => 11,
            NSStringEncoding::NSWindowsCP1252StringEncoding => 12,
            NSStringEncoding::NSWindowsCP1253StringEncoding => 13,
            NSStringEncoding::NSWindowsCP1254StringEncoding => 14,
            NSStringEncoding::NSWindowsCP1250StringEncoding => 15,
            NSStringEncoding::NSISO2022JPStringEncoding => 21,
            NSStringEncoding::NSMacOSRomanStringEncoding => 30,
            NSStringEncoding::NSUTF16BigEndianStringEncoding => 0x90000100,
            NSStringEncoding::NSUTF16LittleEndianStringEncoding => 0x94000100,
            NSStringEncoding::NSUTF32StringEncoding => 0x8c000100,
            NSStringEncoding::NSUTF32BigEndianStringEncoding => 0x98000100,
            NSStringEncoding::NSUTF32LittleEndianStringEncoding => 0x9c000100,
        }
    }

    /// The encoding that the runtime knows by the number `bits`, if there is one.
    pub open spec fn numbered(bits: usize) -> Option<NSStringEncoding> {
        if bits == 1 {
            Some(NSStringEncoding::NSASCIIStringEncoding)
        } else if bits == 2 {
            Some(NSStringEncoding::NSNEXTSTEPStringEncoding)
        } else if bits == 3 {
            Some(NSStringEncoding::NSJapaneseEUCStringEncoding)
        } else if bits == 4 {
            Some(NSStringEncoding::NSUTF8StringEncoding)
        } else if bits == 5 {
            Some(NSStringEncoding::NSISOLatin1StringEncoding)
        } else if bits == 6 {
            Some(NSStringEncoding::NSSymbolStringEncoding)
        } else if bits == 7 {
            Some(NSStringEncoding::NSNonLossyASCIIStringEncoding)
        } else if bits == 8 {
            Some(NSStringEncoding::NSShiftJISStringEncoding)
        } else if bits == 9 {
            Some(NSStringEncoding::NSISOLatin2StringEncoding)
        } else if bits == 10 {
            Some(NSStringEncoding::NSUnicodeStringEncoding)
        } else if bits == 11 {
            Some(NSStringEncoding::NSWindowsCP1251StringEncoding)
        } else if bits == 12 {
            Some(NSStringEncoding::NSWindowsCP1252StringEncoding)
        } else if bits == 13 {
            Some(NSStringEncoding::NSWindowsCP1253StringEncoding)
        } else if bits == 14 {
            Some(NSStringEncoding::NSWindowsCP1254StringEncoding)
        } else if bits == 15 {
            Some(NSStringEncoding::NSWindowsCP1250StringEncoding)
        } else if bits == 21 {
            Some(NSStringEncoding::NSISO2022JPStringEncoding)
        } else if bits == 30 {
            Some(NSStringEncoding::NSMacOSRomanStringEncoding)
        } else if bits == 0x90000100 {
            Some(NSStringEncoding::NSUTF16BigEndianStringEncoding)
        } else if bits == 0x94000100 {
            Some(NSStringEncoding::NSUTF16LittleEndianStringEncoding)
        } else if bits == 0x8c000100 {
            Some(NSStringEncoding::NSUTF32StringEncoding)
        } else if bits == 0x98000100 {
            Some(NSStringEncoding::NSUTF32BigEndianStringEncoding)
        } else if bits == 0x9c000100 {
            Some(NSStringEncoding::NSUTF32LittleEndianStringEncoding)
        } else {
            None
        }
    }

    /// The encoding that the runtime knows by the number `bits`, if there is one.
    pub fn from_bits(bits: usize) -> (found: Option<NSStringEncoding>)
        ensures
            found == Self::numbered(bits),
    {
        if bits == 1 {
            Some(NSStringEncoding::NSASCIIStringEncoding)
        } else if bits == 2 {
            Some(NSStringEncoding::NSNEXTSTEPStringEncoding)
        } else if bits == 3 {
            Some(NSStringEncoding::NSJapaneseEUCStringEncoding)
        } else if bits == 4 {
            Some(NSStringEncoding::NSUTF8StringEncoding)
        } else if bits == 5 {
            Some(NSStringEncoding::NSISOLatin1StringEncoding)
        } else if bits == 6 {
            Some(NSStringEncoding::NSSymbolStringEncoding)
        } else if bits == 7 {
            Some(NSStringEncoding::NSNonLossyASCIIStringEncoding)
        } else if bits == 8 {
            Some(NSStringEncoding::NSShiftJISStringEncoding)
        } else if bits == 9 {
            Some(NSStringEncoding::NSISOLatin2StringEncoding)
        } else if bits == 10 {
            Some(NSStringEncoding::NSUnicodeStringEncoding)
        } else if bits == 11 {
            Some(NSStringEncoding::NSWindowsCP1251StringEncoding)
        } else if bits == 12 {
            Some(NSStringEncoding::NSWindowsCP1252StringEncoding)
        } else if bits == 13 {
            Some(NSStringEncoding::NSWindowsCP1253StringEncoding)
        } else if bits == 14 {
            Some(NSStringEncoding::NSWindowsCP1254StringEncoding)
        } else if bits == 15 {
            Some(NSStringEncoding::NSWindowsCP1250StringEncoding)
        } else if bits == 21 {
            Some(NSStringEncoding::NSISO2022JPStringEncoding)
        } else if bits == 30 {
            Some(NSStringEncoding::NSMacOSRomanStringEncoding)
        } else if bits == 0x90000100 {
            Some(NSStringEncoding::NSUTF16BigEndianStringEncoding)
        } else if bits == 0x94000100 {
            Some(NSStringEncoding::NSUTF16LittleEndianStringEncoding)
        } else if bits == 0x8c000100 {
            Some(NSStringEncoding::NSUTF32StringEncoding)
        } else if bits == 0x98000100 {
            Some(NSStringEncoding::NSUTF32BigEndianStringEncoding)
        } else if bits == 0x9c000100 {
            Some(NSStringEncoding::NSUTF32LittleEndianStringEncoding)
        } else {
            None
        }
    }

    /// Every encoding is found again by its number.
    pub proof fn is_found_by_its_number(self)
        ensures
            Self::numbered(self.number()) == Some(self),
    {
    }
}

} // verus!
