//! Text.

use vstd::prelude::*;
use vstd::utf8::decode_utf8;
use vstd::utf8::encode_utf8;
use vstd::utf8::encode_utf8_decode_utf8;
use vstd::utf8::encode_utf8_valid_utf8;
use vstd::utf8::valid_utf8;
use crate::call::Call;
use crate::call::declines;
use crate::call::RawPointer;
use crate::call::sends;
use crate::call::sends_to_class;
use crate::construct::Construct;
use crate::construct::constructs;
use crate::conversation::Conversation;
use crate::conversation::Request;
use crate::conversation::RequestView;
use crate::conversation::Step;
use crate::foundation::NSStringEncoding;
use crate::foundation::NSUInteger;
use crate::foundation::object::NSObject;
use crate::identity::ObjectiveC;
use crate::lifetime::releasing;
use crate::lifetime::retaining;
use crate::lifetime::Upkeep;
use crate::message::Argument;
use crate::message::dispatch;
use crate::message::DispatchError;
use crate::message::Kind;
use crate::message::message_to;
use crate::message::Reply;
use crate::selector::family_is_in_the_initials;
use crate::selector::markers;

verus! {

/// What a text can be asked.
pub trait NSString: NSObject {
    /// `init`: makes a fresh instance an empty string.
    fn init(self) -> (step: Step<Call<Self>, Self>)
        ensures
            sends(step, self.address(), "init"@, seq![], false),
    {
        proof {
            reveal_strlit("init");
            reveal_with_fuel(markers, 5);
            family_is_in_the_initials("init"@);
        }
        Call::to(self.as_ptr(), "init", Vec::new())
    }

    /// `initWithBytes:length:encoding:`: fills a fresh instance with the text that
    /// the `len` bytes at `bytes` spell in `encoding`.
    fn init_with_bytes_length_encoding(
        self,
        bytes: usize,
        len: NSUInteger,
        encoding: NSStringEncoding,
    ) -> (step: Step<Call<Self>, Self>)
        ensures
            sends(
                step,
                self.address(),
                "initWithBytes:length:encoding:"@,
                seq![Argument::Pointer(bytes), Argument::Word(len), Argument::Word(encoding.number())],
                false,
            ),
    {
        proof {
            reveal_strlit("initWithBytes:length:encoding:");
            reveal_with_fuel(markers, 31);
            family_is_in_the_initials("initWithBytes:length:encoding:"@);
        }
        let arguments = vec![
            Argument::Pointer(bytes),
            Argument::Word(len),
            Argument::Word(encoding.bits()),
        ];
        assert(arguments@ =~= seq![
            Argument::Pointer(bytes),
            Argument::Word(len),
            Argument::Word(encoding.number()),
        ]);
        Call::to(self.as_ptr(), "initWithBytes:length:encoding:", arguments)
    }

    /// `length`: how many UTF-16 units the text takes.
    fn length(&self) -> (step: Step<Call<NSUInteger>, NSUInteger>)
        ensures
            sends(step, self.address(), "length"@, seq![], true),
    {
        proof {
            reveal_strlit("length");
            reveal_with_fuel(markers, 7);
            family_is_in_the_initials("length"@);
        }
        Call::to(self.as_ptr(), "length", Vec::new())
    }

    /// `lengthOfBytesUsingEncoding:`: how many bytes the text takes in `enc`.
    fn length_of_bytes_using_encoding(
        &self,
        enc: NSStringEncoding,
    ) -> (step: Step<Call<NSUInteger>, NSUInteger>)
        ensures
            sends(
                step,
                self.address(),
                "lengthOfBytesUsingEncoding:"@,
                seq![Argument::Word(enc.number())],
                true,
            ),
    {
        proof {
            reveal_strlit("lengthOfBytesUsingEncoding:");
            reveal_with_fuel(markers, 28);
            family_is_in_the_initials("lengthOfBytesUsingEncoding:"@);
        }
        let arguments = vec![Argument::Word(enc.bits())];
        assert(arguments@ =~= seq![Argument::Word(enc.number())]);
        Call::to(self.as_ptr(), "lengthOfBytesUsingEncoding:", arguments)
    }

    /// `maximumLengthOfBytesUsingEncoding:`: how many bytes the text can take at most in `enc`.
    fn maximum_length_of_bytes_using_encoding(
        &self,
        enc: NSStringEncoding,
    ) -> (step: Step<Call<NSUInteger>, NSUInteger>)
        ensures
            sends(
                step,
                self.address(),
                "maximumLengthOfBytesUsingEncoding:"@,
                seq![Argument::Word(enc.number())],
                true,
            ),
    {
        proof {
            reveal_strlit("maximumLengthOfBytesUsingEncoding:");
            reveal_with_fuel(markers, 35);
            family_is_in_the_initials("maximumLengthOfBytesUsingEncoding:"@);
        }
        let arguments = vec![Argument::Word(enc.bits())];
        assert(arguments@ =~= seq![Argument::Word(enc.number())]);
        Call::to(self.as_ptr(), "maximumLengthOfBytesUsingEncoding:", arguments)
    }

    /// `getCString:maxLength:encoding:`: writes the text in `encoding` to the
    /// `max_buffer_count` bytes at `buffer`, and tells whether it fitted.
    fn get_c_string_max_length_encoding(
        &self,
        buffer: usize,
        max_buffer_count: NSUInteger,
        encoding: NSStringEncoding,
    ) -> (step: Step<Call<bool>, bool>)
        ensures
            sends(
                step,
                self.address(),
                "getCString:maxLength:encoding:"@,
                seq![Argument::Pointer(buffer), Argument::Word(max_buffer_count), Argument::Word(encoding.number())],
                true,
            ),
    {
        proof {
            reveal_strlit("getCString:maxLength:encoding:");
            reveal_with_fuel(markers, 31);
            family_is_in_the_initials("getCString:maxLength:encoding:"@);
        }
        let arguments = vec![
            Argument::Pointer(buffer),
            Argument::Word(max_buffer_count),
            Argument::Word(encoding.bits()),
        ];
        assert(arguments@ =~= seq![
            Argument::Pointer(buffer),
            Argument::Word(max_buffer_count),
            Argument::Word(encoding.number()),
        ]);
        Call::to(self.as_ptr(), "getCString:maxLength:encoding:", arguments)
    }

    /// `UTF8String`: where the text lies as UTF-8.
    fn utf8_string(&self) -> (step: Step<Call<RawPointer>, RawPointer>)
        ensures
            sends(step, self.address(), "UTF8String"@, seq![], true),
    {
        proof {
            reveal_strlit("UTF8String");
            reveal_with_fuel(markers, 11);
            family_is_in_the_initials("UTF8String"@);
        }
        Call::to(self.as_ptr(), "UTF8String", Vec::new())
    }

    /// `getCStringUsing:encoding:`. The selector names two arguments and
    /// there is one to give, so the message is never sent.
    fn get_c_string_using_encoding(&self, encoding: NSStringEncoding) -> (step: Step<
        Call<RawPointer>,
        RawPointer,
    >)
        ensures
            declines(step, self.address()),
    {
        proof {
            reveal_strlit("getCStringUsing:encoding:");
            reveal_with_fuel(markers, 26);
        }
        let arguments = vec![Argument::Word(encoding.bits())];
        assert(arguments@ =~= seq![Argument::Word(encoding.number())]);
        Call::to(self.as_ptr(), "getCStringUsing:encoding:", arguments)
    }

    /// The text of the string as a host string. It is asked for as UTF-8,
    /// and bytes that are not UTF-8 are refused.
    fn as_str(&self) -> (step: Step<ReadText, String>)
        ensures
            text_opens(self.address(), step),
    {
        ReadText::begin(self.as_ptr())
    }

    /// How many bytes the text takes as UTF-8.
    fn len(&self) -> (step: Step<Call<usize>, usize>)
        ensures
            sends(
                step,
                self.address(),
                "lengthOfBytesUsingEncoding:"@,
                seq![Argument::Word(NSStringEncoding::NSUTF8StringEncoding.number())],
                true,
            ),
    {
        self.length_of_bytes_using_encoding(NSStringEncoding::NSUTF8StringEncoding)
    }
}

/// A string.
pub struct NSStringID(usize);

impl NSStringID {
    /// Stands for the object at `ptr` without taking a unit on it.
    pub fn from_ptr(ptr: usize) -> (id: Self)
        ensures
            id.address() == ptr,
    {
        NSStringID(ptr)
    }

    /// Stands for no object.
    pub fn nil() -> (id: Self)
        ensures
            id.address() == 0,
    {
        NSStringID(0)
    }

    /// Tells whether this stands for no object.
    pub fn is_nil(&self) -> (nil: bool)
        ensures
            nil == (self.address() == 0),
    {
        self.0 == 0
    }

    /// The name under which the runtime knows the class.
    pub fn class() -> (name: &'static str)
        ensures
            name@ == "NSString"@,
    {
        "NSString"
    }

    /// `alloc`: a fresh instance that no initializer has seen yet.
    pub fn allocate() -> (step: Step<Call<Self>, Self>)
        ensures
            sends_to_class(step, "NSString"@, "alloc"@, seq![], false),
    {
        proof {
            reveal_strlit("alloc");
            reveal_with_fuel(markers, 6);
            family_is_in_the_initials("alloc"@);
        }
        Call::to_class("NSString", "alloc", Vec::new())
    }

    /// An empty string.
    pub fn new() -> (step: Step<Construct<Self>, Self>)
        ensures
            constructs(step, "NSString"@, "init"@, seq![], Seq::empty()),
    {
        proof {
            reveal_strlit("init");
            reveal_with_fuel(markers, 5);
        }
        Construct::begin("NSString", "init", Vec::new(), Vec::new())
    }

    /// A string with the text that the `len` bytes at `bytes` spell in `encoding`.
    pub fn new_with_bytes_length_encoding(
        bytes: usize,
        len: NSUInteger,
        encoding: NSStringEncoding,
    ) -> (step: Step<Construct<Self>, Self>)
        ensures
            constructs(
                step,
                "NSString"@,
                "initWithBytes:length:encoding:"@,
                seq![Argument::Pointer(bytes), Argument::Word(len), Argument::Word(encoding.number())],
                Seq::empty(),
            ),
    {
        proof {
            reveal_strlit("initWithBytes:length:encoding:");
            reveal_with_fuel(markers, 31);
        }
        let arguments = vec![
            Argument::Pointer(bytes),
            Argument::Word(len),
            Argument::Word(encoding.bits()),
        ];
        assert(arguments@ =~= seq![
            Argument::Pointer(bytes),
            Argument::Word(len),
            Argument::Word(encoding.number()),
        ]);
        Construct::begin("NSString", "initWithBytes:length:encoding:", arguments, Vec::new())
    }

    /// A string with the text of `string`.
    pub fn from_str(string: &str) -> (step: Step<Construct<Self>, Self>)
        ensures
            constructs(
                step,
                "NSString"@,
                "initWithBytes:length:encoding:"@,
                seq![
                    Argument::Buffer,
                    Argument::Word(encode_utf8(string@).len() as usize),
                    Argument::Word(NSStringEncoding::NSUTF8StringEncoding.number()),
                ],
                encode_utf8(string@),
            ),
    {
        proof {
            reveal_strlit("initWithBytes:length:encoding:");
            reveal_with_fuel(markers, 31);
        }
        let buffer = string.as_bytes_vec();
        let arguments = vec![
            Argument::Buffer,
            Argument::Word(string.len()),
            Argument::Word(NSStringEncoding::NSUTF8StringEncoding.bits()),
        ];
        assert(arguments@ =~= seq![
            Argument::Buffer,
            Argument::Word(encode_utf8(string@).len() as usize),
            Argument::Word(NSStringEncoding::NSUTF8StringEncoding.number()),
        ]);
        Construct::begin("NSString", "initWithBytes:length:encoding:", arguments, buffer)
    }

    /// A second owner of the same object, and the retain that is due for it.
    pub fn clone(&self) -> (copy: (Self, Upkeep))
        ensures
            copy.0.address() == self.address(),
            copy.1 == retaining(self.address()),
    {
        NSStringID(self.0).retain()
    }

    /// Ends this owner: the release that is due for it.
    pub fn drop(self) -> (upkeep: Upkeep)
        ensures
            upkeep == releasing(self.address()),
    {
        self.release()
    }
}

impl ObjectiveC for NSStringID {
    closed spec fn address(&self) -> usize {
        self.0
    }

    fn as_ptr(&self) -> (ptr: usize) {
        self.0
    }

    fn from_ptr(ptr: usize) -> (id: Self) {
        NSStringID(ptr)
    }
}

impl NSObject for NSStringID {

}

impl NSString for NSStringID {

}

/// The reading of a string's text into a host string.
pub enum ReadText {
    /// `UTF8String` has been sent to the string at `string`.
    Locating { string: usize },
    /// `lengthOfBytesUsingEncoding:` has been sent; the text lies at `pointer`.
    Measuring { pointer: usize },
    /// The bytes of the text have been asked for.
    Fetching,
}

/// The message that asks the string at `string` where its text lies as UTF-8.
pub open spec fn pointer_request(string: usize) -> RequestView {
    RequestView::Send(message_to(string, "UTF8String"@, seq![], Kind::Pointer))
}

/// The message that asks the string at `string` how many bytes its text
/// takes as UTF-8.
pub open spec fn length_request(string: usize) -> RequestView {
    RequestView::Send(
        message_to(
            string,
            "lengthOfBytesUsingEncoding:"@,
            seq![Argument::Word(NSStringEncoding::NSUTF8StringEncoding.number())],
            Kind::Word,
        ),
    )
}

/// `step` is how the reading of the string at `string` opens: to nil nothing
/// is sent, any other string is asked where its text lies.
pub open spec fn text_opens(string: usize, step: Step<ReadText, String>) -> bool {
    if string == 0 {
        step == Step::<ReadText, String>::Failed { error: DispatchError::NilReceiver }
    } else {
        &&& step matches Step::Ask { upkeep, request, machine }
        &&& upkeep == Upkeep::Nothing
        &&& request@ == pointer_request(string)
        &&& machine == (ReadText::Locating { string })
    }
}

/// `step` is how `machine` goes on after `outcome`.
///
/// The string is asked where its text lies, then how long it is, and then
/// that stretch of memory is read. Text that lies nowhere is not read. The
/// bytes make a host string if and only if they are UTF-8.
pub open spec fn text_follows(
    machine: ReadText,
    outcome: Result<Reply, DispatchError>,
    step: Step<ReadText, String>,
) -> bool {
    match (machine, outcome) {
        (_, Err(error)) => step == Step::<ReadText, String>::Failed { error },
        (ReadText::Locating { string }, Ok(Reply::Pointer(pointer))) => if string == 0 {
            step == Step::<ReadText, String>::Failed { error: DispatchError::NilReceiver }
        } else {
            &&& step matches Step::Ask { upkeep, request, machine: next }
            &&& upkeep == Upkeep::Nothing
            &&& request@ == length_request(string)
            &&& next == (ReadText::Measuring { pointer })
        },
        (ReadText::Measuring { pointer }, Ok(Reply::Word(length))) => if pointer == 0 {
            step == Step::<ReadText, String>::Failed { error: DispatchError::UnexpectedReply }
        } else {
            &&& step matches Step::Ask { upkeep, request, machine: next }
            &&& upkeep == Upkeep::Nothing
            &&& request@ == (RequestView::Read { address: pointer, length })
            &&& next == ReadText::Fetching
        },
        (ReadText::Fetching, Ok(Reply::Bytes(bytes))) => if valid_utf8(bytes@) {
            &&& step matches Step::Done { upkeep, value }
            &&& upkeep == Upkeep::Nothing
            &&& value@ == decode_utf8(bytes@)
        } else {
            step == Step::<ReadText, String>::Failed { error: DispatchError::InvalidUtf8 }
        },
        (_, Ok(_)) => step == Step::<ReadText, String>::Failed {
            error: DispatchError::UnexpectedReply,
        },
    }
}

/// `String::from_utf8` of the standard library: the bytes become a string
/// if and only if they are UTF-8, and the string is then made of those very
/// bytes.
#[verifier::external_body]
fn text_of(bytes: Vec<u8>) -> (text: Option<String>)
    ensures
        text is Some <==> valid_utf8(bytes@),
        text is Some ==> encode_utf8(text->0@) == bytes@,
{
    String::from_utf8(bytes).ok()
}

impl ReadText {
    /// Opens the reading of the string at `string`.
    pub fn begin(string: usize) -> (step: Step<ReadText, String>)
        ensures
            text_opens(string, step),
    {
        proof {
            reveal_strlit("UTF8String");
            reveal_with_fuel(markers, 11);
        }
        match dispatch(string, "UTF8String", Vec::new(), Kind::Pointer) {
            Ok(message) => Step::Ask {
                upkeep: Upkeep::Nothing,
                request: Request::Send(message),
                machine: ReadText::Locating { string },
            },
            Err(error) => Step::Failed { error },
        }
    }
}

impl Conversation for ReadText {
    type Output = String;

    fn resume(self, outcome: Result<Reply, DispatchError>) -> (step: Step<ReadText, String>)
        ensures
            text_follows(self, outcome, step),
    {
        match outcome {
            Err(error) => Step::Failed { error },
            Ok(reply) => match (self, reply) {
                (ReadText::Locating { string }, Reply::Pointer(pointer)) => {
                    proof {
                        reveal_strlit("lengthOfBytesUsingEncoding:");
                        reveal_with_fuel(markers, 28);
                    }
                    let arguments = vec![Argument::Word(NSStringEncoding::NSUTF8StringEncoding.bits())];
                    assert(arguments@ =~= seq![
                        Argument::Word(NSStringEncoding::NSUTF8StringEncoding.number()),
                    ]);
                    match dispatch(string, "lengthOfBytesUsingEncoding:", arguments, Kind::Word) {
                        Ok(message) => Step::Ask {
                            upkeep: Upkeep::Nothing,
                            request: Request::Send(message),
                            machine: ReadText::Measuring { pointer },
                        },
                        Err(error) => Step::Failed { error },
                    }
                },
                (ReadText::Measuring { pointer }, Reply::Word(length)) => {
                    if pointer == 0 {
                        Step::Failed { error: DispatchError::UnexpectedReply }
                    } else {
                        Step::Ask {
                            upkeep: Upkeep::Nothing,
                            request: Request::Read { address: pointer, length },
                            machine: ReadText::Fetching,
                        }
                    }
                },
                (ReadText::Fetching, Reply::Bytes(bytes)) => {
                    let ghost given = bytes@;
                    match text_of(bytes) {
                        Some(value) => {
                            proof {
                                encode_utf8_decode_utf8(value@);
                            }
                            Step::Done { upkeep: Upkeep::Nothing, value }
                        },
                        None => Step::Failed { error: DispatchError::InvalidUtf8 },
                    }
                },
                _ => Step::Failed { error: DispatchError::UnexpectedReply },
            },
        }
    }
}

/// Text that went out as UTF-8 comes back as the same text: when the bytes
/// that are read are those that `text` was written out as, the reading ends
/// with `text`, and nothing is due.
pub proof fn text_survives_the_round_trip(text: Seq<char>, bytes: Vec<u8>, step: Step<ReadText, String>)
    requires
        bytes@ == encode_utf8(text),
        text_follows(ReadText::Fetching, Ok(Reply::Bytes(bytes)), step),
    ensures
        step matches Step::Done { upkeep, value } && upkeep == Upkeep::Nothing && value@ == text,
{
    encode_utf8_valid_utf8(text);
    encode_utf8_decode_utf8(text);
}

} // verus!
