use std::collections::HashMap;

use objc_bridge::call::Call;
use objc_bridge::call::RawPointer;
use objc_bridge::conversation::Conversation;
use objc_bridge::conversation::Request;
use objc_bridge::conversation::Step;
use objc_bridge::foundation::NSArray;
use objc_bridge::foundation::NSArrayID;
use objc_bridge::foundation::NSData;
use objc_bridge::foundation::NSDataID;
use objc_bridge::foundation::NSErrorID;
use objc_bridge::foundation::NSMutableArray;
use objc_bridge::foundation::NSMutableArrayID;
use objc_bridge::foundation::NSObject;
use objc_bridge::foundation::NSObjectID;
use objc_bridge::foundation::NSRange;
use objc_bridge::foundation::NSString;
use objc_bridge::foundation::NSStringEncoding;
use objc_bridge::foundation::NSStringID;
use objc_bridge::foundation::NSURLID;
use objc_bridge::foundation::ReadText;
use objc_bridge::identity::ObjectiveC;
use objc_bridge::lifetime::Upkeep;
use objc_bridge::message::Argument;
use objc_bridge::message::DispatchError;
use objc_bridge::message::Kind;
use objc_bridge::message::Message;
use objc_bridge::message::Receiver;
use objc_bridge::message::Reply;
use objc_bridge::metal::all_devices;
use objc_bridge::metal::system_default_device;
use objc_bridge::metal::MTLBuffer;
use objc_bridge::metal::MTLBufferID;
use objc_bridge::metal::MTLCommandBuffer;
use objc_bridge::metal::MTLCommandEncoder;
use objc_bridge::metal::MTLCommandQueue;
use objc_bridge::metal::MTLCompareFunction;
use objc_bridge::metal::MTLDepthStencilDescriptor;
use objc_bridge::metal::MTLDepthStencilDescriptorID;
use objc_bridge::metal::MTLDevice;
use objc_bridge::metal::MTLDeviceID;
use objc_bridge::metal::MTLFeatureSet;
use objc_bridge::metal::MTLIndexType;
use objc_bridge::metal::MTLLibraryID;
use objc_bridge::metal::MTLPrimitiveType;
use objc_bridge::metal::MTLRenderPassDescriptorID;
use objc_bridge::metal::MTLRenderPipelineDescriptorID;
use objc_bridge::metal::MTLRenderPipelineStateID;
use objc_bridge::metal::MTLSize;
use objc_bridge::metal::SampleCounts;

/// What the stand-in runtime keeps of one object.
struct Object {
    class: String,
    count: usize,
    text: Vec<u8>,
    items: Vec<usize>,
}

/// A runtime that lives in the test: it keeps objects with their reference
/// counts, writes down every request, and answers the messages that the
/// tests send.
struct Runtime {
    objects: HashMap<usize, Object>,
    memory: HashMap<usize, Vec<u8>>,
    freed: Vec<usize>,
    over_released: Vec<usize>,
    next: usize,
    requests: Vec<String>,
    canned: HashMap<&'static str, Reply>,
    supported: Vec<usize>,
}

impl Runtime {
    fn new() -> Runtime {
        Runtime {
            objects: HashMap::new(),
            memory: HashMap::new(),
            freed: Vec::new(),
            over_released: Vec::new(),
            next: 0x1000,
            requests: Vec::new(),
            canned: HashMap::new(),
            supported: Vec::new(),
        }
    }

    fn create(&mut self, class: &str) -> usize {
        let address = self.next;
        self.next += 0x10;
        self.objects.insert(
            address,
            Object { class: class.to_string(), count: 1, text: Vec::new(), items: Vec::new() },
        );
        address
    }

    fn array(&mut self, items: Vec<usize>) -> usize {
        let address = self.create("NSArray");
        self.objects.get_mut(&address).unwrap().items = items;
        address
    }

    fn string(&mut self, text: &[u8]) -> usize {
        let address = self.create("NSString");
        self.objects.get_mut(&address).unwrap().text = text.to_vec();
        address
    }

    fn count(&self, address: usize) -> usize {
        self.objects.get(&address).map(|object| object.count).unwrap_or(0)
    }

    fn settle(&mut self, upkeep: Upkeep) {
        match upkeep {
            Upkeep::Nothing => {}
            Upkeep::Retain(address) => {
                self.objects.get_mut(&address).expect("retain of a dead object").count += 1;
            }
            Upkeep::Release(address) => match self.objects.get_mut(&address) {
                None => self.over_released.push(address),
                Some(object) => {
                    object.count -= 1;
                    if object.count == 0 {
                        self.objects.remove(&address);
                        self.freed.push(address);
                    }
                }
            },
        }
    }

    fn word(argument: &Argument) -> usize {
        match argument {
            Argument::Word(word) => *word,
            other => panic!("not a word: {:?}", other),
        }
    }

    fn send(&mut self, message: Message) -> Result<Reply, DispatchError> {
        let target = match message.receiver {
            Receiver::Class(class) => {
                self.requests.push(format!("+[{} {}]", class, message.selector));
                assert_eq!(message.selector, "alloc");
                return Ok(Reply::Object(self.create(class)));
            }
            Receiver::Object(address) => address,
        };
        self.requests.push(format!("{:#x} {}", target, message.selector));
        if !self.objects.contains_key(&target) {
            return Err(DispatchError::Foreign(format!("message {} to a dead object", message.selector)));
        }
        if let Some(reply) = self.canned.remove(message.selector) {
            return Ok(reply);
        }
        match message.selector {
            "init" => Ok(Reply::Object(target)),
            "initWithBytes:length:encoding:" => {
                let bytes = match message.arguments[0] {
                    Argument::Buffer => message.buffer.clone(),
                    Argument::Pointer(address) => self.memory[&address].clone(),
                    other => panic!("not bytes: {:?}", other),
                };
                assert_eq!(Runtime::word(&message.arguments[1]), bytes.len());
                assert_eq!(Runtime::word(&message.arguments[2]), 4);
                if std::str::from_utf8(&bytes).is_ok() {
                    self.objects.get_mut(&target).unwrap().text = bytes;
                    Ok(Reply::Object(target))
                } else {
                    self.settle(Upkeep::Release(target));
                    Ok(Reply::Object(0))
                }
            }
            "UTF8String" => {
                let place = target + 0x100000;
                let text = self.objects[&target].text.clone();
                self.memory.insert(place, text);
                Ok(Reply::Pointer(place))
            }
            "lengthOfBytesUsingEncoding:" => {
                assert_eq!(Runtime::word(&message.arguments[0]), 4);
                Ok(Reply::Word(self.objects[&target].text.len()))
            }
            "count" => Ok(Reply::Word(self.objects[&target].items.len())),
            "objectAtIndex:" => {
                let index = Runtime::word(&message.arguments[0]);
                match self.objects[&target].items.get(index) {
                    Some(item) => Ok(Reply::Object(*item)),
                    None => Err(DispatchError::Foreign(format!("index {} beyond bounds", index))),
                }
            }
            "insertObject:atIndex:" => {
                let item = match message.arguments[0] {
                    Argument::Object(address) => address,
                    other => panic!("not an object: {:?}", other),
                };
                let index = Runtime::word(&message.arguments[1]);
                self.objects.get_mut(&target).unwrap().items.insert(index, item);
                Ok(Reply::Nothing)
            }
            "supportsTextureSampleCount:" => {
                let asked = Runtime::word(&message.arguments[0]);
                Ok(Reply::Flag(self.supported.contains(&asked)))
            }
            "newCommandQueue" => Ok(Reply::Object(self.create("MTLCommandQueue"))),
            "commandBuffer" => Ok(Reply::Object(self.create("MTLCommandBuffer"))),
            "renderCommandEncoderWithDescriptor:" => {
                Ok(Reply::Object(self.create("MTLCommandEncoder")))
            }
            "setRenderPipelineState:"
            | "setVertexBuffer:offset:atIndex:"
            | "drawPrimitives:vertexStart:vertexCount:"
            | "endEncoding"
            | "commit" => Ok(Reply::Nothing),
            other => Err(DispatchError::Foreign(format!("unrecognized selector {}", other))),
        }
    }

    fn perform(&mut self, request: Request) -> Result<Reply, DispatchError> {
        match request {
            Request::Send(message) => self.send(message),
            Request::Read { address, length } => {
                self.requests.push(format!("read {} at {:#x}", length, address));
                let bytes = &self.memory[&address];
                Ok(Reply::Bytes(bytes[..length].to_vec()))
            }
            Request::Invoke { function } => {
                self.requests.push(format!("{}()", function));
                Ok(Reply::Object(self.create(function)))
            }
        }
    }

    /// Carries a conversation through to its end.
    fn run<M: Conversation>(&mut self, first: Step<M, M::Output>) -> Result<M::Output, DispatchError> {
        let mut step = first;
        loop {
            match step {
                Step::Ask { upkeep, request, machine } => {
                    self.settle(upkeep);
                    let outcome = self.perform(request);
                    step = machine.resume(outcome);
                }
                Step::Done { upkeep, value } => {
                    self.settle(upkeep);
                    return Ok(value);
                }
                Step::Failed { error } => return Err(error),
            }
        }
    }
}

fn message_of<M, T>(step: Step<M, T>) -> Message {
    match step {
        Step::Ask { upkeep, request: Request::Send(message), .. } => {
            assert_eq!(upkeep, Upkeep::Nothing);
            message
        }
        _ => panic!("no message was handed out"),
    }
}

fn error_of<M, T>(step: Step<M, T>) -> DispatchError {
    match step {
        Step::Failed { error } => error,
        _ => panic!("the conversation did not fail"),
    }
}

// ---------------------------------------------------------------- lifetime

#[test]
fn as_many_releases_as_retains_leave_the_count_where_it_was() {
    for times in 0..6 {
        let mut runtime = Runtime::new();
        let address = runtime.create("NSObject");
        let mut object = NSObjectID::from_ptr(address);
        for _ in 0..times {
            let (kept, upkeep) = object.retain();
            assert_eq!(upkeep, Upkeep::Retain(address));
            runtime.settle(upkeep);
            object = kept;
        }
        assert_eq!(runtime.count(address), 1 + times);
        for _ in 0..times {
            let upkeep = object.release();
            assert_eq!(upkeep, Upkeep::Release(address));
            runtime.settle(upkeep);
        }
        assert_eq!(runtime.count(address), 1);
        assert!(runtime.freed.is_empty());
        assert!(runtime.over_released.is_empty());
    }
}

#[test]
fn a_clone_and_its_original_are_each_released_once() {
    let mut runtime = Runtime::new();
    let original = runtime.run(NSObjectID::allocate()).unwrap();
    let address = original.as_ptr();
    assert_eq!(runtime.count(address), 1);

    let (copy, upkeep) = original.clone();
    assert_eq!(copy.as_ptr(), address);
    assert_eq!(upkeep, Upkeep::Retain(address));
    runtime.settle(upkeep);
    assert_eq!(runtime.count(address), 2);

    let upkeep = original.drop();
    assert_eq!(upkeep, Upkeep::Release(address));
    runtime.settle(upkeep);
    assert_eq!(runtime.count(address), 1);
    assert!(runtime.freed.is_empty());

    let upkeep = copy.drop();
    assert_eq!(upkeep, Upkeep::Release(address));
    runtime.settle(upkeep);
    assert_eq!(runtime.freed, vec![address]);
    assert!(runtime.over_released.is_empty());
}

#[test]
fn the_clone_may_outlive_or_predecease_the_original() {
    let mut runtime = Runtime::new();
    let original = runtime.run(NSArrayID::new()).unwrap();
    let address = original.as_ptr();
    let (copy, upkeep) = original.clone();
    runtime.settle(upkeep);
    runtime.settle(copy.drop());
    assert_eq!(runtime.count(address), 1);
    runtime.settle(original.drop());
    assert_eq!(runtime.freed, vec![address]);
    assert!(runtime.over_released.is_empty());
}

#[test]
fn nil_is_cloned_dropped_and_asked_without_a_word_to_the_runtime() {
    let runtime = Runtime::new();
    let nil = NSStringID::nil();
    assert!(nil.is_nil());
    assert_eq!(nil.as_ptr(), 0);
    let (copy, upkeep) = nil.clone();
    assert!(copy.is_nil());
    assert_eq!(upkeep, Upkeep::Nothing);
    let (kept, upkeep) = copy.retain();
    assert!(kept.is_nil());
    assert_eq!(upkeep, Upkeep::Nothing);
    assert_eq!(kept.release(), Upkeep::Nothing);
    assert_eq!(kept.drop(), Upkeep::Nothing);
    assert_eq!(nil.drop(), Upkeep::Nothing);
    assert!(runtime.requests.is_empty());
}

#[test]
fn from_ptr_takes_no_unit() {
    let mut runtime = Runtime::new();
    let address = runtime.create("NSObject");
    let object = NSObjectID::from_ptr(address);
    assert!(!object.is_nil());
    assert_eq!(object.as_ptr(), address);
    assert_eq!(runtime.count(address), 1);
    assert!(runtime.requests.is_empty());
}

// ---------------------------------------------------------------- dispatch

#[test]
fn a_message_to_nil_is_not_sent() {
    let nil = NSArrayID::nil();
    assert_eq!(error_of(nil.count()), DispatchError::NilReceiver);
    assert_eq!(error_of(nil.hash()), DispatchError::NilReceiver);
    assert_eq!(error_of(nil.object_at_index::<NSObjectID>(0)), DispatchError::NilReceiver);
    assert_eq!(error_of(nil.to_vec::<NSObjectID>()), DispatchError::NilReceiver);
    assert_eq!(error_of(NSStringID::nil().as_str()), DispatchError::NilReceiver);
    assert_eq!(error_of(NSStringID::nil().len()), DispatchError::NilReceiver);
    assert_eq!(error_of(MTLDeviceID::nil().texture_sample_counts()), DispatchError::NilReceiver);
    assert_eq!(error_of(NSArrayID::nil().init()), DispatchError::NilReceiver);
}

#[test]
fn a_failure_of_the_runtime_is_passed_on_as_it_is() {
    let mut runtime = Runtime::new();
    let array = NSArrayID::from_ptr(runtime.array(vec![]));
    let outcome = runtime.run(array.object_at_index::<NSObjectID>(3));
    assert_eq!(outcome.err(), Some(DispatchError::Foreign("index 3 beyond bounds".to_string())));
    let object = NSObjectID::from_ptr(runtime.create("NSObject"));
    let outcome = runtime.run(object.is_proxy());
    assert_eq!(
        outcome.err(),
        Some(DispatchError::Foreign("unrecognized selector isProxy".to_string()))
    );
}

#[test]
fn an_answer_of_the_wrong_kind_is_refused() {
    let object = NSObjectID::from_ptr(0x40);
    match object.hash() {
        Step::Ask { machine, .. } => {
            assert_eq!(error_of(machine.resume(Ok(Reply::Flag(true)))), DispatchError::UnexpectedReply);
        }
        _ => panic!("no message was handed out"),
    }
    match object.is_proxy() {
        Step::Ask { machine, .. } => {
            assert_eq!(error_of(machine.resume(Ok(Reply::Word(1)))), DispatchError::UnexpectedReply);
        }
        _ => panic!("no message was handed out"),
    }
}

#[test]
fn an_answer_of_the_right_kind_is_the_value() {
    let object = NSObjectID::from_ptr(0x40);
    match object.hash() {
        Step::Ask { machine, .. } => match machine.resume(Ok(Reply::Word(77))) {
            Step::Done { upkeep, value } => {
                assert_eq!(value, 77);
                assert_eq!(upkeep, Upkeep::Nothing);
            }
            _ => panic!("the call did not end"),
        },
        _ => panic!("no message was handed out"),
    }
}

#[test]
fn a_borrowed_result_is_retained_and_a_created_one_is_not() {
    let mut runtime = Runtime::new();
    let device = MTLDeviceID::from_ptr(runtime.create("MTLDevice"));
    let name = runtime.string(b"Fake GPU");
    runtime.canned.insert("name", Reply::Object(name));
    let held = runtime.run(device.name()).unwrap();
    assert_eq!(held.as_ptr(), name);
    assert_eq!(runtime.count(name), 2);

    let queue = runtime.run(device.new_command_queue()).unwrap();
    assert_eq!(runtime.count(queue.as_ptr()), 1);
}

#[test]
fn a_nil_result_is_not_retained() {
    let mut runtime = Runtime::new();
    let object = NSObjectID::from_ptr(runtime.create("NSObject"));
    runtime.canned.insert("description", Reply::Object(0));
    let description = runtime.run(object.description()).unwrap();
    assert!(description.is_nil());
}

#[test]
fn init_uses_up_the_receiver_and_hands_back_what_the_runtime_returns() {
    let mut runtime = Runtime::new();
    let fresh = runtime.run(NSArrayID::allocate()).unwrap();
    let address = fresh.as_ptr();
    let made = runtime.run(fresh.init()).unwrap();
    assert_eq!(made.as_ptr(), address);
    assert_eq!(runtime.count(address), 1);
    assert_eq!(runtime.requests, vec!["+[NSArray alloc]".to_string(), format!("{:#x} init", address)]);
}

#[test]
fn new_is_alloc_and_then_init() {
    let mut runtime = Runtime::new();
    let array = runtime.run(NSArrayID::new()).unwrap();
    let address = array.as_ptr();
    assert_eq!(runtime.requests, vec!["+[NSArray alloc]".to_string(), format!("{:#x} init", address)]);
    assert_eq!(runtime.count(address), 1);
}

#[test]
fn the_messages_carry_the_selector_and_the_arguments_as_given() {
    let array = NSMutableArrayID::from_ptr(0x500);
    let item = NSObjectID::from_ptr(0x600);
    let message = message_of(array.insert_object_at_index(&item, 7));
    assert_eq!(
        message,
        Message {
            receiver: Receiver::Object(0x500),
            selector: "insertObject:atIndex:",
            arguments: vec![Argument::Object(0x600), Argument::Word(7)],
            buffer: vec![],
            yields: Kind::Nothing,
        }
    );
    let message = message_of(array.object_at_index::<NSObjectID>(usize::MAX));
    assert_eq!(message.selector, "objectAtIndex:");
    assert_eq!(message.arguments, vec![Argument::Word(usize::MAX)]);
    assert_eq!(message.yields, Kind::Object);
    let other = NSObjectID::from_ptr(0x700);
    let message = message_of(item.is_equal(&other));
    assert_eq!(message.selector, "isEqual:");
    assert_eq!(message.arguments, vec![Argument::Object(0x700)]);
    assert_eq!(message.yields, Kind::Flag);
    let text = NSStringID::from_ptr(0x800);
    let message = message_of(
        text.length_of_bytes_using_encoding(NSStringEncoding::NSUTF16BigEndianStringEncoding),
    );
    assert_eq!(message.arguments, vec![Argument::Word(0x90000100)]);
    let message = message_of(text.len());
    assert_eq!(message.selector, "lengthOfBytesUsingEncoding:");
    assert_eq!(message.arguments, vec![Argument::Word(4)]);
    assert_eq!(message.yields, Kind::Word);
    let message = message_of(text.utf8_string());
    assert_eq!(message.selector, "UTF8String");
    assert_eq!(message.yields, Kind::Pointer);
}

#[test]
fn a_selector_that_names_more_arguments_than_are_given_is_never_sent() {
    let text = NSStringID::from_ptr(0x800);
    let step: Step<Call<RawPointer>, RawPointer> =
        text.get_c_string_using_encoding(NSStringEncoding::NSUTF8StringEncoding);
    assert_eq!(error_of(step), DispatchError::WrongArity);
    let nil = NSStringID::nil();
    assert_eq!(
        error_of(nil.get_c_string_using_encoding(NSStringEncoding::NSUTF8StringEncoding)),
        DispatchError::NilReceiver
    );
}

#[test]
fn a_url_is_made_from_a_string() {
    let text = NSStringID::from_ptr(0x800);
    match NSURLID::new_with_string(&text) {
        Step::Ask { request: Request::Send(message), machine, .. } => {
            assert_eq!(message.receiver, Receiver::Class("NSURL"));
            assert_eq!(message.selector, "alloc");
            match machine.resume(Ok(Reply::Object(0x900))) {
                Step::Ask { request: Request::Send(message), machine, .. } => {
                    assert_eq!(message.receiver, Receiver::Object(0x900));
                    assert_eq!(message.selector, "initWithString:");
                    assert_eq!(message.arguments, vec![Argument::Object(0x800)]);
                    match machine.resume(Ok(Reply::Object(0x910))) {
                        Step::Done { upkeep, value } => {
                            assert_eq!(upkeep, Upkeep::Nothing);
                            assert_eq!(value.as_ptr(), 0x910);
                        }
                        _ => panic!("the making did not end"),
                    }
                }
                _ => panic!("no initializer was handed out"),
            }
        }
        _ => panic!("no message was handed out"),
    }
}

#[test]
fn nothing_is_initialized_when_alloc_returns_nil() {
    match NSArrayID::new() {
        Step::Ask { machine, .. } => {
            assert_eq!(error_of(machine.resume(Ok(Reply::Object(0)))), DispatchError::NilReceiver);
        }
        _ => panic!("no message was handed out"),
    }
    match NSArrayID::new() {
        Step::Ask { machine, .. } => {
            assert_eq!(error_of(machine.resume(Ok(Reply::Word(4)))), DispatchError::UnexpectedReply);
        }
        _ => panic!("no message was handed out"),
    }
}

// ---------------------------------------------------------------- strings

fn round_trip(text: &str) {
    let mut runtime = Runtime::new();
    let string = runtime.run(NSStringID::from_str(text)).unwrap();
    assert!(!string.is_nil());
    assert_eq!(runtime.run(string.len()).unwrap(), text.len());
    assert_eq!(runtime.run(string.as_str()).unwrap(), text);
    assert_eq!(runtime.count(string.as_ptr()), 1);
}

#[test]
fn an_empty_string_survives_the_round_trip() {
    round_trip("");
}

#[test]
fn an_ascii_string_survives_the_round_trip() {
    round_trip("Hello, world");
}

#[test]
fn a_string_of_many_bytes_to_the_character_survives_the_round_trip() {
    round_trip("h\u{e9}llo w\u{f6}rld \u{2713} \u{65e5}\u{672c}\u{8a9e} \u{1f600}");
}

#[test]
fn from_str_sends_the_bytes_their_length_and_the_utf8_tag() {
    match NSStringID::from_str("h\u{e9}") {
        Step::Ask { machine, .. } => match machine.resume(Ok(Reply::Object(0x20))) {
            Step::Ask { request: Request::Send(message), .. } => {
                assert_eq!(message.receiver, Receiver::Object(0x20));
                assert_eq!(message.selector, "initWithBytes:length:encoding:");
                assert_eq!(
                    message.arguments,
                    vec![Argument::Buffer, Argument::Word(3), Argument::Word(4)]
                );
                assert_eq!(message.buffer, vec![0x68, 0xc3, 0xa9]);
                assert_eq!(message.yields, Kind::Object);
            }
            _ => panic!("no initializer was handed out"),
        },
        _ => panic!("no message was handed out"),
    }
}

#[test]
fn a_string_is_not_made_from_bytes_that_are_not_utf8() {
    let mut runtime = Runtime::new();
    let invalid: Vec<u8> = vec![0x66, 0x6f, 0xff, 0xfe];
    runtime.memory.insert(0x7000, invalid);
    let string = runtime
        .run(NSStringID::new_with_bytes_length_encoding(
            0x7000,
            4,
            NSStringEncoding::NSUTF8StringEncoding,
        ))
        .unwrap();
    assert!(string.is_nil());
    assert_eq!(runtime.run(string.as_str()).err(), Some(DispatchError::NilReceiver));
}

#[test]
fn bytes_that_are_not_utf8_are_not_read_as_a_string() {
    let mut runtime = Runtime::new();
    for invalid in [vec![0xffu8], vec![0xc3], vec![0x61, 0x80], vec![0xed, 0xa0, 0x80], vec![0xc0, 0xaf]] {
        let string = NSStringID::from_ptr(runtime.string(&invalid));
        assert_eq!(runtime.run(string.as_str()).err(), Some(DispatchError::InvalidUtf8));
    }
}

#[test]
fn reading_a_string_asks_where_how_long_and_then_reads() {
    let mut runtime = Runtime::new();
    let address = runtime.string("na\u{ef}ve".as_bytes());
    let string = NSStringID::from_ptr(address);
    assert_eq!(runtime.run(string.as_str()).unwrap(), "na\u{ef}ve");
    assert_eq!(
        runtime.requests,
        vec![
            format!("{:#x} UTF8String", address),
            format!("{:#x} lengthOfBytesUsingEncoding:", address),
            format!("read 6 at {:#x}", address + 0x100000),
        ]
    );
}

#[test]
fn text_that_lies_nowhere_is_not_read() {
    match ReadText::begin(0x30) {
        Step::Ask { machine, .. } => match machine.resume(Ok(Reply::Pointer(0))) {
            Step::Ask { machine, .. } => {
                assert_eq!(error_of(machine.resume(Ok(Reply::Word(5)))), DispatchError::UnexpectedReply);
            }
            _ => panic!("the length was not asked for"),
        },
        _ => panic!("no message was handed out"),
    }
}

// ---------------------------------------------------------------- arrays

fn read_array(length: usize) {
    let mut runtime = Runtime::new();
    let items: Vec<usize> = (0..length).map(|_| runtime.create("NSObject")).collect();
    let address = runtime.array(items.clone());
    let array = NSArrayID::from_ptr(address);
    let read: Vec<NSObjectID> = runtime.run(array.to_vec()).unwrap();
    let addresses: Vec<usize> = read.iter().map(|item| item.as_ptr()).collect();
    assert_eq!(addresses, items);
    let mut expected = vec![format!("{:#x} count", address)];
    for _ in 0..length {
        expected.push(format!("{:#x} objectAtIndex:", address));
    }
    assert_eq!(runtime.requests, expected);
    for item in items {
        assert_eq!(runtime.count(item), 2);
    }
}

#[test]
fn an_empty_array_is_read_without_asking_for_an_item() {
    read_array(0);
}

#[test]
fn an_array_of_one_is_read_with_one_question() {
    read_array(1);
}

#[test]
fn an_array_of_many_is_read_with_one_question_for_each_item() {
    read_array(9);
}

#[test]
fn the_items_are_asked_for_from_index_zero_up() {
    let mut step = NSArrayID::from_ptr(0x60).to_vec::<NSObjectID>();
    let mut asked = Vec::new();
    let mut answers = vec![Reply::Word(3), Reply::Object(0xa0), Reply::Object(0), Reply::Object(0xc0)]
        .into_iter();
    let mut due = Vec::new();
    let read = loop {
        match step {
            Step::Ask { upkeep, request: Request::Send(message), machine } => {
                due.push(upkeep);
                asked.push((message.selector, message.arguments.clone()));
                step = machine.resume(Ok(answers.next().unwrap()));
            }
            Step::Done { upkeep, value } => {
                due.push(upkeep);
                break value;
            }
            _ => panic!("the reading failed"),
        }
    };
    assert_eq!(
        asked,
        vec![
            ("count", vec![]),
            ("objectAtIndex:", vec![Argument::Word(0)]),
            ("objectAtIndex:", vec![Argument::Word(1)]),
            ("objectAtIndex:", vec![Argument::Word(2)]),
        ]
    );
    assert_eq!(
        due,
        vec![
            Upkeep::Nothing,
            Upkeep::Nothing,
            Upkeep::Retain(0xa0),
            Upkeep::Nothing,
            Upkeep::Retain(0xc0),
        ]
    );
    let addresses: Vec<usize> = read.iter().map(|item| item.as_ptr()).collect();
    assert_eq!(addresses, vec![0xa0, 0, 0xc0]);
}

#[test]
fn a_reading_stops_at_the_first_failure() {
    let mut runtime = Runtime::new();
    let item = runtime.create("NSObject");
    let address = runtime.array(vec![item]);
    runtime.canned.insert("count", Reply::Word(2));
    let array = NSArrayID::from_ptr(address);
    let outcome = runtime.run(array.to_vec::<NSObjectID>());
    assert_eq!(outcome.err(), Some(DispatchError::Foreign("index 1 beyond bounds".to_string())));
    assert_eq!(runtime.requests.len(), 3);
}

#[test]
fn an_item_is_inserted_without_a_look_at_the_index() {
    let mut runtime = Runtime::new();
    let first = runtime.create("NSObject");
    let second = runtime.create("NSObject");
    let address = runtime.array(vec![first]);
    let array = NSMutableArrayID::from_ptr(address);
    runtime.run(array.insert_object_at_index(&NSObjectID::from_ptr(second), 0)).unwrap();
    assert_eq!(runtime.run(array.count()).unwrap(), 2);
    let read: Vec<NSObjectID> = runtime.run(array.to_vec()).unwrap();
    assert_eq!(read[0].as_ptr(), second);
    assert_eq!(read[1].as_ptr(), first);
}

// ---------------------------------------------------------------- errors in a slot

fn library_from(reply: Reply) -> Result<MTLLibraryID, NSErrorID> {
    let mut runtime = Runtime::new();
    let device = MTLDeviceID::from_ptr(runtime.create("MTLDevice"));
    runtime.canned.insert("newLibraryWithFile:error:", reply);
    let path = NSStringID::from_ptr(runtime.string(b"shaders.metallib"));
    runtime.run(device.new_library_with_file(path)).unwrap()
}

#[test]
fn an_empty_error_slot_is_success() {
    let library = library_from(Reply::Attempt { value: 0x5550, error: 0 });
    assert_eq!(library.ok().map(|library| library.as_ptr()), Some(0x5550));
}

#[test]
fn a_filled_error_slot_is_failure_with_what_it_holds() {
    let library = library_from(Reply::Attempt { value: 0, error: 0x6660 });
    assert_eq!(library.err().map(|error| error.as_ptr()), Some(0x6660));
}

#[test]
fn a_filled_error_slot_is_failure_even_beside_an_object() {
    let library = library_from(Reply::Attempt { value: 0x5550, error: 0x6660 });
    assert_eq!(library.err().map(|error| error.as_ptr()), Some(0x6660));
}

#[test]
fn the_error_slot_travels_as_the_last_argument() {
    let device = MTLDeviceID::from_ptr(0x70);
    let message = message_of(device.new_library_with_file(NSStringID::from_ptr(0x80)));
    assert_eq!(message.selector, "newLibraryWithFile:error:");
    assert_eq!(message.arguments, vec![Argument::Object(0x80), Argument::ErrorSlot]);
    assert_eq!(message.yields, Kind::Attempt);
    let message = message_of(
        device.new_render_pipeline_state_with_descriptor(MTLRenderPipelineDescriptorID::from_ptr(0x90)),
    );
    assert_eq!(message.selector, "newRenderPipelineStateWithDescriptor:error:");
    assert_eq!(message.arguments, vec![Argument::Object(0x90), Argument::ErrorSlot]);
    assert_eq!(message.yields, Kind::Attempt);
}

#[test]
fn a_pipeline_state_comes_out_of_an_empty_slot() {
    let mut runtime = Runtime::new();
    let device = MTLDeviceID::from_ptr(runtime.create("MTLDevice"));
    runtime.canned.insert(
        "newRenderPipelineStateWithDescriptor:error:",
        Reply::Attempt { value: 0x4440, error: 0 },
    );
    let state: Result<MTLRenderPipelineStateID, NSErrorID> = runtime
        .run(device.new_render_pipeline_state_with_descriptor(
            MTLRenderPipelineDescriptorID::from_ptr(0x90),
        ))
        .unwrap();
    assert_eq!(state.ok().map(|state| state.as_ptr()), Some(0x4440));
}

// ---------------------------------------------------------------- metal

#[test]
fn a_render_pass_is_recorded_call_for_call() {
    let mut runtime = Runtime::new();
    let device = MTLDeviceID::from_ptr(runtime.create("MTLDevice"));
    let d = device.as_ptr();
    let queue = runtime.run(device.new_command_queue()).unwrap();
    let q = queue.as_ptr();
    let buffer = runtime.run(queue.command_buffer()).unwrap();
    let b = buffer.as_ptr();
    let encoder = runtime
        .run(buffer.render_command_encoder_with_descriptor(MTLRenderPassDescriptorID::from_ptr(0x33)))
        .unwrap();
    let e = encoder.as_ptr();
    runtime.run(encoder.set_render_pipeline_state(MTLRenderPipelineStateID::from_ptr(0x44))).unwrap();
    runtime
        .run(encoder.set_vertex_buffer_offset_at_index(MTLBufferID::from_ptr(0x55), 0, 0))
        .unwrap();
    runtime
        .run(encoder.draw_primitives_vertex_start_vertex_count(
            MTLPrimitiveType::MTLPrimitiveTypeTriangle,
            0,
            3,
        ))
        .unwrap();
    runtime.run(encoder.end_encoding()).unwrap();
    runtime.run(buffer.commit()).unwrap();
    assert_eq!(
        runtime.requests,
        vec![
            format!("{:#x} newCommandQueue", d),
            format!("{:#x} commandBuffer", q),
            format!("{:#x} renderCommandEncoderWithDescriptor:", b),
            format!("{:#x} setRenderPipelineState:", e),
            format!("{:#x} setVertexBuffer:offset:atIndex:", e),
            format!("{:#x} drawPrimitives:vertexStart:vertexCount:", e),
            format!("{:#x} endEncoding", e),
            format!("{:#x} commit", b),
        ]
    );
    assert_eq!(runtime.count(q), 1);
    assert_eq!(runtime.count(b), 2);
    assert_eq!(runtime.count(e), 2);
}

#[test]
fn a_call_out_of_turn_is_sent_all_the_same() {
    let encoder = objc_bridge::metal::MTLCommandEncoderID::from_ptr(0x99);
    let message = message_of(encoder.end_encoding());
    assert_eq!(message.selector, "endEncoding");
    let message = message_of(encoder.end_encoding());
    assert_eq!(message.selector, "endEncoding");
    let message =
        message_of(encoder.draw_primitives_vertex_start_vertex_count(MTLPrimitiveType::MTLPrimitiveTypeLine, 4, 8));
    assert_eq!(
        message.arguments,
        vec![Argument::Word(1), Argument::Word(4), Argument::Word(8)]
    );
}

#[test]
fn the_supported_sample_counts_come_out_in_rising_order() {
    let mut runtime = Runtime::new();
    runtime.supported = vec![8, 1, 4, 2, 127, 128];
    let address = runtime.create("MTLDevice");
    let device = MTLDeviceID::from_ptr(address);
    let counts = runtime.run(device.texture_sample_counts()).unwrap();
    assert_eq!(counts, vec![1, 2, 4, 8, 127]);
    assert_eq!(runtime.requests.len(), 127);
    assert!(runtime
        .requests
        .iter()
        .all(|request| *request == format!("{:#x} supportsTextureSampleCount:", address)));
}

#[test]
fn the_sample_counts_are_asked_about_from_one_to_the_largest() {
    let mut step = SampleCounts::begin(0x70);
    let mut asked = Vec::new();
    let counts = loop {
        match step {
            Step::Ask { request: Request::Send(message), machine, .. } => {
                asked.push(message.arguments[0]);
                step = machine.resume(Ok(Reply::Flag(false)));
            }
            Step::Done { value, .. } => break value,
            _ => panic!("the survey failed"),
        }
    };
    let expected: Vec<Argument> = (1..128).map(Argument::Word).collect();
    assert_eq!(asked, expected);
    assert!(counts.is_empty());
}

#[test]
fn the_devices_of_the_machine_come_from_plain_functions() {
    let mut runtime = Runtime::new();
    let devices = runtime.run(all_devices()).unwrap();
    assert_eq!(runtime.count(devices.as_ptr()), 1);
    let device = runtime.run(system_default_device()).unwrap();
    assert_eq!(runtime.count(device.as_ptr()), 2);
    assert_eq!(
        runtime.requests,
        vec!["MTLCopyAllDevices()".to_string(), "MTLCreateSystemDefaultDevice()".to_string()]
    );
}

#[test]
fn the_default_device_may_be_missing() {
    match system_default_device() {
        Step::Ask { machine, .. } => match machine.resume(Ok(Reply::Object(0))) {
            Step::Done { upkeep, value } => {
                assert!(value.is_nil());
                assert_eq!(upkeep, Upkeep::Nothing);
            }
            _ => panic!("the call did not end"),
        },
        _ => panic!("nothing was asked"),
    }
}

#[test]
fn every_identity_type_is_marshalled_as_an_object() {
    assert_eq!(NSObjectID::encode(), "@");
    assert_eq!(NSStringID::encode(), "@");
    assert_eq!(MTLDeviceID::encode(), "@");
    assert_eq!(NSArrayID::class(), "NSArray");
    assert_eq!(NSMutableArrayID::class(), "NSMutableArray");
    assert_eq!(MTLRenderPipelineDescriptorID::class(), "MTLRenderPipelineDescriptor");
}

#[test]
fn numbered_values_travel_as_their_numbers() {
    let plan = MTLDepthStencilDescriptorID::from_ptr(0x120);
    let message =
        message_of(plan.set_depth_compare_function(MTLCompareFunction::MTLCompareFunctionLessEqual));
    assert_eq!(message.selector, "setDepthCompareFunction:");
    assert_eq!(message.arguments, vec![Argument::Word(3)]);
    let message = message_of(plan.set_depth_write_enabled(true));
    assert_eq!(message.selector, "setDepthWriteEnabled:");
    assert_eq!(message.arguments, vec![Argument::Flag(true)]);
    let device = MTLDeviceID::from_ptr(0x130);
    let message = message_of(device.supports_feature_set(MTLFeatureSet::OSX_GPUFamily1_v2));
    assert_eq!(message.arguments, vec![Argument::Word(10001)]);
    assert_eq!(message.yields, Kind::Flag);
    let encoder = objc_bridge::metal::MTLCommandEncoderID::from_ptr(0x140);
    let message = message_of(
        encoder.draw_indexed_primitives_index_count_index_type_index_buffer_index_buffer_offset(
            MTLPrimitiveType::MTLPrimitiveTypeTriangleStrip,
            36,
            MTLIndexType::MTLIndexTypeUInt32,
            MTLBufferID::from_ptr(0x150),
            12,
        ),
    );
    assert_eq!(
        message.selector,
        "drawIndexedPrimitives:indexCount:indexType:indexBuffer:indexBufferOffset:"
    );
    assert_eq!(
        message.arguments,
        vec![
            Argument::Word(4),
            Argument::Word(36),
            Argument::Word(1),
            Argument::Object(0x150),
            Argument::Word(12),
        ]
    );
}

#[test]
fn sizes_long_numbers_and_addresses_come_back_as_they_are() {
    let device = MTLDeviceID::from_ptr(0x130);
    match device.max_threads_per_threadgroup() {
        Step::Ask { request: Request::Send(message), machine, .. } => {
            assert_eq!(message.yields, Kind::Size);
            let size = MTLSize { width: 1024, height: 1024, depth: 64 };
            match machine.resume(Ok(Reply::Size(size))) {
                Step::Done { value, upkeep } => {
                    assert_eq!(value, size);
                    assert_eq!(upkeep, Upkeep::Nothing);
                }
                _ => panic!("the call did not end"),
            }
        }
        _ => panic!("no message was handed out"),
    }
    match device.recommended_max_working_set_size() {
        Step::Ask { machine, .. } => match machine.resume(Ok(Reply::Long(1 << 40))) {
            Step::Done { value, .. } => assert_eq!(value, 1 << 40),
            _ => panic!("the call did not end"),
        },
        _ => panic!("no message was handed out"),
    }
    match MTLBufferID::from_ptr(0x150).contents() {
        Step::Ask { machine, .. } => match machine.resume(Ok(Reply::Pointer(0xbeef0))) {
            Step::Done { value, upkeep } => {
                assert_eq!(value, RawPointer { address: 0xbeef0 });
                assert_eq!(upkeep, Upkeep::Nothing);
            }
            _ => panic!("the call did not end"),
        },
        _ => panic!("no message was handed out"),
    }
}

#[test]
fn data_is_made_from_an_address_and_cut_by_a_range() {
    match NSDataID::new_with_bytes_length(0x7000, 16) {
        Step::Ask { request: Request::Send(message), machine, .. } => {
            assert_eq!(message.receiver, Receiver::Class("NSData"));
            match machine.resume(Ok(Reply::Object(0x160))) {
                Step::Ask { request: Request::Send(message), .. } => {
                    assert_eq!(message.selector, "initWithBytes:length:");
                    assert_eq!(
                        message.arguments,
                        vec![Argument::Pointer(0x7000), Argument::Word(16)]
                    );
                }
                _ => panic!("no initializer was handed out"),
            }
        }
        _ => panic!("no message was handed out"),
    }
    let data = NSDataID::from_ptr(0x160);
    let message = message_of(data.subdata_with_range(NSRange { location: 4, length: 8 }));
    assert_eq!(message.selector, "subdataWithRange:");
    assert_eq!(message.arguments, vec![Argument::Range(NSRange { location: 4, length: 8 })]);
    assert_eq!(message.yields, Kind::Object);
}
