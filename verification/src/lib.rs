//! A bridge between Rust and the Objective-C object model that never calls
//! the runtime itself.
//!
//! Every class of the foreign hierarchy has a capability trait, whose
//! methods stand for the messages that its objects understand, and an
//! identity type, which holds the address of one object. A method does not
//! send anything. It returns the first [`Step`](conversation::Step) of a
//! [`Conversation`](conversation::Conversation): the message to send, and
//! the machine that will read the answer. The caller has the runtime answer
//! and resumes the machine, until a value is there. Reference counts are
//! handled the same way: the bridge says which retain or release is due, and
//! the caller has it made.
//!
//! Nothing here panics. A message to nil, an answer of the wrong kind and a
//! failure that the runtime reports all end a conversation with a
//! [`DispatchError`](message::DispatchError), and what to do about it is the
//! caller's to decide. Indices, ranges and the order of calls are not
//! looked at: they go to the runtime as they are.

pub mod call;
pub mod construct;
pub mod conversation;
pub mod foundation;
pub mod identity;
pub mod lifetime;
pub mod message;
pub mod metal;
pub mod selector;

pub use crate::foundation::NSArray;
pub use crate::foundation::NSArrayID;
pub use crate::foundation::NSCoder;
pub use crate::foundation::NSCoderID;
pub use crate::foundation::NSData;
pub use crate::foundation::NSDataID;
pub use crate::foundation::NSDictionary;
pub use crate::foundation::NSDictionaryID;
pub use crate::foundation::NSError;
pub use crate::foundation::NSErrorID;
pub use crate::foundation::NSMutableArray;
pub use crate::foundation::NSMutableArrayID;
pub use crate::foundation::NSObject;
pub use crate::foundation::NSObjectID;
pub use crate::foundation::NSString;
pub use crate::foundation::NSStringID;
pub use crate::foundation::NSURL;
pub use crate::foundation::NSURLID;
pub use crate::identity::ObjectiveC;
pub use crate::metal::CAMetalDrawable;
pub use crate::metal::CAMetalDrawableID;
