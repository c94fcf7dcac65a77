//! Arrays.

use core::marker::PhantomData;
use vstd::prelude::*;
use crate::call::Call;
use crate::call::sends;
use crate::call::sends_to_class;
use crate::construct::Construct;
use crate::construct::constructs;
use crate::conversation::Conversation;
use crate::conversation::Outline;
use crate::conversation::Record;
use crate::conversation::Request;
use crate::conversation::RequestView;
use crate::conversation::Step;
use crate::foundation::NSUInteger;
use crate::foundation::object::NSObject;
use crate::identity::ObjectiveC;
use crate::lifetime::releasing;
use crate::lifetime::retain;
use crate::lifetime::retaining;
use crate::lifetime::Upkeep;
use crate::message::Argument;
use crate::message::dispatch;
use crate::message::DispatchError;
use crate::message::Kind;
use crate::message::message_to;
use crate::message::Reply;
use crate::selector::family_is_in_the_initials;
use crate::selector::markers;

verus! {

/// What an ordered collection can be asked.
pub trait NSArray: NSObject {
    /// `init`: makes a fresh instance an empty array.
    fn init(self) -> (step: Step<Call<Self>, Self>)
        ensures
            sends(step, self.address(), "init"@, seq![], false),
    {
        proof {
            reveal_strlit("init");
            reveal_with_fuel(markers, 5);
            family_is_in_the_initials("init"@);
        }
        Call::to(self.as_ptr(), "init", Vec::new())
    }

    /// `count`: how many items the array holds.
    fn count(&self) -> (step: Step<Call<NSUInteger>, NSUInteger>)
        ensures
            sends(step, self.address(), "count"@, seq![], true),
    {
        proof {
            reveal_strlit("count");
            reveal_with_fuel(markers, 6);
            family_is_in_the_initials("count"@);
        }
        Call::to(self.as_ptr(), "count", Vec::new())
    }

    /// `objectAtIndex:`: the item at `index`. The index goes to the runtime as it is.
    fn object_at_index<T0: ObjectiveC>(&self, index: NSUInteger) -> (step: Step<Call<T0>, T0>)
        ensures
            sends(step, self.address(), "objectAtIndex:"@, seq![Argument::Word(index)], true),
    {
        proof {
            reveal_strlit("objectAtIndex:");
            reveal_with_fuel(markers, 15);
            family_is_in_the_initials("objectAtIndex:"@);
        }
        let arguments = vec![Argument::Word(index)];
        assert(arguments@ =~= seq![Argument::Word(index)]);
        Call::to(self.as_ptr(), "objectAtIndex:", arguments)
    }

    /// `objectAtIndexedSubscript:`: the item at `index`. The index goes to the runtime as it is.
    fn object_at_indexed_subscript<T0: ObjectiveC>(
        &self,
        index: NSUInteger,
    ) -> (step: Step<Call<T0>, T0>)
        ensures
            sends(
                step,
                self.address(),
                "objectAtIndexedSubscript:"@,
                seq![Argument::Word(index)],
                true,
            ),
    {
        proof {
            reveal_strlit("objectAtIndexedSubscript:");
            reveal_with_fuel(markers, 26);
            family_is_in_the_initials("objectAtIndexedSubscript:"@);
        }
        let arguments = vec![Argument::Word(index)];
        assert(arguments@ =~= seq![Argument::Word(index)]);
        Call::to(self.as_ptr(), "objectAtIndexedSubscript:", arguments)
    }

    /// The items of the array as a host sequence, each retained.
    fn to_vec<T: ObjectiveC>(&self) -> (step: Step<ToVec<T>, Vec<T>>)
        ensures
            ToVec::<T>::progress(step) == reading_opens(self.address()),
    {
        ToVec::begin(self.as_ptr())
    }
}

/// An array.
pub struct NSArrayID(usize);

impl NSArrayID {
    /// Stands for the object at `ptr` without taking a unit on it.
    pub fn from_ptr(ptr: usize) -> (id: Self)
        ensures
            id.address() == ptr,
    {
        NSArrayID(ptr)
    }

    /// Stands for no object.
    pub fn nil() -> (id: Self)
        ensures
            id.address() == 0,
    {
        NSArrayID(0)
    }

    /// Tells whether this stands for no object.
    pub fn is_nil(&self) -> (nil: bool)
        ensures
            nil == (self.address() == 0),
    {
        self.0 == 0
    }

    /// The name under which the runtime knows the class.
    pub fn class() -> (name: &'static str)
        ensures
            name@ == "NSArray"@,
    {
        "NSArray"
    }

    /// `alloc`: a fresh instance that no initializer has seen yet.
    pub fn allocate() -> (step: Step<Call<Self>, Self>)
        ensures
            sends_to_class(step, "NSArray"@, "alloc"@, seq![], false),
    {
        proof {
            reveal_strlit("alloc");
            reveal_with_fuel(markers, 6);
            family_is_in_the_initials("alloc"@);
        }
        Call::to_class("NSArray", "alloc", Vec::new())
    }

    /// An empty array.
    pub fn new() -> (step: Step<Construct<Self>, Self>)
        ensures
            constructs(step, "NSArray"@, "init"@, seq![], Seq::empty()),
    {
        proof {
            reveal_strlit("init");
            reveal_with_fuel(markers, 5);
        }
        Construct::begin("NSArray", "init", Vec::new(), Vec::new())
    }

    /// A second owner of the same object, and the retain that is due for it.
    pub fn clone(&self) -> (copy: (Self, Upkeep))
        ensures
            copy.0.address() == self.address(),
            copy.1 == retaining(self.address()),
    {
        NSArrayID(self.0).retain()
    }

    /// Ends this owner: the release that is due for it.
    pub fn drop(self) -> (upkeep: Upkeep)
        ensures
            upkeep == releasing(self.address()),
    {
        self.release()
    }
}

impl ObjectiveC for NSArrayID {
    closed spec fn address(&self) -> usize {
        self.0
    }

    fn as_ptr(&self) -> (ptr: usize) {
        self.0
    }

    fn from_ptr(ptr: usize) -> (id: Self) {
        NSArrayID(ptr)
    }
}

impl NSObject for NSArrayID {

}

impl NSArray for NSArrayID {

}

/// The reading of an array into a host sequence.
pub enum ToVec<T> {
    /// `count` has been sent.
    Counting { array: usize, shape: PhantomData<T> },
    /// `objectAtIndex:` has been sent for the item that follows `items`.
    Collecting { array: usize, count: usize, items: Vec<T> },
}

/// A reading, with the items that it holds as addresses.
pub enum Reading {
    Counting { array: usize },
    Collecting { array: usize, count: usize, held: Seq<usize> },
}

/// The addresses of `items`, in their order.
pub open spec fn addresses<T: ObjectiveC>(items: Seq<T>) -> Seq<usize> {
    items.map_values(|item: T| item.address())
}

/// The message that asks the array at `array` how many items it holds.
pub open spec fn count_request(array: usize) -> RequestView {
    RequestView::Send(message_to(array, "count"@, seq![], Kind::Word))
}

/// The message that asks the array at `array` for its item at `index`.
pub open spec fn element_request(array: usize, index: usize) -> RequestView {
    RequestView::Send(
        message_to(array, "objectAtIndex:"@, seq![Argument::Word(index)], Kind::Object),
    )
}

/// How a reading opens: to nil nothing is sent, any other array is asked
/// for its count.
pub open spec fn reading_opens(array: usize) -> Outline<Reading, Seq<usize>> {
    if array == 0 {
        Outline::Failed { error: DispatchError::NilReceiver }
    } else {
        Outline::Ask {
            upkeep: Upkeep::Nothing,
            request: count_request(array),
            state: Reading::Counting { array },
        }
    }
}

/// How a reading asks the array at `array` for its item at `index`, with
/// `upkeep` due first and `state` as where it then stands.
pub open spec fn asks_for_item(
    upkeep: Upkeep,
    array: usize,
    index: usize,
    state: Reading,
) -> Outline<Reading, Seq<usize>> {
    if array == 0 {
        Outline::Failed { error: DispatchError::NilReceiver }
    } else {
        Outline::Ask { upkeep, request: element_request(array, index), state }
    }
}

/// How `reading` goes on after `outcome`.
///
/// An empty array is done at once. Otherwise the items are asked for one
/// by one, from index 0 up; each arrives on loan and is retained before
/// the next is asked for. No index is looked at: what the array does with
/// it is the runtime's affair.
pub open spec fn reading_follows(
    reading: Reading,
    outcome: Result<Reply, DispatchError>,
) -> Outline<Reading, Seq<usize>> {
    match (reading, outcome) {
        (_, Err(error)) => Outline::Failed { error },
        (Reading::Counting { array }, Ok(Reply::Word(count))) => if count == 0 {
            Outline::Done { upkeep: Upkeep::Nothing, value: Seq::empty() }
        } else {
            asks_for_item(
                Upkeep::Nothing,
                array,
                0,
                Reading::Collecting { array, count, held: Seq::empty() },
            )
        },
        (Reading::Collecting { array, count, held }, Ok(Reply::Object(address))) => if held.len()
            + 1 < count {
            asks_for_item(
                retaining(address),
                array,
                (held.len() + 1) as usize,
                Reading::Collecting { array, count, held: held.push(address) },
            )
        } else {
            Outline::Done { upkeep: retaining(address), value: held.push(address) }
        },
        (_, Ok(_)) => Outline::Failed { error: DispatchError::UnexpectedReply },
    }
}

impl<T: ObjectiveC> ToVec<T> {
    /// This reading, with the items that it holds as addresses.
    pub open spec fn outline(self) -> Reading {
        match self {
            ToVec::Counting { array, .. } => Reading::Counting { array },
            ToVec::Collecting { array, count, items } => Reading::Collecting {
                array,
                count,
                held: addresses(items@),
            },
        }
    }

    /// `step`, with items as addresses.
    pub open spec fn progress(step: Step<ToVec<T>, Vec<T>>) -> Outline<Reading, Seq<usize>> {
        match step {
            Step::Ask { upkeep, request, machine } => Outline::Ask {
                upkeep,
                request: request@,
                state: machine.outline(),
            },
            Step::Done { upkeep, value } => Outline::Done { upkeep, value: addresses(value@) },
            Step::Failed { error } => Outline::Failed { error },
        }
    }

    /// Opens the reading of the array at `array`.
    pub fn begin(array: usize) -> (step: Step<ToVec<T>, Vec<T>>)
        ensures
            Self::progress(step) == reading_opens(array),
    {
        proof {
            reveal_strlit("count");
            reveal_with_fuel(markers, 6);
        }
        match dispatch(array, "count", Vec::new(), Kind::Word) {
            Ok(message) => Step::Ask {
                upkeep: Upkeep::Nothing,
                request: Request::Send(message),
                machine: ToVec::Counting { array, shape: PhantomData },
            },
            Err(error) => Step::Failed { error },
        }
    }

    fn ask_for(upkeep: Upkeep, array: usize, index: usize, machine: ToVec<T>) -> (step: Step<
        ToVec<T>,
        Vec<T>,
    >)
        ensures
            Self::progress(step) == asks_for_item(upkeep, array, index, machine.outline()),
    {
        proof {
            reveal_strlit("objectAtIndex:");
            reveal_with_fuel(markers, 15);
        }
        let arguments = vec![Argument::Word(index)];
        assert(arguments@ =~= seq![Argument::Word(index)]);
        match dispatch(array, "objectAtIndex:", arguments, Kind::Object) {
            Ok(message) => Step::Ask { upkeep, request: Request::Send(message), machine },
            Err(error) => Step::Failed { error },
        }
    }
}

impl<T: ObjectiveC> Conversation for ToVec<T> {
    type Output = Vec<T>;

    fn resume(self, outcome: Result<Reply, DispatchError>) -> (step: Step<ToVec<T>, Vec<T>>)
        ensures
            Self::progress(step) == reading_follows(self.outline(), outcome),
    {
        match outcome {
            Err(error) => Step::Failed { error },
            Ok(reply) => match self {
                ToVec::Counting { array, .. } => match reply {
                    Reply::Word(count) => {
                        if count == 0 {
                            let items: Vec<T> = Vec::new();
                            assert(addresses(items@) =~= Seq::<usize>::empty());
                            Step::Done { upkeep: Upkeep::Nothing, value: items }
                        } else {
                            let items: Vec<T> = Vec::new();
                            assert(addresses(items@) =~= Seq::<usize>::empty());
                            Self::ask_for(
                                Upkeep::Nothing,
                                array,
                                0,
                                ToVec::Collecting { array, count, items },
                            )
                        }
                    },
                    _ => Step::Failed { error: DispatchError::UnexpectedReply },
                },
                ToVec::Collecting { array, count, items } => match reply {
                    Reply::Object(address) => {
                        let ghost before = addresses(items@);
                        let mut items = items;
                        items.push(T::from_ptr(address));
                        assert(addresses(items@) =~= before.push(address));
                        let upkeep = retain(address);
                        if items.len() < count {
                            let index = items.len();
                            Self::ask_for(
                                upkeep,
                                array,
                                index,
                                ToVec::Collecting { array, count, items },
                            )
                        } else {
                            Step::Done { upkeep, value: items }
                        }
                    },
                    _ => Step::Failed { error: DispatchError::UnexpectedReply },
                },
            },
        }
    }
}

/// The record of a reading that stands at `progress` and is given `answers`
/// one after the other.
pub open spec fn reading_runs(
    progress: Outline<Reading, Seq<usize>>,
    answers: Seq<Result<Reply, DispatchError>>,
) -> Record<Seq<usize>>
    decreases answers.len(),
{
    match progress {
        Outline::Ask { upkeep, request, state } => if answers.len() == 0 {
            Record { requests: seq![request], upkeep: seq![upkeep], value: None }
        } else {
            let rest = reading_runs(reading_follows(state, answers[0]), answers.drop_first());
            Record {
                requests: seq![request] + rest.requests,
                upkeep: seq![upkeep] + rest.upkeep,
                value: rest.value,
            }
        },
        Outline::Done { upkeep, value } => Record {
            requests: Seq::empty(),
            upkeep: seq![upkeep],
            value: Some(value),
        },
        Outline::Failed { error } => Record {
            requests: Seq::empty(),
            upkeep: Seq::empty(),
            value: None,
        },
    }
}

/// The answers of an array that holds `elements`: its count, then each item.
pub open spec fn answers_of(elements: Seq<usize>) -> Seq<Result<Reply, DispatchError>> {
    seq![Ok(Reply::Word(elements.len() as usize))] + items_of(elements)
}

/// The items of `elements` as the array hands them out.
pub open spec fn items_of(elements: Seq<usize>) -> Seq<Result<Reply, DispatchError>> {
    elements.map_values(|address: usize| Ok::<Reply, DispatchError>(Reply::Object(address)))
}

/// The requests for the `count` items of the array at `array` from index
/// `from` on, in rising order.
pub open spec fn element_requests(array: usize, from: nat, count: nat) -> Seq<RequestView> {
    Seq::new(count, |i: int| element_request(array, (from + i) as usize))
}

proof fn collecting_runs(array: usize, count: usize, held: Seq<usize>, rest: Seq<usize>, due: Upkeep)
    requires
        array != 0,
        rest.len() > 0,
        held.len() + rest.len() == count,
    ensures
        reading_runs(
            Outline::<Reading, Seq<usize>>::Ask {
                upkeep: due,
                request: element_request(array, held.len() as usize),
                state: Reading::Collecting { array, count, held },
            },
            items_of(rest),
        ) == (Record {
            requests: element_requests(array, held.len(), rest.len()),
            upkeep: seq![due] + rest.map_values(|address: usize| retaining(address)),
            value: Some(held + rest),
        }),
    decreases rest.len(),
{
    let reading = Reading::Collecting { array, count, held };
    let start = Outline::<Reading, Seq<usize>>::Ask {
        upkeep: due,
        request: element_request(array, held.len() as usize),
        state: reading,
    };
    let answers = items_of(rest);
    let first = rest[0];
    let later = rest.drop_first();
    let next = reading_follows(reading, answers[0]);
    let dues = rest.map_values(|address: usize| retaining(address));
    let later_dues = later.map_values(|address: usize| retaining(address));
    assert(answers[0] == Ok::<Reply, DispatchError>(Reply::Object(first)));
    assert(answers.drop_first() =~= items_of(later));
    assert(dues =~= seq![retaining(first)] + later_dues);
    assert(held + rest =~= held.push(first) + later);
    let record = reading_runs(start, answers);
    let tail = reading_runs(next, items_of(later));
    assert(record.requests == seq![element_request(array, held.len() as usize)] + tail.requests);
    assert(record.upkeep == seq![due] + tail.upkeep);
    assert(record.value == tail.value);
    if later.len() == 0 {
        assert(next == Outline::<Reading, Seq<usize>>::Done {
            upkeep: retaining(first),
            value: held.push(first),
        });
        assert(tail.requests =~= Seq::<RequestView>::empty());
        assert(record.requests =~= element_requests(array, held.len(), rest.len()));
        assert(record.upkeep =~= seq![due] + dues);
        assert(held.push(first) =~= held + rest);
    } else {
        assert(next == Outline::<Reading, Seq<usize>>::Ask {
            upkeep: retaining(first),
            request: element_request(array, (held.len() + 1) as usize),
            state: Reading::Collecting { array, count, held: held.push(first) },
        });
        collecting_runs(array, count, held.push(first), later, retaining(first));
        assert(tail.requests == element_requests(array, held.len() + 1, later.len()));
        assert(record.requests =~= element_requests(array, held.len(), rest.len()));
        assert(record.upkeep =~= seq![due] + dues);
    }
}

/// Reading an array that holds `elements` asks for its count once and then
/// for each item once, from index 0 up and in that order; every item that is
/// not nil is retained as it arrives; and what comes out is `elements`, in
/// their order.
pub proof fn reading_asks_for_each_item_once(array: usize, elements: Seq<usize>)
    requires
        array != 0,
        elements.len() <= usize::MAX,
    ensures
        reading_runs(reading_opens(array), answers_of(elements)) == (Record {
            requests: seq![count_request(array)] + element_requests(array, 0, elements.len()),
            upkeep: seq![Upkeep::Nothing, Upkeep::Nothing] + elements.map_values(
                |address: usize| retaining(address),
            ),
            value: Some(elements),
        }),
{
    let count = elements.len() as usize;
    let answers = answers_of(elements);
    let counting = Reading::Counting { array };
    let record = reading_runs(reading_opens(array), answers);
    let next = reading_follows(counting, answers[0]);
    let tail = reading_runs(next, answers.drop_first());
    let dues = elements.map_values(|address: usize| retaining(address));
    assert(answers[0] == Ok::<Reply, DispatchError>(Reply::Word(count)));
    assert(answers.drop_first() =~= items_of(elements));
    assert(record.requests == seq![count_request(array)] + tail.requests);
    assert(record.upkeep == seq![Upkeep::Nothing] + tail.upkeep);
    if count == 0 {
        assert(tail.requests =~= element_requests(array, 0, 0));
        assert(tail.upkeep =~= seq![Upkeep::Nothing] + dues);
        assert(elements =~= Seq::<usize>::empty());
    } else {
        collecting_runs(array, count, Seq::empty(), elements, Upkeep::Nothing);
        assert(Seq::<usize>::empty() + elements =~= elements);
    }
    assert(record.upkeep =~= seq![Upkeep::Nothing, Upkeep::Nothing] + dues);
}

} // verus!
