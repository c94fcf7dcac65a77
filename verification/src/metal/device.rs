//! Graphics processors.

use vstd::prelude::*;
use crate::call::Call;
use crate::call::invokes;
use crate::call::sends;
use crate::conversation::Conversation;
use crate::conversation::Outline;
use crate::conversation::Record;
use crate::conversation::Request;
use crate::conversation::RequestView;
use crate::conversation::Step;
use crate::foundation::array::NSArrayID;
use crate::foundation::error::NSErrorID;
use crate::foundation::object::NSObject;
use crate::foundation::string::NSString;
use crate::foundation::string::NSStringID;
use crate::identity::ObjectiveC;
use crate::lifetime::releasing;
use crate::lifetime::retaining;
use crate::lifetime::Upkeep;
use crate::message::Argument;
use crate::message::dispatch;
use crate::message::DispatchError;
use crate::message::Kind;
use crate::message::message_to;
use crate::message::Reply;
use crate::metal::buffer::MTLBufferID;
use crate::metal::command_queue::MTLCommandQueueID;
use crate::metal::depth_stencil::MTLDepthStencilDescriptor;
use crate::metal::depth_stencil::MTLDepthStencilStateID;
use crate::metal::library::MTLLibraryID;
use crate::metal::MTLFeatureSet;
use crate::metal::MTLSize;
use crate::metal::render_pipeline::MTLRenderPipelineDescriptor;
use crate::metal::render_pipeline::MTLRenderPipelineStateID;
use crate::selector::family_is_in_the_initials;
use crate::selector::markers;

verus! {

/// What a graphics processor can be asked.
pub trait MTLDevice: NSObject {
    /// `isDepth24Stencil8PixelFormatSupported`
    fn is_depth24_stencil8_pixel_format_supported(&self) -> (step: Step<Call<bool>, bool>)
        ensures
            sends(step, self.address(), "isDepth24Stencil8PixelFormatSupported"@, seq![], true),
    {
        proof {
            reveal_strlit("isDepth24Stencil8PixelFormatSupported");
            reveal_with_fuel(markers, 38);
            family_is_in_the_initials("isDepth24Stencil8PixelFormatSupported"@);
        }
        Call::to(self.as_ptr(), "isDepth24Stencil8PixelFormatSupported", Vec::new())
    }

    /// `isHeadless`: whether no display is attached.
    fn is_headless(&self) -> (step: Step<Call<bool>, bool>)
        ensures
            sends(step, self.address(), "isHeadless"@, seq![], true),
    {
        proof {
            reveal_strlit("isHeadless");
            reveal_with_fuel(markers, 11);
            family_is_in_the_initials("isHeadless"@);
        }
        Call::to(self.as_ptr(), "isHeadless", Vec::new())
    }

    /// `isLowPower`: whether the device trades speed for power.
    fn is_low_power(&self) -> (step: Step<Call<bool>, bool>)
        ensures
            sends(step, self.address(), "isLowPower"@, seq![], true),
    {
        proof {
            reveal_strlit("isLowPower");
            reveal_with_fuel(markers, 11);
            family_is_in_the_initials("isLowPower"@);
        }
        Call::to(self.as_ptr(), "isLowPower", Vec::new())
    }

    /// `maxThreadsPerThreadgroup`: how many threads one group can hold along each axis.
    fn max_threads_per_threadgroup(&self) -> (step: Step<Call<MTLSize>, MTLSize>)
        ensures
            sends(step, self.address(), "maxThreadsPerThreadgroup"@, seq![], true),
    {
        proof {
            reveal_strlit("maxThreadsPerThreadgroup");
            reveal_with_fuel(markers, 25);
            family_is_in_the_initials("maxThreadsPerThreadgroup"@);
        }
        Call::to(self.as_ptr(), "maxThreadsPerThreadgroup", Vec::new())
    }

    /// `name`: what the device is called.
    fn name(&self) -> (step: Step<Call<NSStringID>, NSStringID>)
        ensures
            sends(step, self.address(), "name"@, seq![], true),
    {
        proof {
            reveal_strlit("name");
            reveal_with_fuel(markers, 5);
            family_is_in_the_initials("name"@);
        }
        Call::to(self.as_ptr(), "name", Vec::new())
    }

    /// `newBufferWithLength:options:`: fresh memory of `length` bytes.
    fn new_buffer_with_length_options(
        &self,
        length: usize,
        options: usize,
    ) -> (step: Step<Call<MTLBufferID>, MTLBufferID>)
        ensures
            sends(
                step,
                self.address(),
                "newBufferWithLength:options:"@,
                seq![Argument::Word(length), Argument::Word(options)],
                false,
            ),
    {
        proof {
            reveal_strlit("newBufferWithLength:options:");
            reveal_with_fuel(markers, 29);
            family_is_in_the_initials("newBufferWithLength:options:"@);
        }
        let arguments = vec![Argument::Word(length), Argument::Word(options)];
        assert(arguments@ =~= seq![Argument::Word(length), Argument::Word(options)]);
        Call::to(self.as_ptr(), "newBufferWithLength:options:", arguments)
    }

    /// `newBufferWithBytes:length:options:`: fresh memory that holds a copy of the
    /// `length` bytes at `bytes`.
    fn new_buffer_with_bytes_length_options(
        &self,
        bytes: usize,
        length: usize,
        options: usize,
    ) -> (step: Step<Call<MTLBufferID>, MTLBufferID>)
        ensures
            sends(
                step,
                self.address(),
                "newBufferWithBytes:length:options:"@,
                seq![Argument::Pointer(bytes), Argument::Word(length), Argument::Word(options)],
                false,
            ),
    {
        proof {
            reveal_strlit("newBufferWithBytes:length:options:");
            reveal_with_fuel(markers, 35);
            family_is_in_the_initials("newBufferWithBytes:length:options:"@);
        }
        let arguments = vec![
            Argument::Pointer(bytes),
            Argument::Word(length),
            Argument::Word(options),
        ];
        assert(arguments@ =~= seq![
            Argument::Pointer(bytes),
            Argument::Word(length),
            Argument::Word(options),
        ]);
        Call::to(self.as_ptr(), "newBufferWithBytes:length:options:", arguments)
    }

    /// `newCommandQueue`: a queue of batches for this device.
    fn new_command_queue(&self) -> (step: Step<Call<MTLCommandQueueID>, MTLCommandQueueID>)
        ensures
            sends(step, self.address(), "newCommandQueue"@, seq![], false),
    {
        proof {
            reveal_strlit("newCommandQueue");
            reveal_with_fuel(markers, 16);
            family_is_in_the_initials("newCommandQueue"@);
        }
        Call::to(self.as_ptr(), "newCommandQueue", Vec::new())
    }

    /// `newDepthStencilStateWithDescriptor:`: the depth test that `descriptor` plans, made ready.
    fn new_depth_stencil_state_with_descriptor<T: MTLDepthStencilDescriptor>(
        &self,
        descriptor: T,
    ) -> (step: Step<Call<MTLDepthStencilStateID>, MTLDepthStencilStateID>)
        ensures
            sends(
                step,
                self.address(),
                "newDepthStencilStateWithDescriptor:"@,
                seq![Argument::Object(descriptor.address())],
                false,
            ),
    {
        proof {
            reveal_strlit("newDepthStencilStateWithDescriptor:");
            reveal_with_fuel(markers, 36);
            family_is_in_the_initials("newDepthStencilStateWithDescriptor:"@);
        }
        let arguments = vec![Argument::Object(descriptor.as_ptr())];
        assert(arguments@ =~= seq![Argument::Object(descriptor.address())]);
        Call::to(self.as_ptr(), "newDepthStencilStateWithDescriptor:", arguments)
    }

    /// `recommendedMaxWorkingSetSize`: how many bytes the device handles well at a time.
    fn recommended_max_working_set_size(&self) -> (step: Step<Call<u64>, u64>)
        ensures
            sends(step, self.address(), "recommendedMaxWorkingSetSize"@, seq![], true),
    {
        proof {
            reveal_strlit("recommendedMaxWorkingSetSize");
            reveal_with_fuel(markers, 29);
            family_is_in_the_initials("recommendedMaxWorkingSetSize"@);
        }
        Call::to(self.as_ptr(), "recommendedMaxWorkingSetSize", Vec::new())
    }

    /// `supportsFeatureSet:`: whether the device has the abilities of `feature_set`.
    fn supports_feature_set(&self, feature_set: MTLFeatureSet) -> (step: Step<Call<bool>, bool>)
        ensures
            sends(
                step,
                self.address(),
                "supportsFeatureSet:"@,
                seq![Argument::Word(feature_set.code())],
                true,
            ),
    {
        proof {
            reveal_strlit("supportsFeatureSet:");
            reveal_with_fuel(markers, 20);
            family_is_in_the_initials("supportsFeatureSet:"@);
        }
        let arguments = vec![Argument::Word(feature_set.value())];
        assert(arguments@ =~= seq![Argument::Word(feature_set.code())]);
        Call::to(self.as_ptr(), "supportsFeatureSet:", arguments)
    }

    /// `supportsTextureSampleCount:`: whether textures can have `i` samples.
    fn supports_texture_sample_count(&self, i: usize) -> (step: Step<Call<bool>, bool>)
        ensures
            sends(
                step,
                self.address(),
                "supportsTextureSampleCount:"@,
                seq![Argument::Word(i)],
                true,
            ),
    {
        proof {
            reveal_strlit("supportsTextureSampleCount:");
            reveal_with_fuel(markers, 28);
            family_is_in_the_initials("supportsTextureSampleCount:"@);
        }
        let arguments = vec![Argument::Word(i)];
        assert(arguments@ =~= seq![Argument::Word(i)]);
        Call::to(self.as_ptr(), "supportsTextureSampleCount:", arguments)
    }

    /// `newLibraryWithFile:error:`: the shaders in the file at `filepath`, or the
    /// error that the runtime left in the slot.
    fn new_library_with_file<T: NSString>(
        &self,
        filepath: T,
    ) -> (step: Step<Call<Result<MTLLibraryID, NSErrorID>>, Result<MTLLibraryID, NSErrorID>>)
        ensures
            sends(
                step,
                self.address(),
                "newLibraryWithFile:error:"@,
                seq![Argument::Object(filepath.address()), Argument::ErrorSlot],
                false,
            ),
    {
        proof {
            reveal_strlit("newLibraryWithFile:error:");
            reveal_with_fuel(markers, 26);
            family_is_in_the_initials("newLibraryWithFile:error:"@);
        }
        let arguments = vec![Argument::Object(filepath.as_ptr()), Argument::ErrorSlot];
        assert(arguments@ =~= seq![Argument::Object(filepath.address()), Argument::ErrorSlot]);
        Call::to(self.as_ptr(), "newLibraryWithFile:error:", arguments)
    }

    /// `newRenderPipelineStateWithDescriptor:error:`: the pipeline that `descriptor`
    /// plans, made ready, or the error that the runtime left in the slot.
    fn new_render_pipeline_state_with_descriptor<T: MTLRenderPipelineDescriptor>(
        &self,
        descriptor: T,
    ) -> (step: Step<Call<Result<MTLRenderPipelineStateID, NSErrorID>>, Result<MTLRenderPipelineStateID, NSErrorID>>)
        ensures
            sends(
                step,
                self.address(),
                "newRenderPipelineStateWithDescriptor:error:"@,
                seq![Argument::Object(descriptor.address()), Argument::ErrorSlot],
                false,
            ),
    {
        proof {
            reveal_strlit("newRenderPipelineStateWithDescriptor:error:");
            reveal_with_fuel(markers, 44);
            family_is_in_the_initials("newRenderPipelineStateWithDescriptor:error:"@);
        }
        let arguments = vec![Argument::Object(descriptor.as_ptr()), Argument::ErrorSlot];
        assert(arguments@ =~= seq![Argument::Object(descriptor.address()), Argument::ErrorSlot]);
        Call::to(self.as_ptr(), "newRenderPipelineStateWithDescriptor:error:", arguments)
    }

    /// The sample counts from 1 to 127 that the device supports for its
    /// textures, in rising order.
    fn texture_sample_counts(&self) -> (step: Step<SampleCounts, Vec<usize>>)
        ensures
            SampleCounts::progress(step) == survey_opens(self.address()),
    {
        SampleCounts::begin(self.as_ptr())
    }
}

/// A graphics processor.
pub struct MTLDeviceID(usize);

impl MTLDeviceID {
    /// Stands for the object at `ptr` without taking a unit on it.
    pub fn from_ptr(ptr: usize) -> (id: Self)
        ensures
            id.address() == ptr,
    {
        MTLDeviceID(ptr)
    }

    /// Stands for no object.
    pub fn nil() -> (id: Self)
        ensures
            id.address() == 0,
    {
        MTLDeviceID(0)
    }

    /// Tells whether this stands for no object.
    pub fn is_nil(&self) -> (nil: bool)
        ensures
            nil == (self.address() == 0),
    {
        self.0 == 0
    }

    /// A second owner of the same object, and the retain that is due for it.
    pub fn clone(&self) -> (copy: (Self, Upkeep))
        ensures
            copy.0.address() == self.address(),
            copy.1 == retaining(self.address()),
    {
        MTLDeviceID(self.0).retain()
    }

    /// Ends this owner: the release that is due for it.
    pub fn drop(self) -> (upkeep: Upkeep)
        ensures
            upkeep == releasing(self.address()),
    {
        self.release()
    }
}

impl ObjectiveC for MTLDeviceID {
    closed spec fn address(&self) -> usize {
        self.0
    }

    fn as_ptr(&self) -> (ptr: usize) {
        self.0
    }

    fn from_ptr(ptr: usize) -> (id: Self) {
        MTLDeviceID(ptr)
    }
}

impl NSObject for MTLDeviceID {

}

impl MTLDevice for MTLDeviceID {

}

/// The survey of the sample counts that a device supports for its textures.
pub struct SampleCounts {
    pub device: usize,
    /// The sample count that the device has been asked about.
    pub asking: usize,
    /// The sample counts below `asking` that the device supports.
    pub found: Vec<usize>,
}

/// A survey, with what it has found as a sequence.
pub struct Survey {
    pub device: usize,
    pub asking: usize,
    pub found: Seq<usize>,
}

/// The largest sample count that a device is asked about.
pub const LARGEST_SAMPLE_COUNT: usize = 127;

/// The message that asks the device at `device` whether it supports
/// textures with `count` samples.
pub open spec fn sample_count_request(device: usize, count: usize) -> RequestView {
    RequestView::Send(
        message_to(
            device,
            "supportsTextureSampleCount:"@,
            seq![Argument::Word(count)],
            Kind::Flag,
        ),
    )
}

/// How a survey asks the device at `device` about `count` samples, with
/// `state` as where it then stands.
pub open spec fn asks_about_count(device: usize, count: usize, state: Survey) -> Outline<
    Survey,
    Seq<usize>,
> {
    if device == 0 {
        Outline::Failed { error: DispatchError::NilReceiver }
    } else {
        Outline::Ask {
            upkeep: Upkeep::Nothing,
            request: sample_count_request(device, count),
            state,
        }
    }
}

/// How the survey of the device at `device` opens: to nil nothing is sent,
/// any other device is asked about one sample.
pub open spec fn survey_opens(device: usize) -> Outline<Survey, Seq<usize>> {
    asks_about_count(device, 1, Survey { device, asking: 1, found: Seq::empty() })
}

/// How `survey` goes on after `outcome`.
///
/// The device is asked about each sample count from 1 to 127 in turn, and
/// those that it supports are kept in that order.
pub open spec fn survey_follows(
    survey: Survey,
    outcome: Result<Reply, DispatchError>,
) -> Outline<Survey, Seq<usize>> {
    match outcome {
        Err(error) => Outline::Failed { error },
        Ok(Reply::Flag(supported)) => {
            let found = if supported {
                survey.found.push(survey.asking)
            } else {
                survey.found
            };
            if survey.asking < LARGEST_SAMPLE_COUNT {
                asks_about_count(
                    survey.device,
                    (survey.asking + 1) as usize,
                    Survey { device: survey.device, asking: (survey.asking + 1) as usize, found },
                )
            } else {
                Outline::Done { upkeep: Upkeep::Nothing, value: found }
            }
        },
        Ok(_) => Outline::Failed { error: DispatchError::UnexpectedReply },
    }
}

impl SampleCounts {
    /// This survey, with what it has found as a sequence.
    pub open spec fn outline(self) -> Survey {
        Survey { device: self.device, asking: self.asking, found: self.found@ }
    }

    /// `step`, with what was found as a sequence.
    pub open spec fn progress(step: Step<SampleCounts, Vec<usize>>) -> Outline<Survey, Seq<usize>> {
        match step {
            Step::Ask { upkeep, request, machine } => Outline::Ask {
                upkeep,
                request: request@,
                state: machine.outline(),
            },
            Step::Done { upkeep, value } => Outline::Done { upkeep, value: value@ },
            Step::Failed { error } => Outline::Failed { error },
        }
    }

    /// Opens the survey of the device at `device`.
    pub fn begin(device: usize) -> (step: Step<SampleCounts, Vec<usize>>)
        ensures
            Self::progress(step) == survey_opens(device),
    {
        Self::ask_about(SampleCounts { device, asking: 1, found: Vec::new() })
    }

    fn ask_about(machine: SampleCounts) -> (step: Step<SampleCounts, Vec<usize>>)
        ensures
            Self::progress(step) == asks_about_count(
                machine.device,
                machine.asking,
                machine.outline(),
            ),
    {
        proof {
            reveal_strlit("supportsTextureSampleCount:");
            reveal_with_fuel(markers, 28);
        }
        let arguments = vec![Argument::Word(machine.asking)];
        assert(arguments@ =~= seq![Argument::Word(machine.asking)]);
        match dispatch(machine.device, "supportsTextureSampleCount:", arguments, Kind::Flag) {
            Ok(message) => Step::Ask {
                upkeep: Upkeep::Nothing,
                request: Request::Send(message),
                machine,
            },
            Err(error) => Step::Failed { error },
        }
    }
}

impl Conversation for SampleCounts {
    type Output = Vec<usize>;

    fn resume(self, outcome: Result<Reply, DispatchError>) -> (step: Step<SampleCounts, Vec<usize>>)
        ensures
            Self::progress(step) == survey_follows(self.outline(), outcome),
    {
        match outcome {
            Err(error) => Step::Failed { error },
            Ok(Reply::Flag(supported)) => {
                let SampleCounts { device, asking, found } = self;
                let mut found = found;
                if supported {
                    found.push(asking);
                }
                if asking < LARGEST_SAMPLE_COUNT {
                    Self::ask_about(SampleCounts { device, asking: asking + 1, found })
                } else {
                    Step::Done { upkeep: Upkeep::Nothing, value: found }
                }
            },
            Ok(_) => Step::Failed { error: DispatchError::UnexpectedReply },
        }
    }
}

/// The record of a survey that stands at `progress` and is given `answers`
/// one after the other.
pub open spec fn survey_runs(
    progress: Outline<Survey, Seq<usize>>,
    answers: Seq<Result<Reply, DispatchError>>,
) -> Record<Seq<usize>>
    decreases answers.len(),
{
    match progress {
        Outline::Ask { upkeep, request, state } => if answers.len() == 0 {
            Record { requests: seq![request], upkeep: seq![upkeep], value: None }
        } else {
            let rest = survey_runs(survey_follows(state, answers[0]), answers.drop_first());
            Record {
                requests: seq![request] + rest.requests,
                upkeep: seq![upkeep] + rest.upkeep,
                value: rest.value,
            }
        },
        Outline::Done { upkeep, value } => Record {
            requests: Seq::empty(),
            upkeep: seq![upkeep],
            value: Some(value),
        },
        Outline::Failed { error } => Record {
            requests: Seq::empty(),
            upkeep: Seq::empty(),
            value: None,
        },
    }
}

/// The sample counts up to `upto` that a device supports whose answer about
/// the count `n` is `flags[n - 1]`, in rising order.
pub open spec fn supported_counts(flags: Seq<bool>, upto: int) -> Seq<usize>
    decreases upto,
{
    if upto <= 0 {
        Seq::empty()
    } else if flags[upto - 1] {
        supported_counts(flags, upto - 1).push(upto as usize)
    } else {
        supported_counts(flags, upto - 1)
    }
}

/// The answers of a device whose answer about the count `n` is `flags[n - 1]`.
pub open spec fn flags_as_answers(flags: Seq<bool>) -> Seq<Result<Reply, DispatchError>> {
    flags.map_values(|flag: bool| Ok::<Reply, DispatchError>(Reply::Flag(flag)))
}

/// The requests about the `count` sample counts from `from` on, in rising
/// order.
pub open spec fn sample_count_requests(device: usize, from: int, count: nat) -> Seq<RequestView> {
    Seq::new(count, |i: int| sample_count_request(device, (from + i) as usize))
}

proof fn survey_runs_on(device: usize, flags: Seq<bool>, asking: usize)
    requires
        device != 0,
        flags.len() == LARGEST_SAMPLE_COUNT,
        1 <= asking <= LARGEST_SAMPLE_COUNT,
    ensures
        survey_runs(
            Outline::<Survey, Seq<usize>>::Ask {
                upkeep: Upkeep::Nothing,
                request: sample_count_request(device, asking),
                state: Survey { device, asking, found: supported_counts(flags, asking - 1) },
            },
            flags_as_answers(flags.subrange(asking - 1, LARGEST_SAMPLE_COUNT as int)),
        ) == (Record {
            requests: sample_count_requests(
                device,
                asking as int,
                (LARGEST_SAMPLE_COUNT - asking + 1) as nat,
            ),
            upkeep: Seq::new((LARGEST_SAMPLE_COUNT - asking + 2) as nat, |i: int| Upkeep::Nothing),
            value: Some(supported_counts(flags, LARGEST_SAMPLE_COUNT as int)),
        }),
    decreases LARGEST_SAMPLE_COUNT - asking,
{
    let last = LARGEST_SAMPLE_COUNT as int;
    let state = Survey { device, asking, found: supported_counts(flags, asking - 1) };
    let start = Outline::<Survey, Seq<usize>>::Ask {
        upkeep: Upkeep::Nothing,
        request: sample_count_request(device, asking),
        state,
    };
    let left = flags.subrange(asking - 1, last);
    let answers = flags_as_answers(left);
    let next = survey_follows(state, answers[0]);
    let record = survey_runs(start, answers);
    let tail = survey_runs(next, answers.drop_first());
    assert(answers[0] == Ok::<Reply, DispatchError>(Reply::Flag(flags[asking - 1])));
    assert(left.drop_first() =~= flags.subrange(asking as int, last));
    assert(answers.drop_first() =~= flags_as_answers(flags.subrange(asking as int, last)));
    assert(record.requests == seq![sample_count_request(device, asking)] + tail.requests);
    assert(record.upkeep == seq![Upkeep::Nothing] + tail.upkeep);
    let found = supported_counts(flags, asking as int);
    if asking < LARGEST_SAMPLE_COUNT {
        assert(next == Outline::<Survey, Seq<usize>>::Ask {
            upkeep: Upkeep::Nothing,
            request: sample_count_request(device, (asking + 1) as usize),
            state: Survey { device, asking: (asking + 1) as usize, found },
        });
        survey_runs_on(device, flags, (asking + 1) as usize);
        assert(record.requests =~= sample_count_requests(
            device,
            asking as int,
            (LARGEST_SAMPLE_COUNT - asking + 1) as nat,
        ));
        assert(record.upkeep =~= Seq::new(
            (LARGEST_SAMPLE_COUNT - asking + 2) as nat,
            |i: int| Upkeep::Nothing,
        ));
    } else {
        assert(next == Outline::<Survey, Seq<usize>>::Done { upkeep: Upkeep::Nothing, value: found });
        assert(answers.drop_first().len() == 0);
        assert(tail.requests =~= Seq::<RequestView>::empty());
        assert(record.requests =~= sample_count_requests(device, asking as int, 1));
        assert(record.upkeep =~= Seq::new(2, |i: int| Upkeep::Nothing));
    }
}

/// A survey asks the device about every sample count from 1 to 127 once and
/// in rising order, and what comes out are the counts that the device said
/// it supports, in rising order. Nothing falls due along the way.
pub proof fn survey_asks_about_each_count_once(device: usize, flags: Seq<bool>)
    requires
        device != 0,
        flags.len() == LARGEST_SAMPLE_COUNT,
    ensures
        survey_runs(survey_opens(device), flags_as_answers(flags)) == (Record {
            requests: sample_count_requests(device, 1, LARGEST_SAMPLE_COUNT as nat),
            upkeep: Seq::new((LARGEST_SAMPLE_COUNT + 1) as nat, |i: int| Upkeep::Nothing),
            value: Some(supported_counts(flags, LARGEST_SAMPLE_COUNT as int)),
        }),
{
    assert(flags.subrange(0, LARGEST_SAMPLE_COUNT as int) =~= flags);
    survey_runs_on(device, flags, 1);
}

/// `MTLCopyAllDevices`: every graphics processor of the machine. The array
/// comes with a unit of its own.
pub fn all_devices() -> (step: Step<Call<NSArrayID>, NSArrayID>)
    ensures
        invokes(step, "MTLCopyAllDevices"@, false),
{
    Call::invoke("MTLCopyAllDevices", false)
}

/// `MTLCreateSystemDefaultDevice`: the graphics processor that the system
/// prefers. The device is retained on arrival.
pub fn system_default_device() -> (step: Step<Call<MTLDeviceID>, MTLDeviceID>)
    ensures
        invokes(step, "MTLCreateSystemDefaultDevice"@, true),
{
    Call::invoke("MTLCreateSystemDefaultDevice", true)
}

} // verus!
