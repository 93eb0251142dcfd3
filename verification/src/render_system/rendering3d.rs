use vstd::prelude::*;

verus! {

/// The kind of a graphics device.
#[derive(Clone, Copy, Debug, PartialEq, Eq, Structural)]
pub enum PhysicalDeviceType {
    DiscreteGpu,
    IntegratedGpu,
    VirtualGpu,
    Cpu,
    Other,
    /// A kind that the graphics API has added since.
    Unknown,
}

impl PhysicalDeviceType {
    /// How much the kind is to be avoided: kinds that are likely to be
    /// faster score lower.
    pub open spec fn score_spec(self) -> u32 {
        match self {
            PhysicalDeviceType::DiscreteGpu => 0,
            PhysicalDeviceType::IntegratedGpu => 1,
            PhysicalDeviceType::VirtualGpu => 2,
            PhysicalDeviceType::Cpu => 3,
            PhysicalDeviceType::Other => 4,
            PhysicalDeviceType::Unknown => 5,
        }
    }

    /// How much the kind is to be avoided.
    pub fn score(self) -> (score: u32)
        ensures
            score == self.score_spec(),
    {
        match self {
            PhysicalDeviceType::DiscreteGpu => 0,
            PhysicalDeviceType::IntegratedGpu => 1,
            PhysicalDeviceType::VirtualGpu => 2,
            PhysicalDeviceType::Cpu => 3,
            PhysicalDeviceType::Other => 4,
            PhysicalDeviceType::Unknown => 5,
        }
    }
}

/// What one queue family of a device can do.
#[derive(Clone, Copy, Debug, PartialEq, Eq, Structural)]
pub struct QueueFamily {
    /// It executes draw commands.
    pub graphics: bool,
    /// It presents images to the surface that is to be drawn on.
    pub presents: bool,
}

impl QueueFamily {
    /// The family can both draw and present.
    pub open spec fn suits(self) -> bool {
        self.graphics && self.presents
    }
}

/// A graphics device, as far as the choice among devices looks at it.
pub struct PhysicalDevice {
    /// It supports every extension that the engine needs.
    pub supports_extensions: bool,
    pub device_type: PhysicalDeviceType,
    pub queue_families: Vec<QueueFamily>,
}

impl PhysicalDevice {
    /// `family` is the first queue family of the device that can both draw
    /// and present.
    pub open spec fn first_suiting(self, family: int) -> bool {
        &&& 0 <= family < self.queue_families@.len()
        &&& self.queue_families@[family].suits()
        &&& forall|j: int| 0 <= j < family ==> !self.queue_families@[j].suits()
    }

    /// The device can be used: it supports the extensions and has a queue
    /// family that can both draw and present.
    pub open spec fn suits(self) -> bool {
        self.supports_extensions && exists|family: int|
            0 <= family < self.queue_families@.len() && self.queue_families@[family].suits()
    }

    /// The first queue family that can both draw and present, if there is
    /// one.
    pub fn queue_family(&self) -> (family: Option<usize>)
        ensures
            match family {
                Some(family) => self.first_suiting(family as int),
                None => forall|j: int|
                    0 <= j < self.queue_families@.len() ==> !self.queue_families@[j].suits(),
            },
    {
        for i in 0..self.queue_families.len()
            invariant
                forall|j: int| 0 <= j < i ==> !self.queue_families@[j].suits(),
        {
            if self.queue_families[i].graphics && self.queue_families[i].presents {
                return Some(i);
            }
        }
        None
    }
}

/// `device` is the choice among `devices`: it can be used, no device that
/// can be used scores lower, and of those that score the same it comes first.
pub open spec fn is_best(devices: Seq<PhysicalDevice>, device: int) -> bool {
    &&& 0 <= device < devices.len()
    &&& devices[device].suits()
    &&& forall|other: int|
        0 <= other < devices.len() && devices[other].suits()
            ==> devices[device].device_type.score_spec()
            <= devices[other].device_type.score_spec()
    &&& forall|other: int|
        0 <= other < device && devices[other].suits() ==> devices[device].device_type.score_spec()
            < devices[other].device_type.score_spec()
}

/// Chooses the device to render with, and the queue family to draw and
/// present with: the first of the devices with the lowest score among those
/// that can be used, and its first queue family that can do both. `None` if
/// no device can be used.
pub fn get_device(devices: &Vec<PhysicalDevice>) -> (choice: Option<(usize, usize)>)
    ensures
        match choice {
            Some((device, family)) => is_best(devices@, device as int)
                && devices@[device as int].first_suiting(family as int),
            None => forall|i: int| 0 <= i < devices@.len() ==> !devices@[i].suits(),
        },
{
    let mut choice: Option<(usize, usize)> = None;
    for i in 0..devices.len()
        invariant
            match choice {
                Some((device, family)) => device < i && is_best(devices@.take(i as int), device as int)
                    && devices@[device as int].first_suiting(family as int),
                None => forall|j: int| 0 <= j < i ==> !devices@[j].suits(),
            },
    {
        let ghost before = choice;
        if devices[i].supports_extensions {
            if let Some(family) = devices[i].queue_family() {
                let better = match choice {
                    Some((device, _)) => devices[i].device_type.score()
                        < devices[device].device_type.score(),
                    None => true,
                };
                if better {
                    choice = Some((i, family));
                }
            }
        }
        proof {
            let seen = devices@.take(i as int);
            let now = devices@.take(i + 1);
            assert(forall|j: int| 0 <= j < i ==> seen[j] == now[j]);
            assert(now[i as int] == devices@[i as int]);
            match choice {
                Some((device, _)) => {
                    assert(is_best(now, device as int));
                },
                None => {},
            }
        }
    }
    assert(devices@.take(devices.len() as int) =~= devices@);
    choice
}

/// What the engine learns when it asks the swapchain for the next image.
#[derive(Clone, Copy, Debug, PartialEq, Eq, Structural)]
pub enum AcquireOutcome {
    /// An image is there to draw on. `suboptimal` says that the swapchain
    /// no longer fits the window well.
    Ready { suboptimal: bool },
    /// The swapchain no longer fits the window at all.
    OutOfDate,
    /// Any other failure.
    Failed,
}

/// What the engine learns when it submits a frame.
#[derive(Clone, Copy, Debug, PartialEq, Eq, Structural)]
pub enum FlushOutcome {
    Flushed,
    /// The swapchain no longer fits the window.
    OutOfDate,
    /// Any other failure.
    Failed,
}

/// How a frame starts.
#[derive(Clone, Copy, Debug, PartialEq, Eq, Structural)]
pub enum FrameStart {
    /// The window has no area: nothing is drawn.
    Skip,
    /// Everything that depends on the window's size is rebuilt, then an
    /// image is asked for.
    Rebuild,
    /// An image is asked for.
    Acquire,
}

/// How a frame goes on from where the engine stands.
#[derive(Clone, Copy, Debug, PartialEq, Eq, Structural)]
pub enum FrameStep {
    /// The frame goes on.
    Proceed,
    /// The frame is given up; the next one starts afresh.
    Skip,
    /// The device is lost: the process ends.
    Fatal,
}

/// Whether what depends on the window's size is stale.
#[derive(Clone, Copy, Debug, PartialEq, Eq, Structural)]
pub struct Renderer {
    pub wdd_needs_rebuild: bool,
}

impl Renderer {
    /// How a frame on a window of `extent` starts, given that a rebuild is
    /// or is not due.
    pub open spec fn start(self, extent: [u32; 2]) -> FrameStart {
        if extent[0] == 0 || extent[1] == 0 {
            FrameStart::Skip
        } else if self.wdd_needs_rebuild {
            FrameStart::Rebuild
        } else {
            FrameStart::Acquire
        }
    }

    /// A renderer with nothing stale.
    pub fn new() -> (renderer: Renderer)
        ensures
            !renderer.wdd_needs_rebuild,
    {
        Renderer { wdd_needs_rebuild: false }
    }

    /// Starts a frame on a window of `extent`. A window without area gets
    /// no frame, and what is stale stays stale. Else a rebuild that is due
    /// is done now.
    pub fn render(&mut self, extent: [u32; 2]) -> (start: FrameStart)
        ensures
            start == old(self).start(extent),
            final(self).wdd_needs_rebuild == (start == FrameStart::Skip && old(
                self,
            ).wdd_needs_rebuild),
    {
        if extent[0] == 0 || extent[1] == 0 {
            return FrameStart::Skip;
        }
        if self.wdd_needs_rebuild {
            self.wdd_needs_rebuild = false;
            FrameStart::Rebuild
        } else {
            FrameStart::Acquire
        }
    }

    /// Takes in how asking for an image went. A swapchain that is out of
    /// date costs the frame and is rebuilt before the next one; one that
    /// fits badly is drawn on and rebuilt before the next frame; any other
    /// failure is fatal.
    pub fn acquired(&mut self, outcome: AcquireOutcome) -> (step: FrameStep)
        ensures
            step == match outcome {
                AcquireOutcome::Ready { suboptimal } => FrameStep::Proceed,
                AcquireOutcome::OutOfDate => FrameStep::Skip,
                AcquireOutcome::Failed => FrameStep::Fatal,
            },
            final(self).wdd_needs_rebuild == match outcome {
                AcquireOutcome::Ready { suboptimal } => old(self).wdd_needs_rebuild || suboptimal,
                AcquireOutcome::OutOfDate => true,
                AcquireOutcome::Failed => old(self).wdd_needs_rebuild,
            },
    {
        match outcome {
            AcquireOutcome::Ready { suboptimal } => {
                if suboptimal {
                    self.wdd_needs_rebuild = true;
                }
                FrameStep::Proceed
            },
            AcquireOutcome::OutOfDate => {
                self.wdd_needs_rebuild = true;
                FrameStep::Skip
            },
            AcquireOutcome::Failed => FrameStep::Fatal,
        }
    }

    /// Takes in how submitting the frame went. A swapchain that is out of
    /// date costs the frame and is rebuilt before the next one; any other
    /// failure is fatal.
    pub fn flushed(&mut self, outcome: FlushOutcome) -> (step: FrameStep)
        ensures
            step == match outcome {
                FlushOutcome::Flushed => FrameStep::Proceed,
                FlushOutcome::OutOfDate => FrameStep::Skip,
                FlushOutcome::Failed => FrameStep::Fatal,
            },
            final(self).wdd_needs_rebuild == (old(self).wdd_needs_rebuild || outcome
                == FlushOutcome::OutOfDate),
    {
        match outcome {
            FlushOutcome::Flushed => FrameStep::Proceed,
            FlushOutcome::OutOfDate => {
                self.wdd_needs_rebuild = true;
                FrameStep::Skip
            },
            FlushOutcome::Failed => FrameStep::Fatal,
        }
    }
}

} // verus!
