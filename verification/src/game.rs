//! The render engine's decisions: picking memory types, laying buffers
//! out, and driving the per-frame loop.

use vstd::prelude::*;

verus! {

/// The memory-property bit marking device-local memory.
pub const MEMORY_PROPERTY_DEVICE_LOCAL_BIT: u32 = 1;

/// The memory-property bit marking host-visible memory.
pub const MEMORY_PROPERTY_HOST_VISIBLE_BIT: u32 = 2;

/// One memory type a device advertises: its property bits and the heap
/// it draws from.
#[derive(Clone, Copy, PartialEq, Eq, Structural, Debug)]
pub struct MemoryType {
    pub property_flags: u32,
    pub heap_index: u32,
}

/// Whether memory type `i` of `types` is allowed by the resource's
/// `index_mask` and carries every bit of `flags`.
pub open spec fn memory_index_matches(
    types: Seq<MemoryType>,
    index_mask: u32,
    flags: u32,
    i: int,
) -> bool {
    &&& 0 <= i < types.len()
    &&& i < 32
    &&& (index_mask >> (i as u32)) & 1 == 1
    &&& types[i].property_flags & flags == flags
}

/// The lowest index at or after `i` that `memory_index_matches` accepts,
/// `None` where there is none.
pub open spec fn memory_find_from(
    types: Seq<MemoryType>,
    index_mask: u32,
    flags: u32,
    i: int,
) -> Option<u32>
    decreases types.len() - i,
{
    if i < 0 || i >= types.len() || i >= 32 {
        Option::None
    } else if (index_mask >> (i as u32)) & 1 == 1 && types[i].property_flags & flags == flags {
        Option::Some(i as u32)
    } else {
        memory_find_from(types, index_mask, flags, i + 1)
    }
}

/// The memory types a device advertises, at most 32 of them.
#[derive(Clone, PartialEq, Eq, Debug)]
pub struct MemoryProperties {
    pub types: Vec<MemoryType>,
}

impl MemoryProperties {
    /// A device advertises at most 32 memory types.
    pub open spec fn wf(self) -> bool {
        self.types@.len() <= 32
    }

    /// The lowest memory type index allowed by `index_mask` whose type
    /// carries every bit of `flags`, `None` where there is none.
    pub open spec fn find_spec(self, index_mask: u32, flags: u32) -> Option<u32> {
        memory_find_from(self.types@, index_mask, flags, 0)
    }

    /// The lowest memory type index allowed by `index_mask` whose type
    /// carries every bit of `flags`, `None` if and only if there is
    /// none.
    pub fn find_index(&self, index_mask: u32, flags: u32) -> (r: Option<u32>)
        requires
            self.wf(),
        ensures
            r == self.find_spec(index_mask, flags),
            r matches Some(i) ==> memory_index_matches(self.types@, index_mask, flags, i as int)
                && (forall|j: int|
                0 <= j < i ==> !memory_index_matches(self.types@, index_mask, flags, j)),
            r is None ==> forall|j: int|
                !memory_index_matches(self.types@, index_mask, flags, j),
    {
        let n = self.types.len();
        let mut i: usize = 0;
        while i < n
            invariant
                n == self.types@.len() <= 32,
                i <= n,
                self.find_spec(index_mask, flags) == memory_find_from(
                    self.types@,
                    index_mask,
                    flags,
                    i as int,
                ),
                forall|j: int| 0 <= j < i ==> !memory_index_matches(
                    self.types@,
                    index_mask,
                    flags,
                    j,
                ),
            decreases n - i,
        {
            let allowed = (index_mask >> (i as u32)) & 1 == 1;
            let has_flags = self.types[i].property_flags & flags == flags;
            if allowed && has_flags {
                return Some(i as u32);
            }
            i = i + 1;
        }
        None
    }

    /// The lowest allowed device-local memory type index.
    pub fn find_device_local_index(&self, index_mask: u32) -> (r: Option<u32>)
        requires
            self.wf(),
        ensures
            r == self.find_spec(index_mask, MEMORY_PROPERTY_DEVICE_LOCAL_BIT),
            r matches Some(i) ==> memory_index_matches(
                self.types@,
                index_mask,
                MEMORY_PROPERTY_DEVICE_LOCAL_BIT,
                i as int,
            ) && (forall|j: int|
                0 <= j < i ==> !memory_index_matches(
                    self.types@,
                    index_mask,
                    MEMORY_PROPERTY_DEVICE_LOCAL_BIT,
                    j,
                )),
            r is None ==> forall|j: int|
                !memory_index_matches(self.types@, index_mask, MEMORY_PROPERTY_DEVICE_LOCAL_BIT, j),
    {
        self.find_index(index_mask, MEMORY_PROPERTY_DEVICE_LOCAL_BIT)
    }

    /// The lowest allowed host-visible memory type index.
    pub fn find_host_visible_index(&self, index_mask: u32) -> (r: Option<u32>)
        requires
            self.wf(),
        ensures
            r == self.find_spec(index_mask, MEMORY_PROPERTY_HOST_VISIBLE_BIT),
            r matches Some(i) ==> memory_index_matches(
                self.types@,
                index_mask,
                MEMORY_PROPERTY_HOST_VISIBLE_BIT,
                i as int,
            ) && (forall|j: int|
                0 <= j < i ==> !memory_index_matches(
                    self.types@,
                    index_mask,
                    MEMORY_PROPERTY_HOST_VISIBLE_BIT,
                    j,
                )),
            r is None ==> forall|j: int|
                !memory_index_matches(self.types@, index_mask, MEMORY_PROPERTY_HOST_VISIBLE_BIT, j),
    {
        self.find_index(index_mask, MEMORY_PROPERTY_HOST_VISIBLE_BIT)
    }
}

/// The engine state the decisions here read: the queue family rendering
/// runs on and the device's memory types.
pub struct Engine {
    pub graphics_queue_family_index: u32,
    pub memory_properties: MemoryProperties,
}

impl Engine {
    /// The lowest device-local memory type index allowed by
    /// `index_mask`.
    pub fn find_matching_device_local_memory_index(&self, index_mask: u32) -> (r: Option<u32>)
        requires
            self.memory_properties.wf(),
        ensures
            r == self.memory_properties.find_spec(index_mask, MEMORY_PROPERTY_DEVICE_LOCAL_BIT),
    {
        self.memory_properties.find_device_local_index(index_mask)
    }

    /// The lowest host-visible memory type index allowed by
    /// `index_mask`.
    pub fn find_matching_host_visible_memory_index(&self, index_mask: u32) -> (r: Option<u32>)
        requires
            self.memory_properties.wf(),
        ensures
            r == self.memory_properties.find_spec(index_mask, MEMORY_PROPERTY_HOST_VISIBLE_BIT),
    {
        self.memory_properties.find_host_visible_index(index_mask)
    }
}

/// A number whose bits form no carry with its predecessor is a power of
/// two; this gives its exponent.
proof fn lemma_power_of_two_exponent(a: u64) -> (n: nat)
    requires
        a > 0,
        a & ((a - 1) as u64) == 0,
    ensures
        n < 64,
        a == vstd::arithmetic::power2::pow2(n),
    decreases a,
{
    if a == 1 {
        vstd::arithmetic::power2::lemma2_to64();
        0
    } else {
        assert(a % 2 == 0 && a / 2 > 0 && (a / 2) & (((a / 2) - 1) as u64) == 0) by (bit_vector)
            requires
                a > 1,
                a & ((a - 1) as u64) == 0,
        ;
        let n1 = lemma_power_of_two_exponent(a / 2);
        vstd::arithmetic::power2::lemma_pow2_unfold(n1 + 1);
        assert(n1 + 1 < 64) by {
            if n1 + 1 >= 64 {
                vstd::arithmetic::power2::lemma2_to64_rest();
            }
        };
        n1 + 1
    }
}

/// Rounds `size` up to the next multiple of `alignment`, which must be a
/// power of two. This is how the uniform buffer's offset inside the
/// shared allocation is computed.
pub fn align_up(size: u64, alignment: u64) -> (r: u64)
    requires
        alignment > 0,
        alignment & ((alignment - 1) as u64) == 0,
        size + alignment - 1 <= u64::MAX,
    ensures
        r % alignment == 0,
        size <= r,
        r < size + alignment,
{
    let mask = alignment - 1;
    let sum = size + mask;
    let r = sum & !mask;
    proof {
        assert(size <= r && r <= sum) by (bit_vector)
            requires
                alignment > 0,
                alignment & mask == 0u64,
                mask == (alignment - 1) as u64,
                size + mask <= u64::MAX,
                sum == (size + mask) as u64,
                r == sum & !mask,
        ;
        assert(r & mask == 0u64) by (bit_vector)
            requires
                r == sum & !mask,
        ;
        let n = lemma_power_of_two_exponent(alignment);
        vstd::bits::lemma_u64_low_bits_mask_is_mod(r, n);
        assert(vstd::bits::low_bits_mask(n) as u64 == mask);
        assert(r % alignment == 0);
    }
    r
}

/// The events the render loop reacts to.
pub enum EngineEvents {
    Shutdown,
}

/// What the render loop is told on each turn: an engine event, or a
/// frame request together with whether the fence of the last submitted
/// frame has signalled.
pub enum EngineLoopEvent {
    Engine(EngineEvents),
    FrameRequested { fence_signaled: bool },
}

/// The loop's own state between turns.
#[derive(Clone, Copy, PartialEq, Eq, Structural, Debug)]
pub struct FrameLoopState {
    /// Work for a frame was submitted and its fence not yet waited out.
    pub last_render_occured: bool,
    /// Presentation failed as out of date; frames are skipped from then
    /// on.
    pub presentation_suspending: bool,
}

/// What the loop does on one turn.
#[derive(Clone, Copy, PartialEq, Eq, Structural, Debug)]
pub enum FrameStep {
    /// Leave the loop.
    Exit,
    /// Skip this frame: the previous one has not finished rendering.
    SkipUnfinished,
    /// Skip this frame: presentation is suspended.
    SkipSuspended,
    /// Reset the fence and record, submit and present this frame.
    Render,
}

impl FrameLoopState {
    /// The state the loop starts in.
    pub fn new() -> (r: FrameLoopState)
        ensures
            !r.last_render_occured,
            !r.presentation_suspending,
    {
        FrameLoopState { last_render_occured: false, presentation_suspending: false }
    }

    /// One turn of the loop: shutdown leaves it; a frame request is
    /// skipped while the previous frame is unfinished or presentation is
    /// suspended, and otherwise starts a render, resetting the fence.
    pub fn step(&mut self, event: EngineLoopEvent) -> (r: FrameStep)
        ensures
            event is Engine ==> r == FrameStep::Exit && *final(self) == *old(self),
            event matches EngineLoopEvent::FrameRequested { fence_signaled } ==> {
                if old(self).last_render_occured && !fence_signaled {
                    r == FrameStep::SkipUnfinished && *final(self) == *old(self)
                } else if old(self).presentation_suspending {
                    r == FrameStep::SkipSuspended && *final(self) == *old(self)
                } else {
                    r == FrameStep::Render && *final(self) == (FrameLoopState {
                        last_render_occured: false,
                        ..*old(self)
                    })
                }
            },
    {
        match event {
            EngineLoopEvent::Engine(EngineEvents::Shutdown) => FrameStep::Exit,
            EngineLoopEvent::FrameRequested { fence_signaled } => {
                if self.last_render_occured && !fence_signaled {
                    FrameStep::SkipUnfinished
                } else if self.presentation_suspending {
                    FrameStep::SkipSuspended
                } else {
                    self.last_render_occured = false;
                    FrameStep::Render
                }
            },
        }
    }

    /// How presenting the rendered frame went.
    pub fn presented(&mut self, outcome: PresentOutcome) -> (r: Result<(), i32>)
        ensures
            outcome matches PresentOutcome::Failure(e) ==> r == Result::<(), i32>::Err(e)
                && *final(self) == *old(self),
            outcome is Success ==> r is Ok && *final(self) == (FrameLoopState {
                last_render_occured: true,
                ..*old(self)
            }),
            outcome is OutOfDate ==> r is Ok && *final(self) == (FrameLoopState {
                last_render_occured: true,
                presentation_suspending: true,
            }),
    {
        match outcome {
            PresentOutcome::Failure(e) => Err(e),
            PresentOutcome::Success => {
                self.last_render_occured = true;
                Ok(())
            },
            PresentOutcome::OutOfDate => {
                self.presentation_suspending = true;
                self.last_render_occured = true;
                Ok(())
            },
        }
    }

    /// Whether, on leaving the loop, the last frame's fence must still
    /// be waited out.
    pub fn must_wait_before_shutdown(&self) -> (r: bool)
        ensures
            r == self.last_render_occured,
    {
        self.last_render_occured
    }
}

/// How presenting a frame went: accepted, refused as out of date (the
/// loop then suspends presentation), or failed with another error code
/// (the caller stops on it).
#[derive(Clone, Copy, PartialEq, Eq, Structural, Debug)]
pub enum PresentOutcome {
    Success,
    OutOfDate,
    Failure(i32),
}

} // verus!
