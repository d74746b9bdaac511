//! Device and surface bootstrap decisions.
//!
//! Selecting a physical adapter, sizing the initial swapchain, choosing
//! a presentation mode, and picking a memory type are decisions over
//! plain values the driver reports; they run exactly once at startup.
//! The driver performs the enumeration and creation calls and hands the
//! results here.

use vstd::prelude::*;
use vstd::string::StringExecFns;
use crate::error::{GameError, GameResult};

verus! {

/// What kind of physical adapter a device is.
#[derive(Debug, Clone, Copy, PartialEq, Eq, Structural)]
pub enum AdapterKind {
    /// A discrete GPU.
    Discrete,
    /// A GPU integrated with the CPU.
    Integrated,
    /// Anything else (software, virtual, unknown).
    Other,
}

/// What the driver reports about one physical adapter.
#[derive(Debug, Clone, Copy, PartialEq, Eq, Structural)]
pub struct AdapterInfo {
    /// The adapter kind, used for preference ordering.
    pub kind: AdapterKind,
    /// Whether some queue family supports graphics work.
    pub supports_graphics: bool,
    /// Whether that queue family can present to the window's surface.
    pub supports_present: bool,
}

/// The surface properties the swapchain is sized from.
#[derive(Debug, Clone, Copy, PartialEq, Eq, Structural)]
pub struct SurfaceCaps {
    /// The fewest images a swapchain on this surface may have.
    pub min_image_count: u32,
    /// The most images allowed; 0 means no upper bound.
    pub max_image_count: u32,
    /// The surface's current width in pixels.
    pub current_width: u32,
    /// The surface's current height in pixels.
    pub current_height: u32,
}

/// How presentation requests are scheduled.
#[derive(Debug, Clone, Copy, PartialEq, Eq, Structural)]
pub enum PresentMode {
    /// Present immediately; may tear.
    Immediate,
    /// Replace the pending image; no tearing, no throttling.
    Mailbox,
    /// Queue presentations to the vertical sync; always available.
    Fifo,
}

/// An adapter is usable when one of its queue families supports both
/// graphics work and presentation to the surface.
pub open spec fn eligible(a: AdapterInfo) -> bool {
    a.supports_graphics && a.supports_present
}

/// Preference order: discrete before integrated before anything else.
pub open spec fn adapter_rank(k: AdapterKind) -> int {
    match k {
        AdapterKind::Discrete => 0,
        AdapterKind::Integrated => 1,
        AdapterKind::Other => 2,
    }
}

/// Preference order, as executable code.
fn rank_of(k: AdapterKind) -> (r: u32)
    ensures
        r == adapter_rank(k),
{
    match k {
        AdapterKind::Discrete => 0,
        AdapterKind::Integrated => 1,
        AdapterKind::Other => 2,
    }
}

/// Selects the physical adapter to create the device on: the first
/// eligible adapter of the most preferred kind present.  Fails with a
/// `DeviceInitError` exactly when no adapter exposes a queue family
/// with both graphics and presentation support.
pub fn select_adapter(adapters: &Vec<AdapterInfo>) -> (r: GameResult<usize>)
    ensures
        match r {
            Ok(i) => {
                &&& i < adapters@.len()
                &&& eligible(adapters@[i as int])
                &&& forall|j: int|
                    0 <= j < adapters@.len() && eligible(#[trigger] adapters@[j])
                        ==> adapter_rank(adapters@[i as int].kind) <= adapter_rank(adapters@[j].kind)
                &&& forall|j: int|
                    0 <= j < i && eligible(#[trigger] adapters@[j])
                        ==> adapter_rank(adapters@[i as int].kind) < adapter_rank(adapters@[j].kind)
            },
            Err(e) => {
                &&& forall|j: int| 0 <= j < adapters@.len() ==> !eligible(#[trigger] adapters@[j])
                &&& e is DeviceInitError
            },
        },
{
    let mut best: Option<usize> = None;
    let n = adapters.len();
    for i in 0..n
        invariant
            n == adapters@.len(),
            match best {
                Some(b) => {
                    &&& b < i <= n
                    &&& eligible(adapters@[b as int])
                    &&& forall|j: int|
                        0 <= j < i && eligible(#[trigger] adapters@[j])
                            ==> adapter_rank(adapters@[b as int].kind) <= adapter_rank(
                            adapters@[j].kind,
                        )
                    &&& forall|j: int|
                        0 <= j < b && eligible(#[trigger] adapters@[j])
                            ==> adapter_rank(adapters@[b as int].kind) < adapter_rank(
                            adapters@[j].kind,
                        )
                },
                None => forall|j: int| 0 <= j < i ==> !eligible(#[trigger] adapters@[j]),
            },
    {
        let a = adapters[i];
        if a.supports_graphics && a.supports_present {
            match best {
                None => {
                    best = Some(i);
                },
                Some(b) => {
                    if rank_of(a.kind) < rank_of(adapters[b].kind) {
                        best = Some(i);
                    }
                },
            }
        }
    }
    match best {
        Some(b) => Ok(b),
        None => Err(
            GameError::DeviceInitError(
                String::from_str("no adapter has a queue family with graphics and present support"),
            ),
        ),
    }
}

/// The swapchain image count chosen from the surface bounds: one more
/// than the minimum for pipelining, capped by the maximum when the
/// surface has one.
pub open spec fn image_count_spec(min: u32, max: u32) -> int {
    if max > 0 && min + 1 > max {
        max as int
    } else {
        min as int + 1
    }
}

/// Chooses how many images the swapchain gets, from the surface's
/// bounds.  Fails with a `DeviceInitError` exactly when the surface
/// cannot back at least double buffering.
pub fn choose_image_count(caps: &SurfaceCaps) -> (r: GameResult<usize>)
    requires
        caps.min_image_count >= 1,
        caps.min_image_count < u32::MAX,
        caps.max_image_count == 0 || caps.max_image_count >= caps.min_image_count,
    ensures
        match r {
            Ok(n) => n == image_count_spec(caps.min_image_count, caps.max_image_count) && n >= 2,
            Err(e) => image_count_spec(caps.min_image_count, caps.max_image_count) < 2 && e
                is DeviceInitError,
        },
{
    let min = caps.min_image_count;
    let max = caps.max_image_count;
    let count: u32 = if max > 0 && min >= max {
        max
    } else {
        min + 1
    };
    proof {
        assert(min >= max ==> min + 1 > max);
        assert(min < max ==> min + 1 <= max);
    }
    if count < 2 {
        Err(
            GameError::DeviceInitError(
                String::from_str("the surface cannot back a double-buffered swapchain"),
            ),
        )
    } else {
        Ok(count as usize)
    }
}

/// Whether a sequence of present modes offers the given mode.
pub open spec fn offers(modes: Seq<PresentMode>, m: PresentMode) -> bool {
    exists|i: int| 0 <= i < modes.len() && modes[i] == m
}

/// Whether a present mode is in the list, as executable code.
fn mode_available(modes: &Vec<PresentMode>, m: PresentMode) -> (r: bool)
    ensures
        r == offers(modes@, m),
{
    let n = modes.len();
    for i in 0..n
        invariant
            n == modes@.len(),
            forall|j: int| 0 <= j < i ==> modes@[j] != m,
    {
        if modes[i] == m {
            return true;
        }
    }
    false
}

/// Chooses the presentation mode: with vsync requested, FIFO (and a
/// surface that does not offer it is a bootstrap failure); without it,
/// mailbox when available, else immediate.
pub fn choose_present_mode(vsync: bool, modes: &Vec<PresentMode>) -> (r: GameResult<PresentMode>)
    ensures
        match r {
            Ok(m) => if vsync {
                m == PresentMode::Fifo && offers(modes@, PresentMode::Fifo)
            } else {
                if offers(modes@, PresentMode::Mailbox) {
                    m == PresentMode::Mailbox
                } else {
                    m == PresentMode::Immediate
                }
            },
            Err(e) => vsync && !offers(modes@, PresentMode::Fifo) && e is DeviceInitError,
        },
{
    if vsync {
        if mode_available(modes, PresentMode::Fifo) {
            Ok(PresentMode::Fifo)
        } else {
            Err(
                GameError::DeviceInitError(
                    String::from_str("the surface does not offer FIFO presentation"),
                ),
            )
        }
    } else {
        if mode_available(modes, PresentMode::Mailbox) {
            Ok(PresentMode::Mailbox)
        } else {
            Ok(PresentMode::Immediate)
        }
    }
}

/// Whether memory type `i` can back an allocation restricted to
/// `memory_type_bits` and needing every flag in `required`.
pub open spec fn mem_type_suitable(
    memory_type_bits: u32,
    flags: Seq<u32>,
    required: u32,
    i: int,
) -> bool {
    &&& (memory_type_bits >> (i as u32)) & 1 == 1
    &&& flags[i] & required == required
}

/// Finds the first device memory type that the resource's requirements
/// allow and that has all the required property flags.  Fails exactly
/// when no type qualifies.
pub fn find_memory_type_index(
    memory_type_bits: u32,
    type_flags: &Vec<u32>,
    required: u32,
) -> (r: GameResult<u32>)
    requires
        type_flags@.len() <= 32,
    ensures
        match r {
            Ok(i) => {
                &&& i < type_flags@.len()
                &&& mem_type_suitable(memory_type_bits, type_flags@, required, i as int)
                &&& forall|j: int|
                    0 <= j < i ==> !mem_type_suitable(memory_type_bits, type_flags@, required, j)
            },
            Err(e) => {
                &&& forall|j: int|
                    0 <= j < type_flags@.len() ==> !mem_type_suitable(
                        memory_type_bits,
                        type_flags@,
                        required,
                        j,
                    )
                &&& e is RenderError
            },
        },
{
    let n = type_flags.len();
    for i in 0..n
        invariant
            n == type_flags@.len() <= 32,
            forall|j: int| 0 <= j < i ==> !mem_type_suitable(memory_type_bits, type_flags@, required, j),
    {
        let bit_set = (memory_type_bits >> (i as u32)) & 1 == 1;
        let flags_ok = type_flags[i] & required == required;
        if bit_set && flags_ok {
            return Ok(i as u32);
        }
    }
    Err(
        GameError::RenderError(
            String::from_str("no device memory type satisfies the requirements"),
        ),
    )
}

} // verus!
