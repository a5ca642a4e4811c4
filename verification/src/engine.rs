//! The engine's swapchains, and the handles by which they are referred to.

use crate::error::InvalidHandleError;
use crate::handle::Handle;
use crate::swapchain::{Swapchain, SwapchainCreateInfo, SwapchainError};
use vstd::prelude::*;

verus! {

/// A handle to a swapchain of the engine.
pub type SwapchainHandle = Handle<Swapchain>;

/// What the engine holds, as a mathematical value.
pub struct EngineState {
    /// The swapchains, each at the place that its handle names.
    pub swapchains: Seq<Swapchain>,
    /// The id of the handle of the current swapchain.
    pub current_swapchain: usize,
}

impl EngineState {
    /// Whether a handle with the given id refers to a swapchain of the
    /// engine.
    pub open spec fn refers(self, id: usize) -> bool {
        id != usize::MAX && id < self.swapchains.len()
    }
}

/// The engine is the main entry point into the API.
///
/// The engine holds and owns most of the resources used by the various
/// systems, with resources being passed around as handles to reduce issues
/// with ownership.
pub struct Engine {
    /// Resources that are owned by the engine.
    swapchains: Vec<Swapchain>,
    current_swapchain: SwapchainHandle,
}

impl View for Engine {
    type V = EngineState;

    closed spec fn view(&self) -> EngineState {
        EngineState {
            swapchains: self.swapchains@,
            current_swapchain: self.current_swapchain@,
        }
    }
}

impl Engine {
    /// Create a new engine instance: one without swapchains, whose current
    /// swapchain is the invalid handle.
    pub fn new() -> (engine: Self)
        ensures
            engine@.swapchains == Seq::<Swapchain>::empty(),
            engine@.current_swapchain == usize::MAX,
    {
        Self { swapchains: Vec::new(), current_swapchain: Handle::new(usize::MAX) }
    }

    /// Takes up the outcome of creating the swapchain that `info`
    /// describes, and hands out a handle to it.
    ///
    /// Multiple swapchains can be created and rendered to by a single
    /// driver instance. A swapchain that the driver rejected is not taken
    /// up: the engine stays as it was.
    pub fn create_swapchain(&mut self, info: &SwapchainCreateInfo, created: Result<u64, i32>) -> (
        handle: Result<SwapchainHandle, SwapchainError>)
        ensures
            final(self)@.current_swapchain == old(self)@.current_swapchain,
            match created {
                Ok(instance) => {
                    &&& handle matches Ok(h)
                    &&& h@ == old(self)@.swapchains.len()
                    &&& h.valid()
                    &&& final(self)@.refers(h@)
                    &&& final(self)@.swapchains == old(self)@.swapchains.push(
                        Swapchain {
                            instance,
                            extents: info.image_extent,
                            surface_format: crate::swapchain::SurfaceFormat {
                                format: info.image_format,
                                color_space: info.image_color_space,
                            },
                        },
                    )
                },
                Err(code) => {
                    &&& handle matches Err(e)
                    &&& e == SwapchainError::SwapchainCreation(code)
                    &&& final(self)@ == old(self)@
                },
            },
    {
        let swapchain = match Swapchain::new(info, created) {
            Ok(swapchain) => swapchain,
            Err(e) => {
                return Err(e);
            },
        };
        let handle = SwapchainHandle::new(self.swapchains.len());
        self.swapchains.push(swapchain);
        // The new length is a length still, so the place of the swapchain is below it.
        assert(self.swapchains@.len() == self.swapchains.len());
        Ok(handle)
    }

    /// Set the current swapchain.
    ///
    /// All render commands will be rendered to this swapchain. The handle is
    /// taken as it is; whether it refers to a swapchain shows when the
    /// current swapchain is asked for.
    #[inline]
    pub fn set_current_swapchain(&mut self, handle: SwapchainHandle)
        ensures
            final(self)@.current_swapchain == handle@,
            final(self)@.swapchains == old(self)@.swapchains,
    {
        self.current_swapchain = handle;
    }

    /// The swapchain that a handle refers to.
    ///
    /// The invalid handle and a handle whose id lies beyond the swapchains
    /// of the engine are refused; no such id is used as an index.
    pub fn get_swapchain(&self, handle: SwapchainHandle) -> (swapchain: Result<
        &Swapchain,
        InvalidHandleError,
    >)
        ensures
            match swapchain {
                Ok(s) => self@.refers(handle@) && *s == self@.swapchains[handle@ as int],
                Err(e) => !self@.refers(handle@) && e.id == handle@,
            },
    {
        let id = handle.get_id();
        if handle.is_valid() && id < self.swapchains.len() {
            Ok(&self.swapchains[id])
        } else {
            Err(InvalidHandleError { id })
        }
    }

    /// The current swapchain, where one was set that the engine holds.
    pub fn current_swapchain(&self) -> (swapchain: Result<&Swapchain, InvalidHandleError>)
        ensures
            match swapchain {
                Ok(s) => self@.refers(self@.current_swapchain) && *s
                    == self@.swapchains[self@.current_swapchain as int],
                Err(e) => !self@.refers(self@.current_swapchain) && e.id
                    == self@.current_swapchain,
            },
    {
        self.get_swapchain(self.current_swapchain)
    }

    /// The number of swapchains of the engine.
    pub fn swapchain_count(&self) -> (count: usize)
        ensures
            count == self@.swapchains.len(),
    {
        self.swapchains.len()
    }
}

/// A handle keeps referring to its swapchain: whatever is created later,
/// what the engine holds at the place of an earlier handle stays.
pub proof fn lemma_handles_stay(before: EngineState, created: Swapchain, id: usize)
    requires
        before.refers(id),
    ensures
        ({
            let after = EngineState { swapchains: before.swapchains.push(created), ..before };
            after.refers(id) && after.swapchains[id as int] == before.swapchains[id as int]
        }),
{
}

/// The invalid handle refers to nothing, whatever the engine holds.
pub proof fn lemma_invalid_handle_refers_to_nothing(engine: EngineState)
    ensures
        !engine.refers(usize::MAX),
{
}

} // verus!
