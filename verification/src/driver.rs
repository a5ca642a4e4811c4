//! The composition root: which parts of the graphics context exist, in what
//! order they come into being and in what order they are taken down.
//!
//! None of the API's objects is reclaimed by itself, and many refer to
//! others: an allocator is bound to the device it allocates on, a command
//! pool to the device it records for. The driver keeps the books. It hands
//! out the next part to create or to destroy, and refuses a step that would
//! leave a part without something it depends on.

use crate::vk::{api_version, is_depth, is_stencil, make_api_version, Format};
use vstd::prelude::*;

verus! {

/// A part of the graphics context that the driver owns.
#[derive(Debug, Copy, Clone, PartialEq, Eq)]
pub enum Component {
    Instance,
    Surface,
    Device,
    Allocator,
    /// The semaphore that signals that an image is ready for presentation.
    ImageReadySignal,
    SamplerCache,
    GraphicsCommands,
    ComputeCommands,
    StagingPool,
}

/// A step that the driver refuses.
#[derive(Debug, Copy, Clone, PartialEq, Eq)]
pub enum DriverError {
    /// The part exists already.
    AlreadyCreated(Component),
    /// Something that the part depends on does not exist.
    MissingDependency(Component),
    /// The part was never created, or is destroyed already.
    NotCreated(Component),
    /// A part that depends on this one still exists.
    StillInUse(Component),
    /// The allocator is asked to go while this many allocations made
    /// through it are still live.
    OutstandingAllocations(u64),
    /// An allocation is reported and there is no allocator.
    NoAllocator,
    /// A release is reported and no allocation is live.
    NothingToRelease,
    /// More allocations are live than can be counted.
    TooManyAllocations,
    /// The creation of the part was rejected, with this result code. The
    /// construction of the context is over: what exists is to be taken down.
    CreationRejected(Component, i32),
}

/// Whether `component` cannot exist without `dependency`, directly or
/// through another part.
pub open spec fn depends_on(component: Component, dependency: Component) -> bool {
    match component {
        Component::Instance => false,
        Component::Surface => dependency == Component::Instance,
        Component::Device => dependency == Component::Instance,
        Component::Allocator => dependency == Component::Instance || dependency
            == Component::Device,
        Component::ImageReadySignal => dependency == Component::Instance || dependency
            == Component::Device,
        Component::SamplerCache => dependency == Component::Instance || dependency
            == Component::Device,
        Component::GraphicsCommands => dependency == Component::Instance || dependency
            == Component::Device,
        Component::ComputeCommands => dependency == Component::Instance || dependency
            == Component::Device,
        Component::StagingPool => dependency == Component::Instance || dependency
            == Component::Device || dependency == Component::Allocator,
    }
}

/// The order of creation.
pub open spec fn creation_order() -> Seq<Component> {
    seq![
        Component::Instance,
        Component::Surface,
        Component::Device,
        Component::Allocator,
        Component::ImageReadySignal,
        Component::SamplerCache,
        Component::GraphicsCommands,
        Component::ComputeCommands,
        Component::StagingPool,
    ]
}

/// The order of teardown.
pub open spec fn teardown_order() -> Seq<Component> {
    seq![
        Component::ImageReadySignal,
        Component::SamplerCache,
        Component::StagingPool,
        Component::ComputeCommands,
        Component::GraphicsCommands,
        Component::Allocator,
        Component::Device,
        Component::Surface,
        Component::Instance,
    ]
}

/// The place of a part in the order of creation.
pub open spec fn creation_rank(component: Component) -> int {
    match component {
        Component::Instance => 0,
        Component::Surface => 1,
        Component::Device => 2,
        Component::Allocator => 3,
        Component::ImageReadySignal => 4,
        Component::SamplerCache => 5,
        Component::GraphicsCommands => 6,
        Component::ComputeCommands => 7,
        Component::StagingPool => 8,
    }
}

/// The place of a part in the order of teardown.
pub open spec fn teardown_rank(component: Component) -> int {
    match component {
        Component::ImageReadySignal => 0,
        Component::SamplerCache => 1,
        Component::StagingPool => 2,
        Component::ComputeCommands => 3,
        Component::GraphicsCommands => 4,
        Component::Allocator => 5,
        Component::Device => 6,
        Component::Surface => 7,
        Component::Instance => 8,
    }
}

/// A part comes into being after everything it depends on.
pub proof fn lemma_creation_respects_dependencies(component: Component, dependency: Component)
    requires
        depends_on(component, dependency),
    ensures
        creation_rank(dependency) < creation_rank(component),
{
}

/// A part is taken down before everything it depends on: the allocator
/// outlives the staging pool that allocates through it, the device outlives
/// the allocator, the pools, the cache and the semaphore, and the instance
/// outlives them all.
pub proof fn lemma_teardown_respects_dependencies(component: Component, dependency: Component)
    requires
        depends_on(component, dependency),
    ensures
        teardown_rank(component) < teardown_rank(dependency),
{
}

/// Teardown reverses creation wherever the order matters. Two parts of
/// which one depends on the other are taken down in the reverse of the order
/// of their creation, and the parts that others depend on, from the
/// allocator down to the instance, go last, in the exact reverse of their
/// creation.
pub proof fn lemma_teardown_reverses_creation(first: Component, second: Component)
    ensures
        depends_on(second, first) ==> creation_rank(first) < creation_rank(second)
            && teardown_rank(second) < teardown_rank(first),
        creation_rank(first) <= 3 ==> teardown_rank(first) == 8 - creation_rank(first),
        creation_rank(first) <= 3 && creation_rank(first) < creation_rank(second)
            ==> teardown_rank(second) < teardown_rank(first),
{
}

/// Each order holds every part once, at the place that its rank names.
pub proof fn lemma_ranks_are_places(first: Component, second: Component)
    ensures
        0 <= creation_rank(first) < 9,
        0 <= teardown_rank(first) < 9,
        creation_order().len() == 9,
        teardown_order().len() == 9,
        creation_order()[creation_rank(first)] == first,
        teardown_order()[teardown_rank(first)] == first,
        creation_rank(first) == creation_rank(second) ==> first == second,
        teardown_rank(first) == teardown_rank(second) ==> first == second,
{
}

/// What the driver's books say: the parts that exist, and the number of
/// allocations that were made through the allocator and not yet released.
pub struct DriverState {
    pub live: Set<Component>,
    pub outstanding_allocations: nat,
}

impl DriverState {
    /// No part exists without what it depends on, and allocations are only
    /// live while the allocator is.
    pub open spec fn consistent(self) -> bool {
        &&& forall|c: Component, d: Component|
            self.live.contains(c) && depends_on(c, d) ==> self.live.contains(d)
        &&& self.outstanding_allocations > 0 ==> self.live.contains(Component::Allocator)
    }

    /// Whether some part that exists depends on `component`.
    pub open spec fn in_use(self, component: Component) -> bool {
        exists|c: Component| self.live.contains(c) && depends_on(c, component)
    }

    /// Whether everything that `component` depends on exists.
    pub open spec fn ready_for(self, component: Component) -> bool {
        forall|d: Component| depends_on(component, d) ==> self.live.contains(d)
    }

    /// The outcome of creating `component`.
    pub open spec fn create(self, component: Component) -> Result<DriverState, DriverError> {
        if self.live.contains(component) {
            Err(DriverError::AlreadyCreated(component))
        } else if !self.ready_for(component) {
            Err(DriverError::MissingDependency(component))
        } else {
            Ok(DriverState { live: self.live.insert(component), ..self })
        }
    }

    /// The outcome of destroying `component`.
    pub open spec fn destroy(self, component: Component) -> Result<DriverState, DriverError> {
        if !self.live.contains(component) {
            Err(DriverError::NotCreated(component))
        } else if self.in_use(component) {
            Err(DriverError::StillInUse(component))
        } else if component == Component::Allocator && self.outstanding_allocations > 0 {
            Err(DriverError::OutstandingAllocations(self.outstanding_allocations as u64))
        } else {
            Ok(DriverState { live: self.live.remove(component), ..self })
        }
    }

    /// The parts of `order` that exist, in the order of `order`.
    pub open spec fn live_in(self, order: Seq<Component>) -> Seq<Component>
        decreases order.len(),
    {
        if order.len() == 0 {
            Seq::empty()
        } else if self.live.contains(order.last()) {
            self.live_in(order.drop_last()).push(order.last())
        } else {
            self.live_in(order.drop_last())
        }
    }
}

impl DriverState {
    /// The outcome of destroying the parts of `steps` one after the other:
    /// the first refusal, or the books after the last step.
    pub open spec fn destroy_all(self, steps: Seq<Component>) -> Result<DriverState, DriverError>
        decreases steps.len(),
    {
        if steps.len() == 0 {
            Ok(self)
        } else {
            match self.destroy_all(steps.drop_last()) {
                Ok(state) => state.destroy(steps.last()),
                Err(e) => Err(e),
            }
        }
    }

    /// The outcome of creating the parts of `steps` one after the other: the
    /// first refusal, or the books after the last step.
    pub open spec fn create_all(self, steps: Seq<Component>) -> Result<DriverState, DriverError>
        decreases steps.len(),
    {
        if steps.len() == 0 {
            Ok(self)
        } else {
            match self.create_all(steps.drop_last()) {
                Ok(state) => state.create(steps.last()),
                Err(e) => Err(e),
            }
        }
    }

    /// Books without allocations in which the parts of the first `rank`
    /// places of the order of creation exist, and no others.
    pub open spec fn created_to(rank: int) -> DriverState {
        DriverState {
            live: Set::new(|c: Component| creation_rank(c) < rank),
            outstanding_allocations: 0,
        }
    }

    /// The books after the first `rank` places of the order of teardown
    /// were gone through.
    pub open spec fn torn_down_to(self, rank: int) -> DriverState {
        DriverState {
            live: self.live.filter(|c: Component| teardown_rank(c) >= rank),
            outstanding_allocations: self.outstanding_allocations,
        }
    }

    /// Creating a part keeps the books consistent.
    pub proof fn lemma_create_keeps_consistent(self, component: Component)
        requires
            self.consistent(),
        ensures
            self.create(component) matches Ok(state) ==> state.consistent(),
    {
    }

    /// Destroying a part keeps the books consistent.
    pub proof fn lemma_destroy_keeps_consistent(self, component: Component)
        requires
            self.consistent(),
        ensures
            self.destroy(component) matches Ok(state) ==> state.consistent(),
    {
        if let Ok(state) = self.destroy(component) {
            assert forall|c: Component, d: Component|
                state.live.contains(c) && depends_on(c, d) implies state.live.contains(d) by {
                assert(self.live.contains(c));
            }
        }
    }

    /// Creation in order is never refused: the first part in the order of
    /// creation that does not exist can be created.
    pub proof fn lemma_next_creation_accepted(self, component: Component)
        requires
            !self.live.contains(component),
            forall|d: Component|
                creation_rank(d) < creation_rank(component) ==> self.live.contains(d),
        ensures
            self.create(component) is Ok,
    {
        assert forall|d: Component| depends_on(component, d) implies self.live.contains(d) by {
            lemma_creation_respects_dependencies(component, d);
        }
    }

    /// Teardown in order is never refused for want of order: the first part
    /// in the order of teardown that exists can be destroyed, unless it is
    /// the allocator and allocations are still live.
    pub proof fn lemma_next_teardown_accepted(self, component: Component)
        requires
            self.live.contains(component),
            forall|d: Component|
                teardown_rank(d) < teardown_rank(component) ==> !self.live.contains(d),
            component == Component::Allocator ==> self.outstanding_allocations == 0,
        ensures
            self.destroy(component) is Ok,
    {
        assert forall|c: Component| self.live.contains(c) implies !depends_on(c, component) by {
            if depends_on(c, component) {
                lemma_teardown_respects_dependencies(c, component);
            }
        }
    }

    /// Going through the first `rank` places of the order of creation, from
    /// books in which nothing exists, is accepted at every step.
    pub proof fn lemma_creation_prefix_accepted(rank: int)
        requires
            0 <= rank <= 9,
        ensures
            Self::created_to(0).create_all(creation_order().take(rank)) == Ok::<
                DriverState,
                DriverError,
            >(Self::created_to(rank)),
            Self::created_to(rank).consistent(),
        decreases rank,
    {
        let order = creation_order();
        assert forall|c: Component, d: Component|
            Self::created_to(rank).live.contains(c) && depends_on(c, d) implies Self::created_to(
            rank,
        ).live.contains(d) by {
            lemma_creation_respects_dependencies(c, d);
        }
        if rank == 0 {
            assert(order.take(0) =~= Seq::<Component>::empty());
        } else {
            let component = order[rank - 1];
            Self::lemma_creation_prefix_accepted(rank - 1);
            assert(order.take(rank).drop_last() =~= order.take(rank - 1));
            assert(order.take(rank).last() == component);
            let before = Self::created_to(rank - 1);
            assert(Self::created_to(rank).live =~= before.live.insert(component)) by {
                assert forall|c: Component|
                    Self::created_to(rank).live.contains(c) == before.live.insert(
                        component,
                    ).contains(c) by {
                    lemma_ranks_are_places(c, component);
                }
            }
            before.lemma_next_creation_accepted(component);
        }
    }

    /// Creation in order, from books in which nothing exists, is accepted
    /// step by step and leaves a context in which every part exists.
    pub proof fn lemma_creation_accepted()
        ensures
            (DriverState { live: Set::empty(), outstanding_allocations: 0 }).create_all(
                creation_order(),
            ) == Ok::<DriverState, DriverError>(
                DriverState { live: Set::full(), outstanding_allocations: 0 },
            ),
    {
        Self::lemma_creation_prefix_accepted(9);
        assert(creation_order().take(9) =~= creation_order());
        assert(Self::created_to(0).live =~= Set::<Component>::empty());
        assert(Self::created_to(9).live =~= Set::<Component>::full()) by {
            assert forall|c: Component| Self::created_to(9).live.contains(c) by {
                lemma_ranks_are_places(c, c);
            }
        }
    }

    /// Destroying parts changes nothing about the allocations that are live.
    pub proof fn lemma_destroy_all_keeps_allocations(self, steps: Seq<Component>)
        ensures
            self.destroy_all(steps) matches Ok(state) ==> state.outstanding_allocations
                == self.outstanding_allocations,
        decreases steps.len(),
    {
        if steps.len() > 0 {
            self.lemma_destroy_all_keeps_allocations(steps.drop_last());
        }
    }

    /// The allocator outlives every allocation made through it: while an
    /// allocation is live, every sequence of destructions that names the
    /// allocator is refused.
    pub proof fn lemma_allocator_outlives_allocations(self, steps: Seq<Component>)
        requires
            self.outstanding_allocations > 0,
            steps.contains(Component::Allocator),
        ensures
            self.destroy_all(steps) is Err,
        decreases steps.len(),
    {
        let earlier = steps.drop_last();
        if steps.last() == Component::Allocator {
            self.lemma_destroy_all_keeps_allocations(earlier);
        } else {
            let i = choose|i: int| 0 <= i < steps.len() && steps[i] == Component::Allocator;
            assert(earlier[i] == Component::Allocator);
            self.lemma_allocator_outlives_allocations(earlier);
        }
    }

    /// Going through the first `rank` places of the order of teardown, and
    /// destroying what exists, is accepted at every step, and leaves the
    /// parts of the later places.
    pub proof fn lemma_teardown_prefix_accepted(self, rank: int)
        requires
            self.consistent(),
            self.outstanding_allocations == 0,
            0 <= rank <= 9,
        ensures
            self.destroy_all(self.live_in(teardown_order().take(rank))) == Ok::<
                DriverState,
                DriverError,
            >(self.torn_down_to(rank)),
        decreases rank,
    {
        let order = teardown_order();
        if rank == 0 {
            assert(order.take(0) =~= Seq::<Component>::empty());
            assert(self.torn_down_to(0).live =~= self.live);
        } else {
            let component = order[rank - 1];
            self.lemma_teardown_prefix_accepted(rank - 1);
            assert(order.take(rank).drop_last() =~= order.take(rank - 1));
            assert(order.take(rank).last() == component);
            let before = self.torn_down_to(rank - 1);
            let after = self.torn_down_to(rank);
            assert(after.live =~= before.live.remove(component)) by {
                assert forall|c: Component|
                    after.live.contains(c) == before.live.remove(component).contains(c) by {
                    lemma_ranks_are_places(c, component);
                }
            }
            if self.live.contains(component) {
                let steps = self.live_in(order.take(rank));
                assert(steps.drop_last() =~= self.live_in(order.take(rank - 1)));
                assert(before.live.contains(component));
                assert forall|d: Component|
                    teardown_rank(d) < teardown_rank(component) implies !before.live.contains(
                    d,
                ) by {}
                before.lemma_next_teardown_accepted(component);
            } else {
                assert(after.live =~= before.live);
            }
        }
    }

    /// The teardown of consistent books without live allocations is accepted
    /// step by step and leaves nothing.
    pub proof fn lemma_teardown_accepted(self)
        requires
            self.consistent(),
            self.outstanding_allocations == 0,
        ensures
            self.destroy_all(self.live_in(teardown_order())) == Ok::<DriverState, DriverError>(
                DriverState { live: Set::empty(), outstanding_allocations: 0 },
            ),
    {
        self.lemma_teardown_prefix_accepted(9);
        assert(teardown_order().take(9) =~= teardown_order());
        assert(self.torn_down_to(9).live =~= Set::<Component>::empty()) by {
            assert forall|c: Component| !self.torn_down_to(9).live.contains(c) by {
                lemma_ranks_are_places(c, c);
            }
        }
    }
}

/// The books of the composition root.
#[derive(Debug)]
pub struct Driver {
    instance: bool,
    surface: bool,
    device: bool,
    allocator: bool,
    image_ready_signal: bool,
    sampler_cache: bool,
    graphics_commands: bool,
    compute_commands: bool,
    staging_pool: bool,
    outstanding_allocations: u64,
}

impl View for Driver {
    type V = DriverState;

    closed spec fn view(&self) -> DriverState {
        DriverState {
            live: Set::new(|c: Component| self.has(c)),
            outstanding_allocations: self.outstanding_allocations as nat,
        }
    }
}

impl Driver {
    /// Whether the books hold `component` as existing.
    closed spec fn has(&self, component: Component) -> bool {
        match component {
            Component::Instance => self.instance,
            Component::Surface => self.surface,
            Component::Device => self.device,
            Component::Allocator => self.allocator,
            Component::ImageReadySignal => self.image_ready_signal,
            Component::SamplerCache => self.sampler_cache,
            Component::GraphicsCommands => self.graphics_commands,
            Component::ComputeCommands => self.compute_commands,
            Component::StagingPool => self.staging_pool,
        }
    }

    #[verifier::type_invariant]
    closed spec fn well_formed(&self) -> bool {
        self@.consistent()
    }

    /// Books in which nothing exists yet.
    pub fn new() -> (driver: Driver)
        ensures
            driver@.live == Set::<Component>::empty(),
            driver@.outstanding_allocations == 0,
            driver@.consistent(),
    {
        let driver = Driver {
            instance: false,
            surface: false,
            device: false,
            allocator: false,
            image_ready_signal: false,
            sampler_cache: false,
            graphics_commands: false,
            compute_commands: false,
            staging_pool: false,
            outstanding_allocations: 0,
        };
        assert(driver@.live =~= Set::<Component>::empty());
        driver
    }

    /// Whether `component` exists.
    pub fn is_live(&self, component: Component) -> (live: bool)
        ensures
            live == self@.live.contains(component),
    {
        match component {
            Component::Instance => self.instance,
            Component::Surface => self.surface,
            Component::Device => self.device,
            Component::Allocator => self.allocator,
            Component::ImageReadySignal => self.image_ready_signal,
            Component::SamplerCache => self.sampler_cache,
            Component::GraphicsCommands => self.graphics_commands,
            Component::ComputeCommands => self.compute_commands,
            Component::StagingPool => self.staging_pool,
        }
    }

    /// The number of allocations that are live.
    pub fn outstanding_allocations(&self) -> (count: u64)
        ensures
            count == self@.outstanding_allocations,
    {
        self.outstanding_allocations
    }

    /// The part to create next: the first in the order of creation that
    /// does not exist. `None` when everything exists.
    pub fn next_creation(&self) -> (next: Option<Component>)
        ensures
            self@.consistent(),
            match next {
                Some(c) => {
                    &&& !self@.live.contains(c)
                    &&& forall|d: Component|
                        creation_rank(d) < creation_rank(c) ==> self@.live.contains(d)
                },
                None => forall|d: Component| self@.live.contains(d),
            },
    {
        proof {
            use_type_invariant(self);
        }
        if !self.instance {
            Some(Component::Instance)
        } else if !self.surface {
            Some(Component::Surface)
        } else if !self.device {
            Some(Component::Device)
        } else if !self.allocator {
            Some(Component::Allocator)
        } else if !self.image_ready_signal {
            Some(Component::ImageReadySignal)
        } else if !self.sampler_cache {
            Some(Component::SamplerCache)
        } else if !self.graphics_commands {
            Some(Component::GraphicsCommands)
        } else if !self.compute_commands {
            Some(Component::ComputeCommands)
        } else if !self.staging_pool {
            Some(Component::StagingPool)
        } else {
            None
        }
    }

    /// The part to destroy next: the first in the order of teardown that
    /// exists. `None` when nothing exists.
    pub fn next_teardown(&self) -> (next: Option<Component>)
        ensures
            self@.consistent(),
            match next {
                Some(c) => {
                    &&& self@.live.contains(c)
                    &&& forall|d: Component|
                        teardown_rank(d) < teardown_rank(c) ==> !self@.live.contains(d)
                },
                None => forall|d: Component| !self@.live.contains(d),
            },
    {
        proof {
            use_type_invariant(self);
        }
        if self.image_ready_signal {
            Some(Component::ImageReadySignal)
        } else if self.sampler_cache {
            Some(Component::SamplerCache)
        } else if self.staging_pool {
            Some(Component::StagingPool)
        } else if self.compute_commands {
            Some(Component::ComputeCommands)
        } else if self.graphics_commands {
            Some(Component::GraphicsCommands)
        } else if self.allocator {
            Some(Component::Allocator)
        } else if self.device {
            Some(Component::Device)
        } else if self.surface {
            Some(Component::Surface)
        } else if self.instance {
            Some(Component::Instance)
        } else {
            None
        }
    }

    /// Whether everything that `component` depends on exists.
    fn ready_for(&self, component: Component) -> (ready: bool)
        ensures
            ready == self@.ready_for(component),
    {
        let ready = match component {
            Component::Instance => true,
            Component::Surface => self.instance,
            Component::Device => self.instance,
            Component::Allocator => self.instance && self.device,
            Component::ImageReadySignal => self.instance && self.device,
            Component::SamplerCache => self.instance && self.device,
            Component::GraphicsCommands => self.instance && self.device,
            Component::ComputeCommands => self.instance && self.device,
            Component::StagingPool => self.instance && self.device && self.allocator,
        };
        proof {
            if ready {
                assert(self@.ready_for(component));
            } else {
                let missing = if !self.instance {
                    Component::Instance
                } else if !self.device {
                    Component::Device
                } else {
                    Component::Allocator
                };
                assert(depends_on(component, missing) && !self@.live.contains(missing));
            }
        }
        ready
    }

    /// Whether some part that exists depends on `component`.
    fn in_use(&self, component: Component) -> (used: bool)
        ensures
            used == self@.in_use(component),
    {
        let device_users = self.allocator || self.image_ready_signal || self.sampler_cache
            || self.graphics_commands || self.compute_commands || self.staging_pool;
        let used = match component {
            Component::Instance => self.surface || self.device || device_users,
            Component::Device => device_users,
            Component::Allocator => self.staging_pool,
            _ => false,
        };
        proof {
            if used {
                let user = match component {
                    Component::Instance => if self.surface {
                        Component::Surface
                    } else if self.device {
                        Component::Device
                    } else {
                        Self::device_user(self)
                    },
                    Component::Device => Self::device_user(self),
                    _ => Component::StagingPool,
                };
                assert(self@.live.contains(user) && depends_on(user, component));
            } else {
                assert forall|c: Component| self@.live.contains(c) implies !depends_on(
                    c,
                    component,
                ) by {}
            }
        }
        used
    }

    /// A part that exists and depends on the device, where there is one.
    closed spec fn device_user(driver: &Driver) -> Component {
        if driver.allocator {
            Component::Allocator
        } else if driver.image_ready_signal {
            Component::ImageReadySignal
        } else if driver.sampler_cache {
            Component::SamplerCache
        } else if driver.graphics_commands {
            Component::GraphicsCommands
        } else if driver.compute_commands {
            Component::ComputeCommands
        } else {
            Component::StagingPool
        }
    }

    /// Takes up the outcome of creating `component`.
    ///
    /// A rejection, with its result code, becomes
    /// [`DriverError::CreationRejected`]. A part that was created is entered
    /// in the books, unless it exists already or something it depends on
    /// does not. Whenever the answer is an error the books are unchanged;
    /// the context is then taken down by [`Driver::teardown`], so that no
    /// half-made context stays behind.
    pub fn create(&mut self, component: Component, created: Result<(), i32>) -> (outcome: Result<
        (),
        DriverError,
    >)
        ensures
            old(self)@.consistent(),
            final(self)@.consistent(),
            match created {
                Err(code) => {
                    &&& outcome == Err::<(), DriverError>(
                        DriverError::CreationRejected(component, code),
                    )
                    &&& final(self)@ == old(self)@
                },
                Ok(_) => match old(self)@.create(component) {
                    Ok(state) => outcome is Ok && final(self)@ == state,
                    Err(e) => outcome == Err::<(), DriverError>(e) && final(self)@ == old(self)@,
                },
            },
    {
        proof {
            use_type_invariant(&*self);
        }
        if let Err(code) = created {
            return Err(DriverError::CreationRejected(component, code));
        }
        if self.is_live(component) {
            return Err(DriverError::AlreadyCreated(component));
        }
        if !self.ready_for(component) {
            return Err(DriverError::MissingDependency(component));
        }
        let ghost before = self@;
        match component {
            Component::Instance => {
                self.instance = true;
            },
            Component::Surface => {
                self.surface = true;
            },
            Component::Device => {
                self.device = true;
            },
            Component::Allocator => {
                self.allocator = true;
            },
            Component::ImageReadySignal => {
                self.image_ready_signal = true;
            },
            Component::SamplerCache => {
                self.sampler_cache = true;
            },
            Component::GraphicsCommands => {
                self.graphics_commands = true;
            },
            Component::ComputeCommands => {
                self.compute_commands = true;
            },
            Component::StagingPool => {
                self.staging_pool = true;
            },
        }
        assert(self@.live =~= before.live.insert(component));
        Ok(())
    }

    /// Enters an allocation that was made through the allocator.
    ///
    /// Refused, with the books unchanged, where there is no allocator, or
    /// where the count is at its limit.
    pub fn allocate(&mut self) -> (outcome: Result<(), DriverError>)
        ensures
            final(self)@.consistent(),
            final(self)@.live == old(self)@.live,
            outcome == if !old(self)@.live.contains(Component::Allocator) {
                Err::<(), DriverError>(DriverError::NoAllocator)
            } else if old(self)@.outstanding_allocations == u64::MAX {
                Err(DriverError::TooManyAllocations)
            } else {
                Ok(())
            },
            final(self)@.outstanding_allocations == old(self)@.outstanding_allocations + if outcome is Ok {
                1int
            } else {
                0int
            },
    {
        proof {
            use_type_invariant(&*self);
        }
        if !self.allocator {
            return Err(DriverError::NoAllocator);
        }
        if self.outstanding_allocations == u64::MAX {
            return Err(DriverError::TooManyAllocations);
        }
        let ghost before = self@;
        self.outstanding_allocations = self.outstanding_allocations + 1;
        assert(self@.live =~= before.live);
        Ok(())
    }

    /// Enters that an allocation was released.
    ///
    /// Refused, with the books unchanged, where no allocation is live.
    pub fn release(&mut self) -> (outcome: Result<(), DriverError>)
        ensures
            final(self)@.consistent(),
            final(self)@.live == old(self)@.live,
            outcome == if old(self)@.outstanding_allocations == 0 {
                Err::<(), DriverError>(DriverError::NothingToRelease)
            } else {
                Ok(())
            },
            final(self)@.outstanding_allocations == old(self)@.outstanding_allocations - if outcome is Ok {
                1int
            } else {
                0int
            },
    {
        proof {
            use_type_invariant(&*self);
        }
        if self.outstanding_allocations == 0 {
            return Err(DriverError::NothingToRelease);
        }
        let ghost before = self@;
        self.outstanding_allocations = self.outstanding_allocations - 1;
        assert(self@.live =~= before.live);
        Ok(())
    }

    /// Enters `component` as destroyed.
    ///
    /// Refused, with the books unchanged, where the part does not exist,
    /// where another part that exists depends on it, and where it is the
    /// allocator and allocations made through it are still live.
    pub fn destroy(&mut self, component: Component) -> (outcome: Result<(), DriverError>)
        ensures
            old(self)@.consistent(),
            final(self)@.consistent(),
            match old(self)@.destroy(component) {
                Ok(state) => outcome is Ok && final(self)@ == state,
                Err(e) => outcome == Err::<(), DriverError>(e) && final(self)@ == old(self)@,
            },
    {
        proof {
            use_type_invariant(&*self);
        }
        if !self.is_live(component) {
            return Err(DriverError::NotCreated(component));
        }
        if self.in_use(component) {
            return Err(DriverError::StillInUse(component));
        }
        let ghost before = self@;
        match component {
            Component::Instance => {
                self.instance = false;
            },
            Component::Surface => {
                self.surface = false;
            },
            Component::Device => {
                self.device = false;
            },
            Component::Allocator => {
                if self.outstanding_allocations > 0 {
                    return Err(DriverError::OutstandingAllocations(self.outstanding_allocations));
                }
                self.allocator = false;
            },
            Component::ImageReadySignal => {
                self.image_ready_signal = false;
            },
            Component::SamplerCache => {
                self.sampler_cache = false;
            },
            Component::GraphicsCommands => {
                self.graphics_commands = false;
            },
            Component::ComputeCommands => {
                self.compute_commands = false;
            },
            Component::StagingPool => {
                self.staging_pool = false;
            },
        }
        assert(self@.live =~= before.live.remove(component));
        Ok(())
    }

    /// Takes down everything that exists and returns the parts in the order
    /// in which they are to be destroyed.
    ///
    /// Refused, with the books unchanged, where allocations made through the
    /// allocator are still live: they must be released first.
    pub fn teardown(&mut self) -> (outcome: Result<Vec<Component>, DriverError>)
        ensures
            old(self)@.consistent(),
            final(self)@.consistent(),
            match outcome {
                Ok(destroyed) => {
                    &&& old(self)@.outstanding_allocations == 0
                    &&& destroyed@ == old(self)@.live_in(teardown_order())
                    &&& final(self)@.live == Set::<Component>::empty()
                    &&& final(self)@.outstanding_allocations == 0
                },
                Err(e) => {
                    &&& old(self)@.outstanding_allocations > 0
                    &&& e == DriverError::OutstandingAllocations(
                        old(self)@.outstanding_allocations as u64,
                    )
                    &&& final(self)@ == old(self)@
                },
            },
    {
        proof {
            use_type_invariant(&*self);
        }
        if self.outstanding_allocations > 0 {
            return Err(DriverError::OutstandingAllocations(self.outstanding_allocations));
        }
        let ghost before = self@;
        let mut destroyed: Vec<Component> = Vec::new();
        let mut rank: usize = 0;
        while rank < 9
            invariant
                rank <= 9,
                before.consistent(),
                before.outstanding_allocations == 0,
                self@.outstanding_allocations == 0,
                self@.consistent(),
                forall|c: Component|
                    #[trigger] self@.live.contains(c) == (before.live.contains(c) && teardown_rank(
                        c,
                    ) >= rank),
                destroyed@ == before.live_in(teardown_order().take(rank as int)),
            decreases 9 - rank,
        {
            let component = Self::teardown_step(rank);
            proof {
                assert(teardown_order().take(rank + 1).drop_last() =~= teardown_order().take(
                    rank as int,
                ));
                assert(teardown_order().take(rank + 1).last() == component);
            }
            let ghost at_step = self@;
            if self.is_live(component) {
                proof {
                    assert forall|c: Component| at_step.live.contains(c) implies !depends_on(
                        c,
                        component,
                    ) by {
                        if depends_on(c, component) {
                            lemma_teardown_respects_dependencies(c, component);
                        }
                    }
                }
                let outcome = self.destroy(component);
                assert(outcome is Ok);
                destroyed.push(component);
            }
            proof {
                assert forall|c: Component|
                    #[trigger] self@.live.contains(c) == (before.live.contains(c) && teardown_rank(
                        c,
                    ) >= rank + 1) by {
                    lemma_ranks_are_places(c, component);
                    assert(at_step.live.contains(c) == (before.live.contains(c) && teardown_rank(c)
                        >= rank));
                }
            }
            rank += 1;
        }
        proof {
            assert(teardown_order().take(9) =~= teardown_order());
            assert forall|c: Component| !self@.live.contains(c) by {
                lemma_ranks_are_places(c, c);
            }
            assert(self@.live =~= Set::<Component>::empty());
        }
        Ok(destroyed)
    }

    /// The part at a place of the order of teardown.
    fn teardown_step(rank: usize) -> (component: Component)
        requires
            rank < 9,
        ensures
            component == teardown_order()[rank as int],
            teardown_rank(component) == rank,
    {
        if rank == 0 {
            Component::ImageReadySignal
        } else if rank == 1 {
            Component::SamplerCache
        } else if rank == 2 {
            Component::StagingPool
        } else if rank == 3 {
            Component::ComputeCommands
        } else if rank == 4 {
            Component::GraphicsCommands
        } else if rank == 5 {
            Component::Allocator
        } else if rank == 6 {
            Component::Device
        } else if rank == 7 {
            Component::Surface
        } else {
            Component::Instance
        }
    }

    /// Whether the format with the given code has a depth component.
    pub fn is_depth_format(format: i32) -> (depth: bool)
        ensures
            depth == is_depth(format),
    {
        format == Format::D16Unorm.to_vk() || format == Format::D32Sfloat.to_vk() || format
            == Format::D32SfloatS8Uint.to_vk() || format == Format::D24UnormS8Uint.to_vk()
            || format == Format::D16UnormS8Uint.to_vk() || format
            == Format::X8D24UnormPack32.to_vk()
    }

    /// Whether the format with the given code has a stencil component.
    pub fn is_stencil_format(format: i32) -> (stencil: bool)
        ensures
            stencil == is_stencil(format),
    {
        format == Format::S8Uint.to_vk() || format == Format::D16UnormS8Uint.to_vk() || format
            == Format::D24UnormS8Uint.to_vk() || format == Format::D32SfloatS8Uint.to_vk()
    }

    /// The version of the API that the allocator is created for: 1.3.
    pub fn allocator_api_version() -> (version: u32)
        ensures
            version == api_version(0, 1, 3, 0),
            version == 0x0040_3000,
    {
        assert(api_version(0, 1, 3, 0) == 0x0040_3000) by (bit_vector);
        make_api_version(0, 1, 3, 0)
    }
}

} // verus!
