use oxidation::driver::{Component, Driver, DriverError};

const CREATION: [Component; 9] = [
    Component::Instance,
    Component::Surface,
    Component::Device,
    Component::Allocator,
    Component::ImageReadySignal,
    Component::SamplerCache,
    Component::GraphicsCommands,
    Component::ComputeCommands,
    Component::StagingPool,
];

const TEARDOWN: [Component; 9] = [
    Component::ImageReadySignal,
    Component::SamplerCache,
    Component::StagingPool,
    Component::ComputeCommands,
    Component::GraphicsCommands,
    Component::Allocator,
    Component::Device,
    Component::Surface,
    Component::Instance,
];

fn complete_driver() -> Driver {
    let mut driver = Driver::new();
    for component in CREATION {
        assert_eq!(driver.create(component, Ok(())), Ok(()));
    }
    driver
}

#[test]
fn new_driver_holds_nothing() {
    let driver = Driver::new();
    for component in CREATION {
        assert!(!driver.is_live(component));
    }
    assert_eq!(driver.outstanding_allocations(), 0);
    assert_eq!(driver.next_creation(), Some(Component::Instance));
    assert_eq!(driver.next_teardown(), None);
}

#[test]
fn creation_goes_in_order() {
    let mut driver = Driver::new();
    let mut created = Vec::new();
    while let Some(component) = driver.next_creation() {
        assert_eq!(driver.create(component, Ok(())), Ok(()));
        assert!(driver.is_live(component));
        created.push(component);
    }
    assert_eq!(created, CREATION.to_vec());
    assert_eq!(driver.next_creation(), None);
}

#[test]
fn teardown_goes_in_order() {
    let mut driver = complete_driver();
    let mut destroyed = Vec::new();
    while let Some(component) = driver.next_teardown() {
        assert_eq!(driver.destroy(component), Ok(()));
        assert!(!driver.is_live(component));
        destroyed.push(component);
    }
    assert_eq!(destroyed, TEARDOWN.to_vec());
    assert_eq!(driver.next_teardown(), None);
}

#[test]
fn teardown_lists_what_exists() {
    let mut driver = complete_driver();
    assert_eq!(driver.teardown(), Ok(TEARDOWN.to_vec()));
    for component in CREATION {
        assert!(!driver.is_live(component));
    }
    assert_eq!(driver.teardown(), Ok(Vec::new()));
}

#[test]
fn teardown_after_a_failed_creation_takes_back_what_was_created() {
    let mut driver = Driver::new();
    for component in [Component::Instance, Component::Surface, Component::Device, Component::Allocator] {
        assert_eq!(driver.create(component, Ok(())), Ok(()));
    }
    assert_eq!(
        driver.teardown(),
        Ok(vec![Component::Allocator, Component::Device, Component::Surface, Component::Instance])
    );
    assert_eq!(driver.next_creation(), Some(Component::Instance));
}

#[test]
fn allocator_is_not_destroyed_before_its_allocations() {
    let mut driver = complete_driver();
    assert_eq!(driver.allocate(), Ok(()));
    assert_eq!(driver.allocate(), Ok(()));
    for component in [
        Component::ImageReadySignal,
        Component::SamplerCache,
        Component::StagingPool,
        Component::ComputeCommands,
        Component::GraphicsCommands,
    ] {
        assert_eq!(driver.destroy(component), Ok(()));
    }
    assert_eq!(driver.destroy(Component::Allocator), Err(DriverError::OutstandingAllocations(2)));
    assert!(driver.is_live(Component::Allocator));
    assert_eq!(driver.release(), Ok(()));
    assert_eq!(driver.destroy(Component::Allocator), Err(DriverError::OutstandingAllocations(1)));
    assert_eq!(driver.release(), Ok(()));
    assert_eq!(driver.outstanding_allocations(), 0);
    assert_eq!(driver.destroy(Component::Allocator), Ok(()));
    assert!(!driver.is_live(Component::Allocator));
}

#[test]
fn teardown_is_refused_while_allocations_are_live() {
    let mut driver = complete_driver();
    assert_eq!(driver.allocate(), Ok(()));
    assert_eq!(driver.teardown(), Err(DriverError::OutstandingAllocations(1)));
    for component in CREATION {
        assert!(driver.is_live(component));
    }
    assert_eq!(driver.release(), Ok(()));
    assert_eq!(driver.teardown(), Ok(TEARDOWN.to_vec()));
}

#[test]
fn nothing_is_destroyed_before_what_depends_on_it() {
    let mut driver = complete_driver();
    assert_eq!(driver.destroy(Component::Allocator), Err(DriverError::StillInUse(Component::Allocator)));
    assert_eq!(driver.destroy(Component::Device), Err(DriverError::StillInUse(Component::Device)));
    assert_eq!(driver.destroy(Component::Instance), Err(DriverError::StillInUse(Component::Instance)));
    assert_eq!(driver.destroy(Component::StagingPool), Ok(()));
    assert_eq!(driver.destroy(Component::Allocator), Ok(()));
    assert_eq!(driver.destroy(Component::Device), Err(DriverError::StillInUse(Component::Device)));
    assert_eq!(driver.destroy(Component::Surface), Ok(()));
    assert_eq!(driver.destroy(Component::Instance), Err(DriverError::StillInUse(Component::Instance)));
}

#[test]
fn nothing_is_created_before_what_it_depends_on() {
    let mut driver = Driver::new();
    assert_eq!(driver.create(Component::Device, Ok(())), Err(DriverError::MissingDependency(Component::Device)));
    assert_eq!(driver.create(Component::Surface, Ok(())), Err(DriverError::MissingDependency(Component::Surface)));
    assert_eq!(driver.create(Component::Instance, Ok(())), Ok(()));
    assert_eq!(
        driver.create(Component::StagingPool, Ok(())),
        Err(DriverError::MissingDependency(Component::StagingPool))
    );
    assert_eq!(driver.create(Component::Device, Ok(())), Ok(()));
    assert_eq!(
        driver.create(Component::StagingPool, Ok(())),
        Err(DriverError::MissingDependency(Component::StagingPool))
    );
    assert_eq!(driver.create(Component::SamplerCache, Ok(())), Ok(()));
    assert_eq!(driver.create(Component::Allocator, Ok(())), Ok(()));
    assert_eq!(driver.create(Component::StagingPool, Ok(())), Ok(()));
    assert!(!driver.is_live(Component::Surface));
}

#[test]
fn a_part_is_created_and_destroyed_once() {
    let mut driver = Driver::new();
    assert_eq!(driver.destroy(Component::Instance), Err(DriverError::NotCreated(Component::Instance)));
    assert_eq!(driver.create(Component::Instance, Ok(())), Ok(()));
    assert_eq!(driver.create(Component::Instance, Ok(())), Err(DriverError::AlreadyCreated(Component::Instance)));
    assert_eq!(driver.destroy(Component::Instance), Ok(()));
    assert_eq!(driver.destroy(Component::Instance), Err(DriverError::NotCreated(Component::Instance)));
}

#[test]
fn rejected_creation_leaves_the_books_as_they_were() {
    let mut driver = Driver::new();
    assert_eq!(driver.create(Component::Instance, Ok(())), Ok(()));
    assert_eq!(
        driver.create(Component::Surface, Err(-1000000000)),
        Err(DriverError::CreationRejected(Component::Surface, -1000000000))
    );
    assert!(!driver.is_live(Component::Surface));
    assert_eq!(driver.next_creation(), Some(Component::Surface));
    assert_eq!(driver.teardown(), Ok(vec![Component::Instance]));
}

#[test]
fn allocations_need_an_allocator() {
    let mut driver = Driver::new();
    assert_eq!(driver.allocate(), Err(DriverError::NoAllocator));
    assert_eq!(driver.release(), Err(DriverError::NothingToRelease));
    assert_eq!(driver.outstanding_allocations(), 0);
    let mut driver = complete_driver();
    assert_eq!(driver.release(), Err(DriverError::NothingToRelease));
    assert_eq!(driver.allocate(), Ok(()));
    assert_eq!(driver.outstanding_allocations(), 1);
}

#[test]
fn allocator_is_created_for_version_one_three() {
    assert_eq!(Driver::allocator_api_version(), ash::vk::make_api_version(0, 1, 3, 0));
    assert_eq!(Driver::allocator_api_version(), ash::vk::API_VERSION_1_3);
    assert_eq!(Driver::allocator_api_version(), 4_206_592);
}
