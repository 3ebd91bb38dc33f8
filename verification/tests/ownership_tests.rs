use framecore::application::AppConfig;
use framecore::application::Application;
use framecore::ownership::ResourceArena;

#[test]
fn destruction_order_device_allocator_image() {
    let mut arena = ResourceArena::new();
    let device = arena.create(vec![]);
    let allocator = arena.create(vec![device]);
    let image = arena.create(vec![device, allocator]);

    // Dropping the device's caller-visible handle while the image is
    // still held must not free the device's native resources.
    arena.release(device);
    assert!(!arena.is_freed(device));
    assert_eq!(arena.handle_count(device), 0);
    assert_eq!(arena.dependent_count(device), 2);

    arena.release(allocator);
    assert!(!arena.is_freed(allocator), "the image still references it");
    assert!(!arena.is_freed(device));

    // Only once the image is dropped do the counts reach zero, and the
    // whole chain is released, dependents before dependencies.
    arena.release(image);
    assert!(arena.is_freed(image));
    assert!(arena.is_freed(allocator));
    assert!(arena.is_freed(device));
    assert_eq!(arena.dependent_count(device), 0);
}

#[test]
fn retained_handle_keeps_resource_alive() {
    let mut arena = ResourceArena::new();
    let device = arena.create(vec![]);
    arena.retain(device);
    assert_eq!(arena.handle_count(device), 2);
    arena.release(device);
    assert!(!arena.is_freed(device), "one handle is still held");
    arena.release(device);
    assert!(arena.is_freed(device));
}

#[test]
fn fresh_resource_has_one_handle_and_no_dependents() {
    let mut arena = ResourceArena::new();
    let device = arena.create(vec![]);
    assert_eq!(arena.len(), 1);
    assert!(!arena.is_freed(device));
    assert_eq!(arena.handle_count(device), 1);
    assert_eq!(arena.dependent_count(device), 0);
}

#[test]
fn release_cascades_down_a_linear_chain() {
    let mut arena = ResourceArena::new();
    let device = arena.create(vec![]);
    let allocator = arena.create(vec![device]);
    let image = arena.create(vec![allocator]);

    arena.release(device);
    arena.release(allocator);
    assert!(!arena.is_freed(device));
    assert!(!arena.is_freed(allocator));

    arena.release(image);
    assert!(arena.is_freed(image));
    assert!(arena.is_freed(allocator));
    assert!(arena.is_freed(device));
}

#[test]
fn application_handle_and_config_construct() {
    let _app = Application::new();
    let config = AppConfig { width: 800, height: 600, vsync: true, log_fps: false, fullscreen: false };
    assert_eq!(config.width, 800);
    assert_eq!(config.height, 600);
    assert!(config.vsync);
}
