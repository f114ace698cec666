use iris::camera::Camera;
use iris::ratio::Ratio;

#[test]
fn new_camera_looks_through_a_square() {
    let camera = Camera::new();
    assert_eq!(camera.aspect_ratio(), Ratio { num: 1, den: 1 });
}

#[test]
fn viewport_size_sets_the_aspect_ratio() {
    let mut camera = Camera::new();
    camera.set_viewport_size(1920, 1080);
    assert_eq!(camera.aspect_ratio(), Ratio { num: 1920, den: 1080 });
    let aspect: f32 = camera.aspect_ratio().num as f32 / camera.aspect_ratio().den as f32;
    assert_eq!(aspect, 1920.0f32 / 1080.0f32);
}

#[test]
fn viewport_without_height_leaves_the_camera() {
    let mut camera = Camera::new();
    camera.set_viewport_size(800, 600);
    camera.set_viewport_size(1024, 0);
    assert_eq!(camera.aspect_ratio(), Ratio { num: 800, den: 600 });
    camera.set_viewport_size(0, 0);
    assert_eq!(camera.aspect_ratio(), Ratio { num: 800, den: 600 });
}

#[test]
fn viewport_without_width_has_aspect_zero() {
    let mut camera = Camera::new();
    camera.set_viewport_size(0, 600);
    assert_eq!(camera.aspect_ratio(), Ratio { num: 0, den: 600 });
}

#[test]
fn camera_is_copied_by_value() {
    let mut camera = Camera::new();
    let before = camera;
    camera.set_viewport_size(4, 3);
    assert_eq!(before.aspect_ratio(), Ratio { num: 1, den: 1 });
    assert_ne!(before, camera);
}
