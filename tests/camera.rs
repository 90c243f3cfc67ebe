use rtiaw::camera::{Camera, Sensor};
use rtiaw::ray::{Ray, RayScatter};

#[test]
fn builder_stages_fill_the_camera() {
    let camera: Camera<(i32, i32), u8> = Camera::builder()
        .input_position((3, -4))
        .input_sensor(160, 90, 8, 5)
        .input_lens(7)
        .build();
    assert_eq!(*camera.pose(), (3, -4));
    assert_eq!(
        camera.sensor(),
        Sensor {
            width: 160,
            height: 90,
            shutter_length: 8,
            max_ray_depth: 5,
        }
    );
    assert_eq!(*camera.lens(), 7);
}

#[test]
fn builder_starts_from_defaults() {
    let builder = Camera::<String, Vec<u8>>::builder();
    let camera = builder
        .input_position(String::from("front"))
        .input_sensor(1, 1, 1, 1)
        .input_lens(Vec::new())
        .build();
    assert_eq!(camera.pose(), "front");
    assert!(camera.lens().is_empty());
}

#[test]
fn ray_keeps_origin_and_direction() {
    let ray = Ray::new([1, 2, 3], [0, 0, -1]);
    assert_eq!(*ray.origin(), [1, 2, 3]);
    assert_eq!(*ray.direction(), [0, 0, -1]);
}

#[test]
fn scatter_carries_its_parts() {
    let s = RayScatter {
        attenuation: 0.5f64,
        scattered: Ray::new(1u8, 2u8),
    };
    assert_eq!(s.attenuation, 0.5);
    assert_eq!(*s.scattered.direction(), 2);
}
