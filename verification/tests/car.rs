use vehicle_sync::car::{Car, Quat, Vec3};

#[test]
fn new_car_is_zeroed_and_never_updated() {
    let car = Car::new(String::from("{\"model\":\"etk800\"}"));
    assert_eq!(car.car_json, "{\"model\":\"etk800\"}");
    assert_eq!(car.pos, Vec3 { x: 0, y: 0, z: 0 });
    assert_eq!(car.rot, Quat { w: 0, x: 0, y: 0, z: 0 });
    assert_eq!(car.vel, Vec3 { x: 0, y: 0, z: 0 });
    assert_eq!(car.rvel, Vec3 { x: 0, y: 0, z: 0 });
    assert_eq!(car.tim, 0);
    assert_eq!(car.ping, 0);
    assert!(car.last_pos_update.is_none());
}

#[test]
fn update_replaces_whole_sample_and_stamps_time() {
    let mut car = Car::new(String::from("spawn"));
    car.tim = 9;
    car.ping = 3;
    car.update(
        Vec3 { x: 10, y: 20, z: 30 },
        Quat { w: 1, x: 0, y: 0, z: 0 },
        Vec3 { x: -1, y: 2, z: -3 },
        Vec3 { x: 4, y: 5, z: 6 },
        1000,
    );
    assert_eq!(car.pos, Vec3 { x: 10, y: 20, z: 30 });
    assert_eq!(car.rot, Quat { w: 1, x: 0, y: 0, z: 0 });
    assert_eq!(car.vel, Vec3 { x: -1, y: 2, z: -3 });
    assert_eq!(car.rvel, Vec3 { x: 4, y: 5, z: 6 });
    assert_eq!(car.last_pos_update, Some(1000));
    // the descriptor, update tag and latency estimate are untouched
    assert_eq!(car.car_json, "spawn");
    assert_eq!(car.tim, 9);
    assert_eq!(car.ping, 3);
}

#[test]
fn extrapolates_position_along_velocity() {
    // velocity (1,0,0), position (0,0,0), two time units elapsed -> (2,0,0)
    let mut car = Car::new(String::from("x"));
    car.update(
        Vec3 { x: 0, y: 0, z: 0 },
        Quat { w: 0, x: 0, y: 0, z: 0 },
        Vec3 { x: 1, y: 0, z: 0 },
        Vec3 { x: 0, y: 0, z: 0 },
        0,
    );
    assert_eq!(car.pos(2), Vec3 { x: 2, y: 0, z: 0 });
}

#[test]
fn extrapolates_each_axis_from_the_stored_base() {
    let mut car = Car::new(String::from("x"));
    car.update(
        Vec3 { x: 100, y: -50, z: 7 },
        Quat { w: 0, x: 0, y: 0, z: 0 },
        Vec3 { x: 3, y: -2, z: 0 },
        Vec3 { x: 0, y: 0, z: 0 },
        40,
    );
    // ten time units later
    assert_eq!(car.pos(50), Vec3 { x: 130, y: -70, z: 7 });
}

#[test]
fn never_updated_car_keeps_base_position_whatever_the_time() {
    let mut car = Car::new(String::from("x"));
    car.pos = Vec3 { x: 5, y: 6, z: 7 };
    car.vel = Vec3 { x: 100, y: 100, z: 100 };
    assert!(car.last_pos_update.is_none());
    assert_eq!(car.pos(0), Vec3 { x: 5, y: 6, z: 7 });
    assert_eq!(car.pos(123_456), Vec3 { x: 5, y: 6, z: 7 });
    assert_eq!(car.pos(i64::MAX), Vec3 { x: 5, y: 6, z: 7 });
}

#[test]
fn zero_elapsed_time_returns_stored_position() {
    let mut car = Car::new(String::from("x"));
    car.update(
        Vec3 { x: 1, y: 2, z: 3 },
        Quat { w: 0, x: 0, y: 0, z: 0 },
        Vec3 { x: 9, y: 9, z: 9 },
        Vec3 { x: 0, y: 0, z: 0 },
        77,
    );
    assert_eq!(car.pos(77), Vec3 { x: 1, y: 2, z: 3 });
}

#[test]
fn euler_delta_scales_angular_velocity_by_elapsed_time() {
    let mut car = Car::new(String::from("x"));
    car.update(
        Vec3 { x: 0, y: 0, z: 0 },
        Quat { w: 0, x: 0, y: 0, z: 0 },
        Vec3 { x: 0, y: 0, z: 0 },
        Vec3 { x: 1, y: 2, z: -3 },
        10,
    );
    assert_eq!(car.euler_delta(12), Vec3 { x: 2, y: 4, z: -6 });
    // never updated: no elapsed time, so no accumulated rotation
    let fresh = Car::new(String::from("y"));
    assert_eq!(fresh.euler_delta(999), Vec3 { x: 0, y: 0, z: 0 });
}

#[test]
fn rotation_combines_by_componentwise_addition() {
    // Pins the additive blend down: the delta is added component by
    // component, not composed by quaternion multiplication. Under a true
    // composition the result of combining (1,2,3,4) with (10,20,30,40)
    // would not be (11,22,33,44).
    let mut car = Car::new(String::from("x"));
    car.rot = Quat { w: 1, x: 2, y: 3, z: 4 };
    let delta = Quat { w: 10, x: 20, y: 30, z: 40 };
    assert_eq!(car.rotation(delta), Quat { w: 11, x: 22, y: 33, z: 44 });
}

#[test]
fn rotation_with_zero_delta_is_the_stored_orientation() {
    let mut car = Car::new(String::from("x"));
    car.rot = Quat { w: 7, x: -8, y: 9, z: -10 };
    assert_eq!(
        car.rotation(Quat { w: 0, x: 0, y: 0, z: 0 }),
        Quat { w: 7, x: -8, y: 9, z: -10 }
    );
}
