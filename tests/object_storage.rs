use rtiaw::object_storage::{find_nearest, total_order_key};

fn bits(d: f64) -> Option<u64> {
    Some(d.to_bits())
}

#[test]
fn keys_order_as_total_cmp() {
    let values = [
        f64::NEG_INFINITY,
        -2.5,
        -1.0,
        -0.0,
        0.0,
        0.001,
        1.0,
        2.5,
        f64::INFINITY,
    ];
    for a in values {
        for b in values {
            assert_eq!(
                total_order_key(a.to_bits()).cmp(&total_order_key(b.to_bits())),
                a.total_cmp(&b)
            );
        }
    }
}

#[test]
fn key_values() {
    assert_eq!(total_order_key(0.0f64.to_bits()), 0);
    assert_eq!(total_order_key((-0.0f64).to_bits()), -1);
    assert_eq!(total_order_key(1.0f64.to_bits()), 0x3FF0_0000_0000_0000);
    assert_eq!(total_order_key((-1.0f64).to_bits()), -1 - 0x3FF0_0000_0000_0000);
}

#[test]
fn nearest_is_the_smallest_distance() {
    let hits = [None, bits(2.0), bits(0.5), None, bits(1.0)];
    assert_eq!(find_nearest(&hits), Some(2));
}

#[test]
fn nearest_takes_the_first_of_equal_distances() {
    let hits = [bits(3.0), bits(1.5), bits(1.5)];
    assert_eq!(find_nearest(&hits), Some(1));
}

#[test]
fn no_hit_gives_none() {
    assert_eq!(find_nearest(&[None, None]), None);
    assert_eq!(find_nearest(&[]), None);
}

#[test]
fn single_hit_is_nearest() {
    assert_eq!(find_nearest(&[None, None, bits(1e300)]), Some(2));
}
