use workshop_rustlab_2022::admission::Error;
use workshop_rustlab_2022::decimal::push_decimal;
use workshop_rustlab_2022::leaky_bucket::MaxCapacityError;

#[test]
fn numbers_are_written_in_base_ten() {
    for number in [0u16, 1, 9, 10, 11, 99, 100, 101, 260, 999, 1000, 9999, 10000, 65535] {
        let mut text = String::new();
        push_decimal(&mut text, number);
        assert_eq!(text, number.to_string());
    }
}

#[test]
fn every_number_is_written_as_the_standard_library_writes_it() {
    for number in 0..=u16::MAX {
        let mut text = String::from("n=");
        push_decimal(&mut text, number);
        assert_eq!(text, format!("n={number}"));
    }
}

#[test]
fn numbers_are_written_at_the_end() {
    let mut text = String::from("12 and ");
    push_decimal(&mut text, 340);
    push_decimal(&mut text, 5);
    assert_eq!(text, "12 and 3405");
}

#[test]
fn capacity_error_message_writes_the_points() {
    assert_eq!(
        MaxCapacityError(0).message(),
        "Cannot add to leaky bucket with 0 points, capacity exceeded"
    );
    assert_eq!(
        MaxCapacityError(65535).message(),
        "Cannot add to leaky bucket with 65535 points, capacity exceeded"
    );
}

#[test]
fn rejection_message_writes_all_four_numbers() {
    let error =
        Error::NotEnoughCapacity { request: 260, points: 490, capacity: 500, leak_per_second: 4 };
    assert_eq!(
        error.message(),
        "Not enough capacity. Requested 260 points, available 10/500 points (leak: 4/s)"
    );
    let error = Error::NotEnoughCapacity {
        request: 65535,
        points: 0,
        capacity: 65535,
        leak_per_second: 255,
    };
    assert_eq!(
        error.message(),
        "Not enough capacity. Requested 65535 points, available 65535/65535 points (leak: 255/s)"
    );
}
