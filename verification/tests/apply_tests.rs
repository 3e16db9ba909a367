use apply::Apply;

fn increment(x: i32) -> i32 {
    x + 1
}

fn checked_nonnegative(x: i32) -> Result<i32, String> {
    if x < 0 {
        Err(format!("negative: {}", x))
    } else {
        Ok(x)
    }
}

struct Record {
    label: String,
}

struct User {
    name: String,
}

#[test]
fn apply_equals_direct_call() {
    assert_eq!(5i32.apply(increment), increment(5));
    assert_eq!(0i32.apply(increment), increment(0));
    assert_eq!((-8i32).apply(increment), increment(-8));
}

#[test]
fn increments_five_to_six() {
    assert_eq!(5i32.apply(|x| x + 1), 6);
}

#[test]
fn wraps_str_in_string() {
    assert_eq!("a".apply(String::from), String::from("a"));
}

#[test]
fn failure_propagates_unchanged() {
    assert_eq!((-3i32).apply(checked_nonnegative), checked_nonnegative(-3));
    assert_eq!(
        (-3i32).apply(checked_nonnegative),
        Err(String::from("negative: -3"))
    );
}

#[test]
fn success_propagates_unchanged() {
    assert_eq!(3i32.apply(checked_nonnegative), Ok(3));
}

#[test]
fn chaining_matches_composition() {
    let double = |x: i32| x * 2;
    let add_ten = |x: i32| x + 10;
    let chained = 4i32.apply(double).apply(add_ten);
    let composed = 4i32.apply(|x| add_ten(double(x)));
    assert_eq!(chained, composed);
    assert_eq!(chained, 18);
}

#[test]
fn heterogeneous_chain_type_checks() {
    let record = 7i32
        .apply(|x| x.to_string())
        .apply(|label: String| Record { label });
    assert_eq!(record.label, "7");
}

#[test]
fn shares_move_only_value_without_copy() {
    let user = User {
        name: String::from("ada"),
    };
    let shared = user.apply(std::sync::Arc::new);
    assert_eq!(shared.name, "ada");
}

#[test]
fn wraps_final_value_in_ok() {
    let wrapped: Result<i32, String> = 9i32.apply(Ok);
    assert_eq!(wrapped, Ok(9));
}
