use std::cell::Cell;
use tvm_runtime::any_array::{
    downcast_element, expect_array, expect_index, get_from_any_array, AnyArrayError,
    ARRAY_TYPE_INDEX,
};
use tvm_runtime::text::{push_integer, push_list, push_natural};

/// Looks up an element among `items`, of which text stands for what does not
/// convert, and counts how often the array is looked into.
fn look_up(
    type_index: i32,
    items: &[Result<u32, &str>],
    index: usize,
) -> (Result<u32, AnyArrayError>, u32, u32) {
    let sizes = Cell::new(0);
    let conversions = Cell::new(0);
    let element = get_from_any_array(
        type_index,
        || {
            sizes.set(sizes.get() + 1);
            items.len() as i64
        },
        |at| {
            conversions.set(conversions.get() + 1);
            items[at].map_err(|reason| reason.to_string())
        },
        index,
    );
    (element, sizes.get(), conversions.get())
}

#[test]
fn element_is_converted_by_itself() {
    let items = [Err("a cache"), Ok(7), Ok(8)];
    assert_eq!(look_up(ARRAY_TYPE_INDEX, &items, 1), (Ok(7), 1, 1));
    assert_eq!(look_up(71, &items, 2), (Ok(8), 1, 1));
}

#[test]
fn element_of_another_type_is_refused() {
    let (element, sizes, conversions) = look_up(71, &[Err("not a tensor"), Ok(7)], 0);
    let error = element.unwrap_err();
    assert_eq!(
        error,
        AnyArrayError::Downcast {
            reason: "not a tensor".to_string()
        }
    );
    assert_eq!(error.message(), "downcast failed: not a tensor");
    assert_eq!((sizes, conversions), (1, 1));
}

#[test]
fn value_that_is_no_array_is_not_looked_into() {
    let (element, sizes, conversions) = look_up(70, &[Ok(7)], 0);
    let error = element.unwrap_err();
    assert_eq!(error, AnyArrayError::NotAnArray { type_index: 70 });
    assert_eq!(
        error.message(),
        "expected Any of type kTVMFFIArray (71), found type_index 70"
    );
    assert_eq!((sizes, conversions), (0, 0));
    assert!(expect_array(71).is_ok());
    assert_eq!(
        expect_array(-3).unwrap_err().message(),
        "expected Any of type kTVMFFIArray (71), found type_index -3"
    );
}

#[test]
fn element_out_of_bounds_is_not_converted() {
    let (element, sizes, conversions) = look_up(71, &[Ok(1), Ok(2), Ok(3)], 3);
    let error = element.unwrap_err();
    assert_eq!(error, AnyArrayError::OutOfBounds { index: 3, size: 3 });
    assert_eq!(
        error.message(),
        "index 3 out of bounds for array of length 3"
    );
    assert_eq!((sizes, conversions), (1, 0));
}

#[test]
fn bounds_at_the_edges() {
    assert!(expect_index(0, 1).is_ok());
    assert!(expect_index(0, 0).is_err());
    assert!(expect_index(0, -1).is_err());
    assert!(expect_index(usize::MAX, i64::MAX).is_err());
    assert_eq!(
        expect_index(usize::MAX, 2),
        Err(AnyArrayError::OutOfBounds {
            index: usize::MAX,
            size: 2
        })
    );
    assert_eq!(downcast_element::<u8>(Ok(4)), Ok(4));
}

#[test]
fn numbers_as_text() {
    let mut text = String::from("n=");
    push_natural(&mut text, u64::MAX);
    assert_eq!(text, format!("n={}", u64::MAX));
    for n in [0, 9, 10, -1, 407, i64::MAX, i64::MIN] {
        let mut text = String::new();
        push_integer(&mut text, n);
        assert_eq!(text, format!("{}", n));
    }
    let lists: [&[i64]; 4] = [&[], &[5], &[2, 3], &[-1, 0, 12]];
    for list in lists {
        let mut text = String::new();
        push_list(&mut text, list);
        assert_eq!(text, format!("{:?}", list));
    }
}
