//! Taking one element out of an array whose elements have different types.
//!
//! An array that a packed function returns may hold a tensor beside other
//! objects, so it cannot be converted as a whole. Here one element is found and
//! converted by itself.

use crate::text::{integer_text, natural_text, push_integer, push_natural};
use vstd::prelude::*;

verus! {

/// The type index of arrays.
pub const ARRAY_TYPE_INDEX: i32 = 71;

/// Why an element could not be taken.
#[derive(Debug, PartialEq, Eq)]
pub enum AnyArrayError {
    /// The value is no array.
    NotAnArray { type_index: i32 },
    /// The array has no element of that number.
    OutOfBounds { index: usize, size: i64 },
    /// The element is of another type; what the conversion said of it.
    Downcast { reason: String },
}

impl AnyArrayError {
    /// The words in which the error is reported.
    pub open spec fn spec_message(self) -> Seq<char> {
        match self {
            AnyArrayError::NotAnArray { type_index } => "expected Any of type kTVMFFIArray ("@
                + integer_text(ARRAY_TYPE_INDEX as int) + "), found type_index "@ + integer_text(
                type_index as int,
            ),
            AnyArrayError::OutOfBounds { index, size } => "index "@ + natural_text(index as int)
                + " out of bounds for array of length "@ + integer_text(size as int),
            AnyArrayError::Downcast { reason } => "downcast failed: "@ + reason@,
        }
    }

    /// The words in which the error is reported.
    pub fn message(&self) -> (text: String)
        ensures
            text@ == self.spec_message(),
    {
        let mut text: String = String::new();
        match self {
            AnyArrayError::NotAnArray { type_index } => {
                text.append("expected Any of type kTVMFFIArray (");
                push_integer(&mut text, ARRAY_TYPE_INDEX as i64);
                text.append("), found type_index ");
                push_integer(&mut text, *type_index as i64);
            },
            AnyArrayError::OutOfBounds { index, size } => {
                text.append("index ");
                push_natural(&mut text, *index as u64);
                text.append(" out of bounds for array of length ");
                push_integer(&mut text, *size);
            },
            AnyArrayError::Downcast { reason } => {
                text.append("downcast failed: ");
                text.append(reason.as_str());
            },
        }
        assert(text@ =~= self.spec_message());
        text
    }
}

/// Whether a value is an array, by its type index.
pub fn expect_array(type_index: i32) -> (checked: Result<(), AnyArrayError>)
    ensures
        checked == (if type_index == ARRAY_TYPE_INDEX {
            Ok::<(), AnyArrayError>(())
        } else {
            Err::<(), AnyArrayError>(AnyArrayError::NotAnArray { type_index })
        }),
{
    if type_index != ARRAY_TYPE_INDEX {
        return Err(AnyArrayError::NotAnArray { type_index });
    }
    Ok(())
}

/// Whether an array of `size` elements has one of number `index`.
pub fn expect_index(index: usize, size: i64) -> (checked: Result<(), AnyArrayError>)
    ensures
        checked == (if index < size {
            Ok::<(), AnyArrayError>(())
        } else {
            Err::<(), AnyArrayError>(AnyArrayError::OutOfBounds { index, size })
        }),
{
    if size <= 0 || index as u64 >= size as u64 {
        return Err(AnyArrayError::OutOfBounds { index, size });
    }
    Ok(())
}

/// What comes of an element, given what its conversion returned.
pub fn downcast_element<T>(converted: Result<T, String>) -> (element: Result<T, AnyArrayError>)
    ensures
        converted matches Ok(value) ==> element == Ok::<T, AnyArrayError>(value),
        converted matches Err(reason) ==> element == Err::<T, AnyArrayError>(
            AnyArrayError::Downcast { reason },
        ),
{
    match converted {
        Ok(value) => Ok(value),
        Err(reason) => Err(AnyArrayError::Downcast { reason }),
    }
}

/// Takes the element of number `index` out of the array that a value is.
///
/// `type_index` is the type index of the value. `read_size` reads the number of
/// elements off the value, and `convert` converts the element of a given
/// number. Both look into the value, so `read_size` is called only on an array,
/// and `convert` only with a number below the size that was read.
pub fn get_from_any_array<T, S: FnOnce() -> i64, C: FnOnce(usize) -> Result<T, String>>(
    type_index: i32,
    read_size: S,
    convert: C,
    index: usize,
) -> (element: Result<T, AnyArrayError>)
    requires
        type_index == ARRAY_TYPE_INDEX ==> call_requires(read_size, ()),
        forall|size: i64|
            type_index == ARRAY_TYPE_INDEX && #[trigger] call_ensures(read_size, (), size) && index
                < size ==> call_requires(convert, (index,)),
    ensures
        type_index != ARRAY_TYPE_INDEX ==> element == Err::<T, AnyArrayError>(
            AnyArrayError::NotAnArray { type_index },
        ),
        type_index == ARRAY_TYPE_INDEX ==> exists|size: i64| #[trigger]
            call_ensures(read_size, (), size) && if index >= size {
                element == Err::<T, AnyArrayError>(AnyArrayError::OutOfBounds { index, size })
            } else {
                match element {
                    Ok(value) => call_ensures(convert, (index,), Ok::<T, String>(value)),
                    Err(AnyArrayError::Downcast { reason }) => call_ensures(
                        convert,
                        (index,),
                        Err::<T, String>(reason),
                    ),
                    Err(_) => false,
                }
            },
{
    match expect_array(type_index) {
        Ok(()) => {},
        Err(error) => {
            return Err(error);
        },
    }
    let size: i64 = read_size();
    match expect_index(index, size) {
        Ok(()) => {},
        Err(error) => {
            return Err(error);
        },
    }
    let converted: Result<T, String> = convert(index);
    downcast_element(converted)
}

/// What each error says: the number of the array type and the type index that
/// was found, the index and the length, or the words of the conversion.
pub proof fn law_messages_name_their_values(error: AnyArrayError)
    ensures
        match error {
            AnyArrayError::NotAnArray { type_index } => error.spec_message()
                == "expected Any of type kTVMFFIArray ("@ + natural_text(71)
                + "), found type_index "@ + integer_text(type_index as int),
            AnyArrayError::OutOfBounds { index, size } => error.spec_message() == "index "@
                + integer_text(index as int) + " out of bounds for array of length "@
                + integer_text(size as int),
            AnyArrayError::Downcast { reason } => error.spec_message() == "downcast failed: "@
                + reason@,
        },
{
}

} // verus!
