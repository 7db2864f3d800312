use vstd::prelude::*;

use crate::error::FunctionalError;

verus! {

/// Interprets the native name-to-ID lookup result: a negative value means the
/// name is unknown, any other value is the functional's ID.
pub fn number_from_lookup(lookup: i32) -> (r: Result<i32, FunctionalError>)
    ensures
        lookup < 0 <==> r == Err::<i32, FunctionalError>(FunctionalError::InvalidName),
        lookup >= 0 <==> r == Ok::<i32, FunctionalError>(lookup),
{
    if lookup < 0 {
        Err(FunctionalError::InvalidName)
    } else {
        Ok(lookup)
    }
}

/// Interprets the status code of the native initialization: zero is success,
/// any other code is reported unchanged.
pub fn check_init_status(status: i32) -> (r: Result<(), FunctionalError>)
    ensures
        status == 0 <==> r is Ok,
        status != 0 <==> r == Err::<(), FunctionalError>(
            FunctionalError::FailedInitialization(status),
        ),
{
    if status != 0 {
        Err(FunctionalError::FailedInitialization(status))
    } else {
        Ok(())
    }
}

/// The number of real functional IDs: the native count of functionals holds one
/// sentinel slot more than the enumeration yields.
pub open spec fn available_count_of(number_of_functionals: int) -> int {
    number_of_functionals - 1
}

/// The length of the buffer that the native enumeration of IDs fills.
pub fn available_functional_count(number_of_functionals: i32) -> (r: usize)
    requires
        number_of_functionals >= 1,
    ensures
        r == available_count_of(number_of_functionals as int),
{
    (number_of_functionals - 1) as usize
}

/// Whether `numbers` holds `number`.
fn contains_number(numbers: &Vec<i32>, number: i32) -> (r: bool)
    ensures
        r == numbers@.contains(number),
{
    let mut i: usize = 0;
    while i < numbers.len()
        invariant
            0 <= i <= numbers.len(),
            forall|j: int| 0 <= j < i ==> numbers@[j] != number,
        decreases numbers.len() - i,
    {
        if numbers[i] == number {
            return true;
        }
        i = i + 1;
    }
    false
}

/// Looks up the name of the functional with ID `number`, given the enumerated
/// IDs `numbers`. The native name lookup `name_of` does not check its argument,
/// so it is called only for an ID that `numbers` holds.
pub fn functional_name<F: Fn(i32) -> String>(numbers: &Vec<i32>, number: i32, name_of: &F) -> (r:
    Result<String, FunctionalError>)
    requires
        numbers@.contains(number) ==> name_of.requires((number,)),
    ensures
        numbers@.contains(number) <==> r is Ok,
        !numbers@.contains(number) <==> r == Err::<String, FunctionalError>(
            FunctionalError::InvalidID,
        ),
        r matches Ok(name) ==> name_of.ensures((number,), name),
{
    if contains_number(numbers, number) {
        Ok(name_of(number))
    } else {
        Err(FunctionalError::InvalidID)
    }
}

/// The names of all enumerated functionals, in the order of their IDs in
/// `numbers`: each ID goes through `functional_name`, which cannot fail on it.
pub fn available_functional_names<F: Fn(i32) -> String>(numbers: &Vec<i32>, name_of: &F) -> (r:
    Vec<String>)
    requires
        forall|i: int| 0 <= i < numbers.len() ==> name_of.requires((#[trigger] numbers@[i],)),
    ensures
        r.len() == numbers.len(),
        forall|i: int|
            0 <= i < numbers.len() ==> name_of.ensures((numbers@[i],), #[trigger] r@[i]),
{
    let mut names: Vec<String> = Vec::new();
    let mut i: usize = 0;
    while i < numbers.len()
        invariant
            0 <= i <= numbers.len(),
            names.len() == i,
            forall|j: int| 0 <= j < numbers.len() ==> name_of.requires((#[trigger] numbers@[j],)),
            forall|j: int| 0 <= j < i ==> name_of.ensures((numbers@[j],), #[trigger] names@[j]),
        decreases numbers.len() - i,
    {
        let number = numbers[i];
        assert(numbers@[i as int] == number);
        let result = functional_name(numbers, number, name_of);
        match result {
            Ok(name) => {
                names.push(name);
            },
            Err(_) => {
                assert(false);
            },
        }
        i = i + 1;
    }
    names
}

/// The enumerated IDs and the enumerated names are equally many: one fewer
/// than the native count of functionals.
pub proof fn lemma_enumeration_lengths(
    number_of_functionals: int,
    numbers: Seq<i32>,
    names: Seq<String>,
)
    requires
        number_of_functionals >= 1,
        numbers.len() == available_count_of(number_of_functionals),
        names.len() == numbers.len(),
    ensures
        numbers.len() == number_of_functionals - 1,
        names.len() == number_of_functionals - 1,
{
}

} // verus!
