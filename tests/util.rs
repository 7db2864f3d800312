use libxc::{
    available_functional_count, check_init_status, functional_name,
    number_from_lookup, FunctionalError,
};

// A small stand-in for the native ID table and its name lookup.
fn table() -> Vec<i32> {
    vec![1, 2, 32, 101]
}

fn table_name(number: i32) -> String {
    match number {
        1 => String::from("lda_x"),
        2 => String::from("lda_x_2d"),
        32 => String::from("gga_x_gam"),
        101 => String::from("gga_x_pbe"),
        _ => panic!("name lookup called for an ID outside the table"),
    }
}

#[test]
fn functional_number_valid() {
    // the native lookup of "XC_GGA_X_GAM" yields 32
    match number_from_lookup(32) {
        Ok(number) => assert_eq!(number, 32),
        Err(_) => panic!(),
    }
}

#[test]
fn functional_number_invalid() {
    // the native lookup of "INVALID_NAME" yields -1
    match number_from_lookup(-1) {
        Ok(_) => panic!(),
        Err(e) => assert_eq!(e, FunctionalError::InvalidName),
    }
}

#[test]
fn functional_number_zero_is_valid() {
    assert_eq!(number_from_lookup(0), Ok(0));
    assert_eq!(number_from_lookup(i32::MIN), Err(FunctionalError::InvalidName));
}

#[test]
fn functional_name_valid() {
    let number = 32;
    match functional_name(&table(), number, &table_name) {
        Ok(name) => assert_eq!(name, "gga_x_gam"),
        Err(_) => panic!(),
    }
}

#[test]
fn functional_name_invalid() {
    let number = 0;
    match functional_name(&table(), number, &table_name) {
        Ok(_) => panic!(),
        Err(e) => assert_eq!(e, FunctionalError::InvalidID),
    }
}

#[test]
fn functional_name_empty_table() {
    assert_eq!(functional_name(&Vec::new(), 1, &table_name), Err(FunctionalError::InvalidID));
}

#[test]
fn functional_name_round_trip_over_table() {
    let numbers = table();
    for number in numbers.iter() {
        let name = functional_name(&numbers, *number, &table_name).unwrap();
        let back = numbers.iter().position(|n| table_name(*n) == name).unwrap();
        assert_eq!(numbers[back], *number);
    }
}

#[test]
fn available_functional_numbers() {
    let n_funcs = 5;
    let length = (n_funcs - 1) as usize;
    assert_eq!(available_functional_count(n_funcs), length);
    assert_eq!(available_functional_count(1), 0);
    assert_eq!(available_functional_count(i32::MAX), (i32::MAX - 1) as usize);
}

#[test]
fn available_functional_names() {
    let n_funcs = 5;
    let length = available_functional_count(n_funcs);
    let numbers = table();
    assert_eq!(numbers.len(), length);
    let names = libxc::available_functional_names(&numbers, &table_name);
    assert_eq!(names.len(), length);
    assert_eq!(names, vec!["lda_x", "lda_x_2d", "gga_x_gam", "gga_x_pbe"]);
}

#[test]
fn available_functional_names_empty() {
    let names = libxc::available_functional_names(&Vec::new(), &table_name);
    assert!(names.is_empty());
}

#[test]
fn init_status() {
    assert_eq!(check_init_status(0), Ok(()));
    assert_eq!(check_init_status(-3), Err(FunctionalError::FailedInitialization(-3)));
    assert_eq!(check_init_status(1), Err(FunctionalError::FailedInitialization(1)));
}
