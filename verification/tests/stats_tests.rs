use workbook::company::Company;
use workbook::piglatin::convert_pig_latin;
use workbook::stats::get_average;
use workbook::stats::get_median;
use workbook::stats::get_mode;
use workbook::stats::sort_slow;

#[test]
fn average_truncates_toward_zero() {
    assert_eq!(2, get_average(&vec![1, 2, 3, 4]));
    assert_eq!(-2, get_average(&vec![-1, -2, -3, -4]));
    assert_eq!(0, get_average(&vec![-1, 2]));
    assert_eq!(7, get_average(&vec![7]));
}

#[test]
fn sort_slow_orders_and_keeps_elements() {
    assert_eq!(vec![1, 2, 2, 3, 5, 9], sort_slow(&vec![3, 1, 2, 9, 5, 2]));
    assert_eq!(Vec::<i32>::new(), sort_slow(&vec![]));
    assert_eq!(vec![-4, 0, 4], sort_slow(&vec![4, 0, -4]));
}

#[test]
fn median_is_the_middle_of_the_sorted_list() {
    assert_eq!(3, get_median(&vec![5, 1, 3, 2, 4]));
    // With an even count the upper of the two middle elements is taken.
    assert_eq!(3, get_median(&vec![4, 3, 2, 1]));
}

#[test]
fn mode_is_the_most_common_element() {
    assert_eq!(3, get_mode(&vec![1, 3, 2, 3, 1, 3]));
    // A tie goes to the element seen first.
    assert_eq!(2, get_mode(&vec![2, 1, 1, 2]));
    assert_eq!(7, get_mode(&vec![7]));
}

#[test]
fn pig_latin_treats_vowels_and_consonants_differently() {
    assert_eq!(
        "This-hay s-iay some-hay text-hay ",
        convert_pig_latin("This is some text")
    );
}

#[test]
fn pig_latin_of_nothing_is_nothing() {
    assert_eq!("", convert_pig_latin(""));
    assert_eq!("", convert_pig_latin("   "));
}

#[test]
fn departments_hand_back_sorted_employees() {
    let mut banana_farm = Company::create_company();
    banana_farm.add_employee_to_department(String::from("IT"), String::from("Susanne"));
    banana_farm.add_employee_to_department(String::from("IT"), String::from("Anna"));
    let it = banana_farm.get_employees_of_department(&String::from("IT"));
    assert_eq!(vec![String::from("Anna"), String::from("Susanne")], it);

    let sales = banana_farm.get_employees_of_department(&String::from("Sales"));
    assert_eq!(Vec::<String>::new(), sales);

    let all = banana_farm.get_all_employees_by_department();
    assert_eq!(2, all.len());
    assert_eq!("IT", all[0].0);
    assert_eq!("Sales", all[1].0);
}
