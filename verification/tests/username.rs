use workbook::username::{checked_username, MyError};

#[test]
fn name_of_letters_is_accepted_without_the_white_space_around_it() {
    assert_eq!(checked_username("Ferris\n").ok(), Some("Ferris".to_owned()));
    assert_eq!(checked_username("  \tAda \r\n").ok(), Some("Ada".to_owned()));
    assert_eq!(checked_username("Zoë").ok(), Some("Zoë".to_owned()));
}

#[test]
fn empty_name_is_refused() {
    assert!(matches!(checked_username("\n"), Err(MyError::InvalidName)));
    assert!(matches!(checked_username(""), Err(MyError::InvalidName)));
    assert!(matches!(checked_username("   \n"), Err(MyError::InvalidName)));
}

#[test]
fn name_with_another_character_is_refused() {
    assert!(matches!(checked_username("R2D2\n"), Err(MyError::InvalidName)));
    assert!(matches!(checked_username("Ada Lovelace\n"), Err(MyError::InvalidName)));
    assert!(matches!(checked_username("ferris!\n"), Err(MyError::InvalidName)));
    assert!(matches!(checked_username("_\n"), Err(MyError::InvalidName)));
}
