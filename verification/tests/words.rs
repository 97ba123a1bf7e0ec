use workbook::words::{assemble, clean, is_letter, is_word, lowered, replacement, WordCounts};

fn counts(bee: usize, honey: usize, adam: usize, defenestration: usize) -> WordCounts {
    WordCounts { bee, honey, adam, defenestration }
}

#[test]
fn letters_are_the_ascii_letters() {
    assert!(is_letter('a') && is_letter('z') && is_letter('A') && is_letter('Z') && is_letter('m'));
    assert!(!is_letter('`') && !is_letter('{') && !is_letter('@') && !is_letter('['));
    assert!(!is_letter('0') && !is_letter(' ') && !is_letter('\n') && !is_letter('é'));
}

#[test]
fn bytes_become_lower_case_characters() {
    assert_eq!(lowered(b"AbZ az@[`{ 09\n"), "abz az@[`{ 09\n".chars().collect::<Vec<char>>());
    assert_eq!(lowered(b""), Vec::<char>::new());
}

#[test]
fn words_are_compared_by_their_characters() {
    assert!(is_word(&"bee".to_owned(), "bee"));
    assert!(!is_word(&"bees".to_owned(), "bee"));
    assert!(!is_word(&"be".to_owned(), "bee"));
    assert!(!is_word(&"".to_owned(), "bee"));
}

#[test]
fn replaced_words() {
    assert_eq!(replacement(&"barry".to_owned()), "larry");
    assert_eq!(replacement(&"stairs".to_owned()), "ramp");
    assert_eq!(replacement(&"yellow".to_owned()), "purple");
    assert_eq!(replacement(&"breakfast".to_owned()), "elevenses");
    assert_eq!(replacement(&"larry".to_owned()), "larry");
    assert_eq!(replacement(&"bee".to_owned()), "bee");
    assert_eq!(replacement(&"barrys".to_owned()), "barrys");
}

#[test]
fn text_is_cleaned_into_words() {
    let (text, counted) = clean(b"According to all known laws of aviation, there is no way a BEE should be able to fly.\n");
    assert_eq!(
        text,
        "according to all known laws of aviation there is no way a bee should be able to fly "
    );
    assert_eq!(counted, counts(1, 0, 0, 0));
}

#[test]
fn corruption_is_dropped_and_words_are_replaced_and_counted() {
    let (text, counted) =
        clean(b"Barry!CORRUPTION took the stairs;\tyellow honey,honey4Adam's breakfast Bee-bee");
    assert_eq!(text, "larry took the ramp purple honey honey adam s elevenses bee bee ");
    assert_eq!(counted, counts(2, 2, 1, 0));
}

#[test]
fn corruption_inside_a_word_splits_nothing() {
    let (text, counted) = clean(b"beeCORRUPTION corruptionbee corruption CorrupTION.");
    assert_eq!(text, "beecorruption corruptionbee ");
    assert_eq!(counted, counts(0, 0, 0, 0));
}

#[test]
fn text_without_letters_has_no_words() {
    assert_eq!(clean(b""), (String::new(), counts(0, 0, 0, 0)));
    assert_eq!(clean(b" 123 ,;\n\t"), (String::new(), counts(0, 0, 0, 0)));
}

#[test]
fn last_word_needs_no_character_behind_it() {
    assert_eq!(clean(b"defenestration"), ("defenestration ".to_owned(), counts(0, 0, 0, 1)));
    assert_eq!(clean(b"a"), ("a ".to_owned(), counts(0, 0, 0, 0)));
    assert_eq!(clean(b"  adam"), ("adam ".to_owned(), counts(0, 0, 1, 0)));
}

#[test]
fn runs_are_assembled_into_the_clean_text() {
    let groups = vec![
        (true, "bee".to_owned()),
        (false, ", ".to_owned()),
        (true, "corruption".to_owned()),
        (false, " ".to_owned()),
        (true, "yellow".to_owned()),
        (false, "!".to_owned()),
    ];
    assert_eq!(assemble(&groups), ("bee purple ".to_owned(), counts(1, 0, 0, 0)));
    assert_eq!(assemble(&Vec::new()), (String::new(), counts(0, 0, 0, 0)));
}

#[test]
fn clean_text_holds_small_letters_and_spaces_and_no_replaced_word() {
    let (text, _) = clean(b"Yellow STAIRS; Barry's BREAKFAST\x00was CORRUPTION-free, Larry said: 42% purple!");
    assert_eq!(text, "purple ramp larry s elevenses was free larry said purple ");
    assert!(text.chars().all(|c| c == ' ' || ('a'..='z').contains(&c)));
    for word in text.split(' ') {
        assert!(!["corruption", "barry", "stairs", "yellow", "breakfast"].contains(&word));
    }
}
