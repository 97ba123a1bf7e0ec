use workbook::greetings::{Hello, Student, Teacher};

#[test]
fn student_greets_plainly() {
    let s = Student {};
    assert_eq!(s.say_hi(), "hi");
    assert_eq!(s.say_something(), "I'm a good student");
}

#[test]
fn teacher_greets_in_their_own_words() {
    let t = Teacher {};
    assert_eq!(t.say_hi(), "Hi, I'm your new teacher");
    assert_eq!(t.say_something(), "I'm not a bad teacher");
}
