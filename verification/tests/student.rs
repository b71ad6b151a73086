use backend::http::Error;
use backend::student::{Student, StudentId, Timestamp};

const NOON: Timestamp = Timestamp { seconds: 1_790_000_000, nanos: 5 };

fn john(grade: u8, graduation_year: u16) -> Result<Student, Error> {
    Student::new_at(
        "123456".to_string(),
        "John".to_string(),
        "Doe".to_string(),
        "john.doe@csxlabs.edu".to_string(),
        grade,
        graduation_year,
        None,
        2026,
        NOON,
    )
}

fn field_errors(result: Result<Student, Error>) -> backend::http::FieldErrors {
    match result {
        Err(Error::UnprocessableEntity { errors }) => errors,
        other => panic!("expected validation errors, got {:?}", other),
    }
}

fn single_message(result: Result<(), Error>, field: &str) -> String {
    match result {
        Err(Error::UnprocessableEntity { errors }) => {
            let messages = errors.messages(field).unwrap();
            assert_eq!(messages.len(), 1);
            messages[0].clone()
        }
        other => panic!("expected validation errors, got {:?}", other),
    }
}

#[test]
fn test_student_id_new() {
    let id = StudentId::new("123456".to_string());
    assert_eq!(id.as_ref().unwrap().to_string(), "123456");
}

#[test]
fn test_student_id_new_invalid() {
    let id = StudentId::new("12345".to_string());
    assert!(id.as_ref().is_err());
}

#[test]
fn test_student_new_valid() {
    let student = Student::new(
        "123456".to_string(),
        "John".to_string(),
        "Doe".to_string(),
        "john.doe@csxlabs.edu".to_string(),
        11, // Junior
        2026,
        None,
    );

    assert!(student.is_ok());
    let student = student.unwrap();
    assert_eq!(student.id.to_string(), "123456");
    assert_eq!(student.first_name, "John");
    assert_eq!(student.last_name, "Doe");
    assert_eq!(student.email, "john.doe@csxlabs.edu");
    assert_eq!(student.grade, 11);
    assert_eq!(student.graduation_year, 2026);
    assert_eq!(student.special_accommodations, None);
    assert_eq!(student.full_name(), "John Doe");
    assert_eq!(student.grade_level(), "Junior");
}

#[test]
fn test_student_new_with_accommodations() {
    let student = Student::new(
        "654321".to_string(),
        "Jane".to_string(),
        "Smith".to_string(),
        "jane.smith@csxlabs.edu".to_string(),
        9, // Freshman
        2028,
        Some("Lower locker for wheelchair accessibility".to_string()),
    );

    assert!(student.is_ok());
    let student = student.unwrap();
    assert_eq!(student.grade_level(), "Freshman");
    assert_eq!(
        student.special_accommodations,
        Some("Lower locker for wheelchair accessibility".to_string())
    );
}

#[test]
fn test_student_new_invalid_grade() {
    let student = Student::new(
        "123456".to_string(),
        "John".to_string(),
        "Doe".to_string(),
        "john.doe@csxlabs.edu".to_string(),
        8, // Invalid grade (should be 9-12)
        2025,
        None,
    );

    assert!(student.is_err());
    if let Err(Error::UnprocessableEntity { errors }) = student {
        assert!(errors.contains_key("grade"));
    } else {
        panic!("Expected UnprocessableEntity error");
    }
}

#[test]
fn test_student_update_grade() {
    let mut student = Student::new(
        "123456".to_string(),
        "John".to_string(),
        "Doe".to_string(),
        "john.doe@csxlabs.edu".to_string(),
        10, // Sophomore
        2027,
        None,
    )
    .unwrap();

    let result = student.update_grade(11);
    assert!(result.is_ok());
    assert_eq!(student.grade, 11);
    assert_eq!(student.grade_level(), "Junior");
}

#[test]
fn test_student_update_special_accommodations() {
    let mut student = Student::new(
        "123456".to_string(),
        "John".to_string(),
        "Doe".to_string(),
        "john.doe@csxlabs.edu".to_string(),
        10,
        2027,
        None,
    )
    .unwrap();

    let result =
        student.update_special_accommodations(Some("Bottom row locker needed".to_string()));
    assert!(result.is_ok());
    assert_eq!(
        student.special_accommodations,
        Some("Bottom row locker needed".to_string())
    );

    // Test removing accommodations
    let result = student.update_special_accommodations(None);
    assert!(result.is_ok());
    assert_eq!(student.special_accommodations, None);
}

#[test]
fn student_id_rejects_letters_and_wide_digits() {
    assert!(StudentId::new("12345a".to_string()).is_err());
    assert!(StudentId::new("1234567".to_string()).is_err());
    assert!(StudentId::new("".to_string()).is_err());
    // Six characters, none of them an ASCII digit.
    assert!(StudentId::new("\u{661}\u{662}\u{663}\u{664}\u{665}\u{666}".to_string()).is_err());
    // Six bytes, three characters.
    assert!(StudentId::new("\u{e9}\u{e9}\u{e9}".to_string()).is_err());
    assert!(StudentId::from_string("000000".to_string()).is_ok());
}

#[test]
fn student_id_error_names_the_field() {
    match StudentId::new("12".to_string()) {
        Err(Error::UnprocessableEntity { errors }) => {
            assert_eq!(errors.messages("id"), Some(vec!["must be 6 digits".to_string()]));
            assert!(!errors.contains_key("grade"));
        }
        other => panic!("expected validation errors, got {:?}", other),
    }
}

#[test]
fn new_at_stamps_trims_and_lowers() {
    let student = Student::new_at(
        "123456".to_string(),
        "  John ".to_string(),
        "\tDoe\n".to_string(),
        " John.DOE@CSXLabs.edu ".to_string(),
        12,
        2036,
        Some("x".repeat(500)),
        2026,
        NOON,
    )
    .unwrap();
    assert_eq!(student.first_name, "John");
    assert_eq!(student.last_name, "Doe");
    assert_eq!(student.email, "john.doe@csxlabs.edu");
    assert_eq!(student.full_name(), "John Doe");
    assert_eq!(student.grade_level(), "Senior");
    assert_eq!(student.created_at, NOON);
    assert_eq!(student.updated_at, NOON);
    assert_eq!(student.special_accommodations, Some("x".repeat(500)));
}

#[test]
fn new_at_collects_every_complaint() {
    let errors = field_errors(Student::new_at(
        "12345".to_string(),
        "   ".to_string(),
        "D".repeat(51),
        "a@b".to_string(),
        13,
        2037,
        Some("x".repeat(501)),
        2026,
        NOON,
    ));
    assert_eq!(errors.messages("id"), Some(vec!["must be 6 digits".to_string()]));
    assert_eq!(errors.messages("first_name"), Some(vec!["cannot be empty".to_string()]));
    assert_eq!(
        errors.messages("last_name"),
        Some(vec!["cannot be longer than 50 characters".to_string()])
    );
    assert_eq!(
        errors.messages("email"),
        Some(vec!["must be a valid email address".to_string()])
    );
    assert_eq!(errors.messages("grade"), Some(vec!["must be between 9 and 12".to_string()]));
    assert_eq!(
        errors.messages("graduation_year"),
        Some(vec!["must be within a reasonable range".to_string()])
    );
    assert_eq!(
        errors.messages("special_accommodations"),
        Some(vec!["cannot be longer than 500 characters".to_string()])
    );
    assert!(!errors.is_empty());
}

#[test]
fn graduation_year_bounds() {
    assert!(john(9, 2026).is_ok());
    assert!(john(9, 2036).is_ok());
    let early = field_errors(john(9, 2025));
    assert!(early.contains_key("graduation_year"));
    assert!(!early.contains_key("grade"));
    let late = field_errors(john(9, 2037));
    assert!(late.contains_key("graduation_year"));
}

#[test]
fn graduation_year_near_the_end_of_the_range() {
    let result = Student::new_at(
        "123456".to_string(),
        "John".to_string(),
        "Doe".to_string(),
        "john.doe@csxlabs.edu".to_string(),
        9,
        65535,
        None,
        65530,
        NOON,
    );
    assert!(result.is_ok());
}

#[test]
fn grade_bounds() {
    assert!(field_errors(john(8, 2026)).contains_key("grade"));
    assert!(john(9, 2026).is_ok());
    assert!(john(12, 2026).is_ok());
    assert!(field_errors(john(13, 2026)).contains_key("grade"));
}

#[test]
fn name_length_counts_bytes() {
    let fits = Student::new_at(
        "123456".to_string(),
        "J".repeat(50),
        "Doe".to_string(),
        "john.doe@csxlabs.edu".to_string(),
        9,
        2026,
        None,
        2026,
        NOON,
    );
    assert!(fits.is_ok());
    // 26 two-byte characters take 52 bytes.
    let wide = field_errors(Student::new_at(
        "123456".to_string(),
        "\u{e9}".repeat(26),
        "Doe".to_string(),
        "john.doe@csxlabs.edu".to_string(),
        9,
        2026,
        None,
        2026,
        NOON,
    ));
    assert_eq!(
        wide.messages("first_name"),
        Some(vec!["cannot be longer than 50 characters".to_string()])
    );
}

#[test]
fn email_needs_an_at_sign_and_five_bytes() {
    let mut student = john(10, 2027).unwrap();
    assert_eq!(
        single_message(student.update_email("a@bc".to_string()), "email"),
        "must be a valid email address"
    );
    assert_eq!(
        single_message(student.update_email("no-at-sign.example".to_string()), "email"),
        "must be a valid email address"
    );
    assert_eq!(student.email, "john.doe@csxlabs.edu");
    assert!(student.update_email(" New@Example.ORG ".to_string()).is_ok());
    assert_eq!(student.email, "new@example.org");
    let long = format!("{}@x.org", "a".repeat(249));
    assert_eq!(long.len(), 255);
    assert!(student.update_email(long).is_err());
}

#[test]
fn update_grade_rejects_with_one_message() {
    let mut student = john(10, 2027).unwrap();
    assert_eq!(single_message(student.update_grade(8), "grade"), "must be between 9 and 12");
    assert_eq!(student.grade, 10);
}

#[test]
fn update_graduation_year_at_checks_the_range() {
    let mut student = john(10, 2027).unwrap();
    let later = Timestamp { seconds: 1_800_000_000, nanos: 0 };
    assert!(student.update_graduation_year_at(2030, 2026, later).is_ok());
    assert_eq!(student.graduation_year, 2030);
    assert_eq!(student.updated_at, later);
    assert_eq!(student.created_at, NOON);
    assert_eq!(
        single_message(student.update_graduation_year_at(2041, 2030, later), "graduation_year"),
        "must be within a reasonable range"
    );
    assert_eq!(student.graduation_year, 2030);
    assert!(student.update_graduation_year(1999).is_err());
}

#[test]
fn update_special_accommodations_rejects_long_text() {
    let mut student = john(10, 2027).unwrap();
    assert_eq!(
        single_message(
            student.update_special_accommodations(Some("x".repeat(501))),
            "special_accommodations"
        ),
        "cannot be longer than 500 characters"
    );
    assert_eq!(student.special_accommodations, None);
}

#[test]
fn grade_level_of_other_grades_is_a_number() {
    let mut student = john(9, 2026).unwrap();
    student.grade = 7;
    assert_eq!(student.grade_level(), "Grade 7");
    student.grade = 42;
    assert_eq!(student.grade_level(), "Grade 42");
    student.grade = 255;
    assert_eq!(student.grade_level(), "Grade 255");
    student.grade = 100;
    assert_eq!(student.grade_level(), "Grade 100");
    student.grade = 10;
    assert_eq!(student.grade_level(), "Sophomore");
}

#[test]
fn new_reads_the_clock() {
    let student = Student::new(
        "123456".to_string(),
        "John".to_string(),
        "Doe".to_string(),
        "john.doe@csxlabs.edu".to_string(),
        11,
        2030,
        None,
    )
    .unwrap();
    // Later than the first of January 2024, and stamped once.
    assert!(student.created_at.seconds > 1_704_067_200);
    assert!(student.created_at.nanos < 2_000_000_000);
    assert_eq!(student.created_at, student.updated_at);

    let long_ago = field_errors(Student::new(
        "123456".to_string(),
        "John".to_string(),
        "Doe".to_string(),
        "john.doe@csxlabs.edu".to_string(),
        11,
        1999,
        None,
    ));
    assert_eq!(
        long_ago.messages("graduation_year"),
        Some(vec!["must be within a reasonable range".to_string()])
    );
    assert_eq!(long_ago.keys(), vec!["graduation_year".to_string()]);
}

#[test]
fn updates_stamp_the_record() {
    let mut student = john(10, 2027).unwrap();
    assert_eq!(student.updated_at, NOON);
    assert!(student.update_grade(12).is_ok());
    assert!(student.updated_at.seconds > 1_704_067_200);
    assert_eq!(student.created_at, NOON);
    // A refused update leaves the stamp alone.
    let stamped = student.updated_at;
    assert!(student.update_grade(13).is_err());
    assert_eq!(student.updated_at, stamped);
}

#[test]
fn stamped_updates_set_the_time_of_the_update() {
    let mut student = john(10, 2027).unwrap();
    let one = Timestamp { seconds: 1_800_000_001, nanos: 1 };
    let two = Timestamp { seconds: 1_800_000_002, nanos: 2 };
    let three = Timestamp { seconds: 1_800_000_003, nanos: 3 };
    assert!(student.update_email_at("J@X.org".to_string(), one).is_ok());
    assert_eq!(student.email, "j@x.org");
    assert_eq!(student.updated_at, one);
    assert!(student.update_grade_at(9, two).is_ok());
    assert_eq!(student.grade, 9);
    assert_eq!(student.updated_at, two);
    assert!(student
        .update_special_accommodations_at(Some("Top row".to_string()), three)
        .is_ok());
    assert_eq!(student.special_accommodations, Some("Top row".to_string()));
    assert_eq!(student.updated_at, three);
    // Refused updates change nothing, the stamp included.
    assert!(student.update_email_at("nobody".to_string(), one).is_err());
    assert!(student.update_grade_at(0, one).is_err());
    assert!(student
        .update_special_accommodations_at(Some("y".repeat(501)), one)
        .is_err());
    assert_eq!(student.email, "j@x.org");
    assert_eq!(student.grade, 9);
    assert_eq!(student.special_accommodations, Some("Top row".to_string()));
    assert_eq!(student.updated_at, three);
    assert_eq!(student.created_at, NOON);
}

#[test]
fn names_are_trimmed_of_every_kind_of_whitespace() {
    let student = Student::new_at(
        "123456".to_string(),
        "\u{2003}\u{a0}Ana Mar\u{ed}a\u{3000}\u{85}".to_string(),
        "\u{1680}\u{2028}Doe\u{205f}\u{202f}\u{2029}\r\n".to_string(),
        "ana@csxlabs.edu".to_string(),
        9,
        2026,
        None,
        2026,
        NOON,
    )
    .unwrap();
    assert_eq!(student.first_name, "Ana Mar\u{ed}a");
    assert_eq!(student.last_name, "Doe");
    // A zero-width space is no whitespace.
    let kept = Student::new_at(
        "123456".to_string(),
        "\u{200b}".to_string(),
        "Doe".to_string(),
        "ana@csxlabs.edu".to_string(),
        9,
        2026,
        None,
        2026,
        NOON,
    )
    .unwrap();
    assert_eq!(kept.first_name, "\u{200b}");
    let blank = field_errors(Student::new_at(
        "123456".to_string(),
        "\u{2000}\u{200a}\t\u{b}\u{c}".to_string(),
        "Doe".to_string(),
        "ana@csxlabs.edu".to_string(),
        9,
        2026,
        None,
        2026,
        NOON,
    ));
    assert_eq!(blank.messages("first_name"), Some(vec!["cannot be empty".to_string()]));
    assert_eq!(blank.keys(), vec!["first_name".to_string()]);
}
