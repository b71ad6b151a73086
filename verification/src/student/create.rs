//! Student identifiers and student records, validated on the way in.

use vstd::prelude::*;
use vstd::utf8::encode_utf8;
use crate::http::error::with_message;
use crate::http::{Error, FieldErrors};
use crate::student::clock::{read_clock, Timestamp};
use crate::text::{
    byte_len, contains_text, decimal, decimal_string, lowercased, single_character_pattern,
    to_lowercase, trim, trimmed,
};

verus! {

/// A student identifier is exactly six ASCII decimal digits.
pub open spec fn valid_student_id(id: Seq<char>) -> bool {
    &&& id.len() == 6
    &&& forall|i: int| 0 <= i < id.len() ==> '0' <= #[trigger] id[i] && id[i] <= '9'
}

/// The collection that holds one message for one field.
pub open spec fn single_error(key: Seq<char>, message: Seq<char>) -> Map<Seq<char>, Seq<Seq<char>>> {
    with_message(Map::empty(), key, message)
}

/// A validated student identifier: six digits, such as `123456`.
#[derive(Debug, Clone)]
pub struct StudentId(String);

impl View for StudentId {
    type V = Seq<char>;

    closed spec fn view(&self) -> Seq<char> {
        self.0@
    }
}

impl StudentId {
    /// Accepts `id` exactly when it is six decimal digits; otherwise the
    /// error holds one message for the field `id`.
    pub fn new(id: String) -> (result: Result<StudentId, Error>)
        ensures
            valid_student_id(id@) ==> (result matches Ok(student_id) && student_id@ == id@),
            !valid_student_id(id@) ==> (result matches Err(Error::UnprocessableEntity { errors })
                && errors@ == single_error("id"@, "must be 6 digits"@) && errors.well_formed()),
    {
        if Self::is_valid(id.as_str()) {
            Ok(StudentId(id))
        } else {
            let mut errors = FieldErrors::new();
            errors.add("id".to_owned(), "must be 6 digits".to_owned());
            Err(Error::UnprocessableEntity { errors })
        }
    }

    fn is_valid(id: &str) -> (valid: bool)
        ensures
            valid == valid_student_id(id@),
    {
        if id.unicode_len() != 6 {
            return false;
        }
        let mut i: usize = 0;
        while i < 6
            invariant
                i <= 6,
                id@.len() == 6,
                forall|j: int| 0 <= j < i ==> '0' <= #[trigger] id@[j] && id@[j] <= '9',
            decreases 6 - i,
        {
            let c = id.get_char(i);
            if !('0' <= c && c <= '9') {
                return false;
            }
            i += 1;
        }
        true
    }

    /// The identifier as a string.
    pub fn to_string(&self) -> (text: String)
        ensures
            text@ == self@,
    {
        self.0.clone()
    }

    /// The same as [`StudentId::new`].
    pub fn from_string(id: String) -> (result: Result<StudentId, Error>)
        ensures
            valid_student_id(id@) ==> (result matches Ok(student_id) && student_id@ == id@),
            !valid_student_id(id@) ==> (result matches Err(Error::UnprocessableEntity { errors })
                && errors@ == single_error("id"@, "must be 6 digits"@) && errors.well_formed()),
    {
        Self::new(id)
    }
}

/// The message that a first or last name earns, if any: a name must hold
/// something besides whitespace and take at most 50 bytes.
pub open spec fn name_message(name: Seq<char>) -> Option<Seq<char>> {
    if trimmed(name).len() == 0 {
        Some("cannot be empty"@)
    } else if encode_utf8(name).len() > 50 {
        Some("cannot be longer than 50 characters"@)
    } else {
        None
    }
}

/// An email address holds an `@` and takes between 5 and 254 bytes.
pub open spec fn valid_email(email: Seq<char>) -> bool {
    &&& email.contains('@')
    &&& 5 <= encode_utf8(email).len() <= 254
}

/// High school grades run from 9 to 12.
pub open spec fn valid_grade(grade: u8) -> bool {
    9 <= grade <= 12
}

/// A graduation year lies between the current year and ten years after it.
pub open spec fn valid_graduation_year(year: u16, current_year: u16) -> bool {
    current_year <= year && year <= current_year + 10
}

/// Special accommodations, where given, take at most 500 bytes.
pub open spec fn valid_accommodations(accommodations: Option<String>) -> bool {
    match accommodations {
        Some(text) => encode_utf8(text@).len() <= 500,
        None => true,
    }
}

/// `errors` with `message` added under `key`, where there is a message.
pub open spec fn noted(
    errors: Map<Seq<char>, Seq<Seq<char>>>,
    key: Seq<char>,
    message: Option<Seq<char>>,
) -> Map<Seq<char>, Seq<Seq<char>>> {
    match message {
        Some(text) => with_message(errors, key, text),
        None => errors,
    }
}

/// `text` where `failed` holds, else nothing.
pub open spec fn message_if(failed: bool, text: Seq<char>) -> Option<Seq<char>> {
    if failed {
        Some(text)
    } else {
        None
    }
}

/// Every complaint about the fields of a new student, by field.
pub open spec fn validation_errors(
    id: Seq<char>,
    first_name: Seq<char>,
    last_name: Seq<char>,
    email: Seq<char>,
    grade: u8,
    graduation_year: u16,
    special_accommodations: Option<String>,
    current_year: u16,
) -> Map<Seq<char>, Seq<Seq<char>>> {
    let e0 = noted(Map::empty(), "id"@, message_if(!valid_student_id(id), "must be 6 digits"@));
    let e1 = noted(e0, "first_name"@, name_message(first_name));
    let e2 = noted(e1, "last_name"@, name_message(last_name));
    let e3 = noted(e2, "email"@, message_if(!valid_email(email), "must be a valid email address"@));
    let e4 = noted(e3, "grade"@, message_if(!valid_grade(grade), "must be between 9 and 12"@));
    let e5 = noted(
        e4,
        "graduation_year"@,
        message_if(
            !valid_graduation_year(graduation_year, current_year),
            "must be within a reasonable range"@,
        ),
    );
    noted(
        e5,
        "special_accommodations"@,
        message_if(
            !valid_accommodations(special_accommodations),
            "cannot be longer than 500 characters"@,
        ),
    )
}

/// The name of a grade: the four high school years by name, any other grade
/// by its number.
pub open spec fn grade_name(grade: u8) -> Seq<char> {
    if grade == 9 {
        "Freshman"@
    } else if grade == 10 {
        "Sophomore"@
    } else if grade == 11 {
        "Junior"@
    } else if grade == 12 {
        "Senior"@
    } else {
        "Grade "@ + decimal(grade as nat)
    }
}

/// A high school student, as far as assigning a locker needs to know them.
#[derive(Debug, Clone)]
pub struct Student {
    pub id: StudentId,
    pub first_name: String,
    pub last_name: String,
    pub email: String,
    /// 9 to 12.
    pub grade: u8,
    pub graduation_year: u16,
    /// Any special need for the locker assignment.
    pub special_accommodations: Option<String>,
    pub created_at: Timestamp,
    pub updated_at: Timestamp,
}

impl Student {
    /// What [`Student::new_at`] returns for the given fields, year and instant.
    pub open spec fn created(
        result: Result<Student, Error>,
        id: String,
        first_name: String,
        last_name: String,
        email: String,
        grade: u8,
        graduation_year: u16,
        special_accommodations: Option<String>,
        current_year: u16,
        now: Timestamp,
    ) -> bool {
        let problems = validation_errors(
            id@,
            first_name@,
            last_name@,
            email@,
            grade,
            graduation_year,
            special_accommodations,
            current_year,
        );
        match result {
            Ok(student) => {
                &&& problems == Map::<Seq<char>, Seq<Seq<char>>>::empty()
                &&& student.id@ == id@
                &&& student.first_name@ == trimmed(first_name@)
                &&& student.last_name@ == trimmed(last_name@)
                &&& student.email@ == lowercased(trimmed(email@))
                &&& student.grade == grade
                &&& student.graduation_year == graduation_year
                &&& student.special_accommodations == special_accommodations
                &&& student.created_at == now
                &&& student.updated_at == now
            },
            Err(Error::UnprocessableEntity { errors }) => {
                &&& problems != Map::<Seq<char>, Seq<Seq<char>>>::empty()
                &&& errors@ == problems
                &&& errors.well_formed()
            },
            Err(_) => false,
        }
    }

    /// A new student, validated against the current year: names are trimmed
    /// and the email is trimmed and put in lower case. Every field that fails
    /// contributes a message under its own name, and the student is created
    /// only if there is none.
    pub fn new(
        id: String,
        first_name: String,
        last_name: String,
        email: String,
        grade: u8,
        graduation_year: u16,
        special_accommodations: Option<String>,
    ) -> (result: Result<Student, Error>)
        ensures
            exists|current_year: u16, now: Timestamp|
                Student::created(
                    result,
                    id,
                    first_name,
                    last_name,
                    email,
                    grade,
                    graduation_year,
                    special_accommodations,
                    current_year,
                    now,
                ),
    {
        let clock = read_clock();
        Self::new_at(
            id,
            first_name,
            last_name,
            email,
            grade,
            graduation_year,
            special_accommodations,
            Self::year_of(clock.year),
            clock.instant,
        )
    }

    /// The year as the validation takes it: its lowest sixteen bits.
    fn year_of(year: i32) -> (low: u16)
        ensures
            low == year as u16,
            0 <= year <= 0xffff ==> low == year,
            low == (year as int) % 0x1_0000,
    {
        #[verifier::truncate]
        let low = year as u16;
        proof {
            let wide: u32 = year as u32;
            assert(year as u16 == (year as u32) % 0x1_0000u32) by (bit_vector);
            if year >= 0 {
                assert(wide == year);
            } else {
                assert(year as u32 == (year + 0x1_0000_0000) as u32) by (bit_vector);
                assert(wide == year + 0x1_0000_0000);
                assert((year + 0x1_0000_0000) % 0x1_0000 == (year as int) % 0x1_0000) by {
                    vstd::arithmetic::div_mod::lemma_mod_multiples_vanish(
                        0x1_0000,
                        year as int,
                        0x1_0000,
                    );
                }
            }
        }
        low
    }

    /// A new student, validated against `current_year` and stamped with
    /// `now`.
    pub fn new_at(
        id: String,
        first_name: String,
        last_name: String,
        email: String,
        grade: u8,
        graduation_year: u16,
        special_accommodations: Option<String>,
        current_year: u16,
        now: Timestamp,
    ) -> (result: Result<Student, Error>)
        ensures
            Student::created(
                result,
                id,
                first_name,
                last_name,
                email,
                grade,
                graduation_year,
                special_accommodations,
                current_year,
                now,
            ),
    {
        let mut errors = FieldErrors::new();
        let ghost id_text = id@;

        let student_id = match StudentId::new(id) {
            Ok(id) => Some(id),
            Err(_) => {
                errors.add("id".to_owned(), "must be 6 digits".to_owned());
                None
            },
        };

        Self::check_name(&mut errors, "first_name", first_name.as_str());
        Self::check_name(&mut errors, "last_name", last_name.as_str());

        if !Self::is_valid_email(email.as_str()) {
            errors.add("email".to_owned(), "must be a valid email address".to_owned());
        }
        if !Self::is_valid_grade(grade) {
            errors.add("grade".to_owned(), "must be between 9 and 12".to_owned());
        }
        if !Self::is_valid_graduation_year(graduation_year, current_year) {
            errors.add(
                "graduation_year".to_owned(),
                "must be within a reasonable range".to_owned(),
            );
        }
        if !Self::is_valid_accommodations(&special_accommodations) {
            errors.add(
                "special_accommodations".to_owned(),
                "cannot be longer than 500 characters".to_owned(),
            );
        }

        match student_id {
            Some(id) => if errors.is_empty() {
                Ok(
                    Student {
                        id,
                        first_name: trim(first_name.as_str()).to_owned(),
                        last_name: trim(last_name.as_str()).to_owned(),
                        email: to_lowercase(trim(email.as_str())),
                        grade,
                        graduation_year,
                        special_accommodations,
                        created_at: now,
                        updated_at: now,
                    },
                )
            } else {
                Err(Error::UnprocessableEntity { errors })
            },
            None => {
                proof {
                    // The complaint about the identifier is still there.
                    assert(errors@.contains_key("id"@));
                }
                Err(Error::UnprocessableEntity { errors })
            },
        }
    }

    fn check_name(errors: &mut FieldErrors, field: &str, name: &str)
        ensures
            final(errors)@ == noted(old(errors)@, field@, name_message(name@)),
            old(errors).well_formed() ==> final(errors).well_formed(),
    {
        if trim(name).is_empty() {
            errors.add(field.to_owned(), "cannot be empty".to_owned());
        } else if byte_len(name) > 50 {
            errors.add(field.to_owned(), "cannot be longer than 50 characters".to_owned());
        }
    }

    fn is_valid_grade(grade: u8) -> (valid: bool)
        ensures
            valid == valid_grade(grade),
    {
        9 <= grade && grade <= 12
    }

    fn is_valid_graduation_year(year: u16, current_year: u16) -> (valid: bool)
        ensures
            valid == valid_graduation_year(year, current_year),
    {
        current_year <= year && year - current_year <= 10
    }

    fn is_valid_accommodations(accommodations: &Option<String>) -> (valid: bool)
        ensures
            valid == valid_accommodations(*accommodations),
    {
        match accommodations {
            Some(text) => byte_len(text.as_str()) <= 500,
            None => true,
        }
    }

    fn is_valid_email(email: &str) -> (valid: bool)
        ensures
            valid == valid_email(email@),
    {
        proof {
            reveal_strlit("@");
            assert("@"@ =~= seq!['@']);
            single_character_pattern(email@, '@');
        }
        contains_text(email, "@") && byte_len(email) >= 5 && byte_len(email) <= 254
    }

    /// First and last name, with one space between them.
    pub fn full_name(&self) -> (name: String)
        ensures
            name@ == self.first_name@ + " "@ + self.last_name@,
    {
        self.first_name.clone().concat(" ").concat(self.last_name.as_str())
    }

    /// The name of the student's grade.
    pub fn grade_level(&self) -> (level: String)
        ensures
            level@ == grade_name(self.grade),
    {
        match self.grade {
            9 => "Freshman".to_owned(),
            10 => "Sophomore".to_owned(),
            11 => "Junior".to_owned(),
            12 => "Senior".to_owned(),
            _ => {
                let number = decimal_string(self.grade as u64);
                "Grade ".to_owned().concat(number.as_str())
            },
        }
    }

    /// Whether `self` and `other` agree in every field but the email and
    /// the time of the last update.
    pub open spec fn same_but_email(self, other: Student) -> bool {
        &&& self.id == other.id
        &&& self.first_name == other.first_name
        &&& self.last_name == other.last_name
        &&& self.grade == other.grade
        &&& self.graduation_year == other.graduation_year
        &&& self.special_accommodations == other.special_accommodations
        &&& self.created_at == other.created_at
    }

    /// Whether `self` and `other` agree in every field but the grade and
    /// the time of the last update.
    pub open spec fn same_but_grade(self, other: Student) -> bool {
        &&& self.id == other.id
        &&& self.first_name == other.first_name
        &&& self.last_name == other.last_name
        &&& self.email == other.email
        &&& self.graduation_year == other.graduation_year
        &&& self.special_accommodations == other.special_accommodations
        &&& self.created_at == other.created_at
    }

    /// Whether `self` and `other` agree in every field but the graduation
    /// year and the time of the last update.
    pub open spec fn same_but_graduation_year(self, other: Student) -> bool {
        &&& self.id == other.id
        &&& self.first_name == other.first_name
        &&& self.last_name == other.last_name
        &&& self.email == other.email
        &&& self.grade == other.grade
        &&& self.special_accommodations == other.special_accommodations
        &&& self.created_at == other.created_at
    }

    /// Whether `self` and `other` agree in every field but the special
    /// accommodations and the time of the last update.
    pub open spec fn same_but_accommodations(self, other: Student) -> bool {
        &&& self.id == other.id
        &&& self.first_name == other.first_name
        &&& self.last_name == other.last_name
        &&& self.email == other.email
        &&& self.grade == other.grade
        &&& self.graduation_year == other.graduation_year
        &&& self.created_at == other.created_at
    }

    /// Whether `result` is the validation error with one message for one
    /// field, in a collection that meets its invariant.
    pub open spec fn rejected(result: Result<(), Error>, key: Seq<char>, message: Seq<char>) -> bool {
        result matches Err(Error::UnprocessableEntity { errors }) && errors@ == single_error(
            key,
            message,
        ) && errors.well_formed()
    }

    fn rejection(key: &str, message: &str) -> (result: Result<(), Error>)
        ensures
            Student::rejected(result, key@, message@),
    {
        let mut pairs: Vec<(String, String)> = Vec::new();
        pairs.push((key.to_owned(), message.to_owned()));
        proof {
            reveal_with_fuel(crate::http::error::collected, 2);
            assert(pairs@.drop_last() =~= Seq::<(String, String)>::empty());
        }
        Err(Error::unprocessable_entity(pairs))
    }

    /// What [`Student::update_email_at`] does for the given address and
    /// instant.
    pub open spec fn email_updated(
        before: Student,
        after: Student,
        result: Result<(), Error>,
        new_email: Seq<char>,
        now: Timestamp,
    ) -> bool {
        if valid_email(new_email) {
            &&& result is Ok
            &&& after.email@ == lowercased(trimmed(new_email))
            &&& after.updated_at == now
            &&& after.same_but_email(before)
        } else {
            &&& after == before
            &&& Student::rejected(result, "email"@, "must be a valid email address"@)
        }
    }

    /// Replaces the email by `new_email`, trimmed and in lower case, if it is
    /// a valid address; otherwise nothing changes and the error holds one
    /// message for the field `email`.
    pub fn update_email(&mut self, new_email: String) -> (result: Result<(), Error>)
        ensures
            exists|now: Timestamp|
                Student::email_updated(*old(self), *final(self), result, new_email@, now),
    {
        let clock = read_clock();
        self.update_email_at(new_email, clock.instant)
    }

    /// The same as [`Student::update_email`], stamped with `now`.
    pub fn update_email_at(
        &mut self,
        new_email: String,
        now: Timestamp,
    ) -> (result: Result<(), Error>)
        ensures
            Student::email_updated(*old(self), *final(self), result, new_email@, now),
    {
        if !Self::is_valid_email(new_email.as_str()) {
            return Self::rejection("email", "must be a valid email address");
        }
        self.email = to_lowercase(trim(new_email.as_str()));
        self.updated_at = now;
        Ok(())
    }

    /// What [`Student::update_grade_at`] does for the given grade and
    /// instant.
    pub open spec fn grade_updated(
        before: Student,
        after: Student,
        result: Result<(), Error>,
        new_grade: u8,
        now: Timestamp,
    ) -> bool {
        if valid_grade(new_grade) {
            &&& result is Ok
            &&& after.grade == new_grade
            &&& after.updated_at == now
            &&& after.same_but_grade(before)
        } else {
            &&& after == before
            &&& Student::rejected(result, "grade"@, "must be between 9 and 12"@)
        }
    }

    /// Replaces the grade by `new_grade` if it is between 9 and 12; otherwise
    /// nothing changes and the error holds one message for the field `grade`.
    pub fn update_grade(&mut self, new_grade: u8) -> (result: Result<(), Error>)
        ensures
            exists|now: Timestamp|
                Student::grade_updated(*old(self), *final(self), result, new_grade, now),
    {
        let clock = read_clock();
        self.update_grade_at(new_grade, clock.instant)
    }

    /// The same as [`Student::update_grade`], stamped with `now`.
    pub fn update_grade_at(&mut self, new_grade: u8, now: Timestamp) -> (result: Result<(), Error>)
        ensures
            Student::grade_updated(*old(self), *final(self), result, new_grade, now),
    {
        if !Self::is_valid_grade(new_grade) {
            return Self::rejection("grade", "must be between 9 and 12");
        }
        self.grade = new_grade;
        self.updated_at = now;
        Ok(())
    }

    /// What [`Student::update_graduation_year_at`] does for the given year,
    /// current year and instant.
    pub open spec fn graduation_year_updated(
        before: Student,
        after: Student,
        result: Result<(), Error>,
        new_graduation_year: u16,
        current_year: u16,
        now: Timestamp,
    ) -> bool {
        if valid_graduation_year(new_graduation_year, current_year) {
            &&& result is Ok
            &&& after.graduation_year == new_graduation_year
            &&& after.updated_at == now
            &&& after.same_but_graduation_year(before)
        } else {
            &&& after == before
            &&& Student::rejected(
                result,
                "graduation_year"@,
                "must be within a reasonable range"@,
            )
        }
    }

    /// Replaces the graduation year by `new_graduation_year` if it lies
    /// between the current year and ten years after it; otherwise nothing
    /// changes and the error holds one message for the field
    /// `graduation_year`.
    pub fn update_graduation_year(
        &mut self,
        new_graduation_year: u16,
    ) -> (result: Result<(), Error>)
        ensures
            exists|current_year: u16, now: Timestamp|
                Student::graduation_year_updated(
                    *old(self),
                    *final(self),
                    result,
                    new_graduation_year,
                    current_year,
                    now,
                ),
    {
        let clock = read_clock();
        self.update_graduation_year_at(
            new_graduation_year,
            Self::year_of(clock.year),
            clock.instant,
        )
    }

    /// The same as [`Student::update_graduation_year`], against
    /// `current_year` and stamped with `now`.
    pub fn update_graduation_year_at(
        &mut self,
        new_graduation_year: u16,
        current_year: u16,
        now: Timestamp,
    ) -> (result: Result<(), Error>)
        ensures
            Student::graduation_year_updated(
                *old(self),
                *final(self),
                result,
                new_graduation_year,
                current_year,
                now,
            ),
    {
        if !Self::is_valid_graduation_year(new_graduation_year, current_year) {
            return Self::rejection("graduation_year", "must be within a reasonable range");
        }
        self.graduation_year = new_graduation_year;
        self.updated_at = now;
        Ok(())
    }

    /// What [`Student::update_special_accommodations_at`] does for the given
    /// accommodations and instant.
    pub open spec fn accommodations_updated(
        before: Student,
        after: Student,
        result: Result<(), Error>,
        new_accommodations: Option<String>,
        now: Timestamp,
    ) -> bool {
        if valid_accommodations(new_accommodations) {
            &&& result is Ok
            &&& after.special_accommodations == new_accommodations
            &&& after.updated_at == now
            &&& after.same_but_accommodations(before)
        } else {
            &&& after == before
            &&& Student::rejected(
                result,
                "special_accommodations"@,
                "cannot be longer than 500 characters"@,
            )
        }
    }

    /// Replaces the special accommodations by `new_accommodations` if they
    /// take at most 500 bytes, or are none; otherwise nothing changes and the
    /// error holds one message for the field `special_accommodations`.
    pub fn update_special_accommodations(
        &mut self,
        new_accommodations: Option<String>,
    ) -> (result: Result<(), Error>)
        ensures
            exists|now: Timestamp|
                Student::accommodations_updated(
                    *old(self),
                    *final(self),
                    result,
                    new_accommodations,
                    now,
                ),
    {
        let clock = read_clock();
        self.update_special_accommodations_at(new_accommodations, clock.instant)
    }

    /// The same as [`Student::update_special_accommodations`], stamped with
    /// `now`.
    pub fn update_special_accommodations_at(
        &mut self,
        new_accommodations: Option<String>,
        now: Timestamp,
    ) -> (result: Result<(), Error>)
        ensures
            Student::accommodations_updated(
                *old(self),
                *final(self),
                result,
                new_accommodations,
                now,
            ),
    {
        if !Self::is_valid_accommodations(&new_accommodations) {
            return Self::rejection(
                "special_accommodations",
                "cannot be longer than 500 characters",
            );
        }
        self.special_accommodations = new_accommodations;
        self.updated_at = now;
        Ok(())
    }
}

} // verus!
