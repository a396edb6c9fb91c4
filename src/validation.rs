//! Field rules for cats and users. A failed check yields one error per field
//! that broke its rule, in the order in which the fields are declared.
use vstd::prelude::*;
use crate::entities::{CreateCatPayload, CreateCatRequest, CreateUser, LoginUser};
use crate::text::{append_str, chars_of, str_eq};

verus! {

/// The name of a field that broke its rule, and why.
pub struct FieldError {
    pub field: String,
    pub message: String,
}

impl View for FieldError {
    type V = (Seq<char>, Seq<char>);

    open spec fn view(&self) -> (Seq<char>, Seq<char>) {
        (self.field@, self.message@)
    }
}

/// Every rule that a request broke.
pub struct ValidationErrors {
    pub errors: Vec<FieldError>,
}

impl View for ValidationErrors {
    type V = Seq<(Seq<char>, Seq<char>)>;

    open spec fn view(&self) -> Seq<(Seq<char>, Seq<char>)> {
        self.errors@.map_values(|e: FieldError| e@)
    }
}

/// Whether `url::Url::parse` accepts `s`.
pub uninterp spec fn url_parses(s: Seq<char>) -> bool;

/// Whether `validator::validate_email` accepts `s`.
pub uninterp spec fn email_accepted(s: Seq<char>) -> bool;

/// Relies on `url::Url::parse`: whether the text is a well-formed absolute URL.
#[verifier::external_body]
fn url_is_valid(s: &str) -> (r: bool)
    ensures
        r == url_parses(s@),
{
    url::Url::parse(s).is_ok()
}

/// Relies on `validator::validate_email`: whether the text is an email
/// address; an empty text, or one without `@`, is not one.
#[verifier::external_body]
fn email_is_valid(s: &str) -> (r: bool)
    ensures
        r == email_accepted(s@),
        s@.len() == 0 ==> !r,
        !s@.contains('@') ==> !r,
{
    validator::validate_email(s)
}

/// The breeds that a cat may have.
pub open spec fn is_valid_race(s: Seq<char>) -> bool {
    ||| s == "Persian"@
    ||| s == "Maine Coon"@
    ||| s == "Siamese"@
    ||| s == "Ragdoll"@
    ||| s == "Bengal"@
    ||| s == "Sphynx"@
    ||| s == "British Shorthair"@
    ||| s == "Abyssinian"@
    ||| s == "Scottish Fold"@
    ||| s == "Birman"@
}

pub open spec fn is_valid_sex(s: Seq<char>) -> bool {
    s == "male"@ || s == "female"@
}

pub open spec fn all_urls_valid(urls: Seq<String>) -> bool {
    forall|i: int| 0 <= i < urls.len() ==> url_parses(#[trigger] urls[i]@)
}

pub open spec fn length_within(s: Seq<char>, lo: int, hi: int) -> bool {
    lo <= s.len() <= hi
}

/// No error where `ok` holds, else one error for `field`.
pub open spec fn check(ok: bool, field: Seq<char>, message: Seq<char>) -> Seq<(Seq<char>, Seq<char>)> {
    if ok {
        seq![]
    } else {
        seq![(field, message)]
    }
}

/// The errors of a cat's fields.
pub open spec fn cat_errors(
    name: Seq<char>,
    race: Seq<char>,
    sex: Seq<char>,
    age_in_month: int,
    description: Seq<char>,
    img_urls: Seq<String>,
) -> Seq<(Seq<char>, Seq<char>)> {
    check(length_within(name, 1, 30), "name"@, "length"@)
        + check(is_valid_race(race), "race"@, "invalid race"@)
        + check(is_valid_sex(sex), "sex"@, "invalid sex"@)
        + check(1 <= age_in_month <= 120082, "age_in_month"@, "range"@)
        + check(length_within(description, 1, 200), "description"@, "length"@)
        + check(all_urls_valid(img_urls), "img_urls"@, "invalid url"@)
}

pub open spec fn user_errors(email: Seq<char>, name: Seq<char>, password: Seq<char>) -> Seq<
    (Seq<char>, Seq<char>),
> {
    check(email_accepted(email), "email"@, "Invalid email"@)
        + check(length_within(name, 5, 50), "name"@, "Name must be between 5 and 50 characters"@)
        + check(
        length_within(password, 5, 15),
        "password"@,
        "Password must be between 5 and 15 characters"@,
    )
}

pub open spec fn login_errors(email: Seq<char>, password: Seq<char>) -> Seq<(Seq<char>, Seq<char>)> {
    check(email_accepted(email), "email"@, "Invalid email"@) + check(
        length_within(password, 5, 15),
        "password"@,
        "Password must be between 5 and 15 characters"@,
    )
}

/// `Ok` where there is no error, else all of them.
pub open spec fn outcome_of(r: Result<(), ValidationErrors>, errs: Seq<(Seq<char>, Seq<char>)>) -> bool {
    &&& r is Ok <==> errs.len() == 0
    &&& r matches Err(e) ==> e@ == errs
}

/// One line of the message: the field and its error.
pub open spec fn error_line(e: (Seq<char>, Seq<char>)) -> Seq<char> {
    "Field: "@ + e.0 + ", Errors: "@ + e.1
}

/// The lines of all errors, separated by a comma and a space.
pub open spec fn joined_lines(errs: Seq<(Seq<char>, Seq<char>)>) -> Seq<char>
    decreases errs.len(),
{
    if errs.len() == 0 {
        seq![]
    } else if errs.len() == 1 {
        error_line(errs[0])
    } else {
        joined_lines(errs.drop_last()) + ", "@ + error_line(errs.last())
    }
}

/// Number of characters of `s`.
pub fn char_count(s: &str) -> (r: usize)
    ensures
        r == s@.len(),
{
    chars_of(s).len()
}

pub fn validate_race(race: &str) -> (r: bool)
    ensures
        r == is_valid_race(race@),
{
    str_eq(race, "Persian") || str_eq(race, "Maine Coon") || str_eq(race, "Siamese")
        || str_eq(race, "Ragdoll") || str_eq(race, "Bengal") || str_eq(race, "Sphynx")
        || str_eq(race, "British Shorthair") || str_eq(race, "Abyssinian")
        || str_eq(race, "Scottish Fold") || str_eq(race, "Birman")
}

pub fn validate_sex(sex: &str) -> (r: bool)
    ensures
        r == is_valid_sex(sex@),
{
    str_eq(sex, "male") || str_eq(sex, "female")
}

pub fn validate_image_urls(image_urls: &Vec<String>) -> (r: bool)
    ensures
        r == all_urls_valid(image_urls@),
{
    let mut i: usize = 0;
    while i < image_urls.len()
        invariant
            i <= image_urls.len(),
            forall|j: int| 0 <= j < i ==> url_parses(#[trigger] image_urls@[j]@),
        decreases image_urls.len() - i,
    {
        if !url_is_valid(image_urls[i].as_str()) {
            return false;
        }
        i = i + 1;
    }
    true
}

/// Adds an error for `field` unless `ok`.
fn push_check(errs: &mut Vec<FieldError>, ok: bool, field: &str, message: &str)
    ensures
        final(errs)@.map_values(|e: FieldError| e@) == old(errs)@.map_values(|e: FieldError| e@)
            + check(ok, field@, message@),
{
    if !ok {
        errs.push(FieldError { field: field.to_owned(), message: message.to_owned() });
    }
    assert(final(errs)@.map_values(|e: FieldError| e@) =~= old(errs)@.map_values(|e: FieldError| e@)
        + check(ok, field@, message@));
}

fn errors_of(errs: Vec<FieldError>) -> (r: Result<(), ValidationErrors>)
    ensures
        outcome_of(r, errs@.map_values(|e: FieldError| e@)),
{
    if errs.len() == 0 {
        Ok(())
    } else {
        Err(ValidationErrors { errors: errs })
    }
}

fn cat_field_errors(
    name: &str,
    race: &str,
    sex: &str,
    age_in_month: i32,
    description: &str,
    img_urls: &Vec<String>,
) -> (r: Result<(), ValidationErrors>)
    ensures
        outcome_of(r, cat_errors(name@, race@, sex@, age_in_month as int, description@, img_urls@)),
{
    let mut errs: Vec<FieldError> = Vec::new();
    let n = char_count(name);
    push_check(&mut errs, 1 <= n && n <= 30, "name", "length");
    push_check(&mut errs, validate_race(race), "race", "invalid race");
    push_check(&mut errs, validate_sex(sex), "sex", "invalid sex");
    push_check(&mut errs, 1 <= age_in_month && age_in_month <= 120082, "age_in_month", "range");
    let d = char_count(description);
    push_check(&mut errs, 1 <= d && d <= 200, "description", "length");
    push_check(&mut errs, validate_image_urls(img_urls), "img_urls", "invalid url");
    errors_of(errs)
}

impl CreateCatRequest {
    /// Checks every field of the cat.
    pub fn validate(&self) -> (r: Result<(), ValidationErrors>)
        ensures
            outcome_of(
                r,
                cat_errors(
                    self.name@,
                    self.race@,
                    self.sex@,
                    self.age_in_month as int,
                    self.description@,
                    self.img_urls@,
                ),
            ),
    {
        cat_field_errors(
            self.name.as_str(),
            self.race.as_str(),
            self.sex.as_str(),
            self.age_in_month,
            self.description.as_str(),
            &self.img_urls,
        )
    }
}

impl CreateCatPayload {
    /// Checks every field of the cat; the owner is not checked.
    pub fn validate(&self) -> (r: Result<(), ValidationErrors>)
        ensures
            outcome_of(
                r,
                cat_errors(
                    self.name@,
                    self.race@,
                    self.sex@,
                    self.age_in_month as int,
                    self.description@,
                    self.img_urls@,
                ),
            ),
    {
        cat_field_errors(
            self.name.as_str(),
            self.race.as_str(),
            self.sex.as_str(),
            self.age_in_month,
            self.description.as_str(),
            &self.img_urls,
        )
    }
}

impl CreateUser {
    /// Checks the email, the name and the password.
    pub fn validate(&self) -> (r: Result<(), ValidationErrors>)
        ensures
            outcome_of(r, user_errors(self.email@, self.name@, self.password@)),
    {
        let mut errs: Vec<FieldError> = Vec::new();
        push_check(&mut errs, email_is_valid(self.email.as_str()), "email", "Invalid email");
        let n = char_count(self.name.as_str());
        push_check(
            &mut errs,
            5 <= n && n <= 50,
            "name",
            "Name must be between 5 and 50 characters",
        );
        let p = char_count(self.password.as_str());
        push_check(
            &mut errs,
            5 <= p && p <= 15,
            "password",
            "Password must be between 5 and 15 characters",
        );
        errors_of(errs)
    }
}

impl LoginUser {
    /// Checks the email and the password.
    pub fn validate(&self) -> (r: Result<(), ValidationErrors>)
        ensures
            outcome_of(r, login_errors(self.email@, self.password@)),
    {
        let mut errs: Vec<FieldError> = Vec::new();
        push_check(&mut errs, email_is_valid(self.email.as_str()), "email", "Invalid email");
        let p = char_count(self.password.as_str());
        push_check(
            &mut errs,
            5 <= p && p <= 15,
            "password",
            "Password must be between 5 and 15 characters",
        );
        errors_of(errs)
    }
}

impl ValidationErrors {
    /// One line per error, `Field: <field>, Errors: <message>`, joined by `, `.
    pub fn message(&self) -> (r: String)
        ensures
            r@ == joined_lines(self@),
    {
        let mut s = String::new();
        let mut i: usize = 0;
        while i < self.errors.len()
            invariant
                i <= self.errors.len(),
                s@ == joined_lines(self@.subrange(0, i as int)),
            decreases self.errors.len() - i,
        {
            let e = &self.errors[i];
            if i > 0 {
                append_str(&mut s, ", ");
            }
            append_str(&mut s, "Field: ");
            append_str(&mut s, e.field.as_str());
            append_str(&mut s, ", Errors: ");
            append_str(&mut s, e.message.as_str());
            proof {
                let prefix = self@.subrange(0, i + 1);
                assert(prefix.drop_last() =~= self@.subrange(0, i as int));
                assert(prefix.last() == e@);
            }
            i = i + 1;
        }
        assert(self@.subrange(0, self.errors.len() as int) =~= self@);
        s
    }
}

} // verus!
