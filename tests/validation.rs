use cat_match::entities::{CreateCatPayload, CreateCatRequest, CreateUser, LoginUser};
use cat_match::validation::{validate_image_urls, validate_race, validate_sex, ValidationErrors};

fn good_cat() -> CreateCatRequest {
    CreateCatRequest {
        name: "Tom".to_string(),
        race: "Maine Coon".to_string(),
        sex: "male".to_string(),
        age_in_month: 12,
        description: "A friendly cat".to_string(),
        img_urls: vec!["https://example.com/tom.png".to_string()],
    }
}

fn fields(e: &ValidationErrors) -> Vec<String> {
    e.errors.iter().map(|f| f.field.clone()).collect()
}

#[test]
fn valid_cat_passes() {
    assert!(good_cat().validate().is_ok());
}

#[test]
fn every_listed_race_is_valid() {
    for r in [
        "Persian",
        "Maine Coon",
        "Siamese",
        "Ragdoll",
        "Bengal",
        "Sphynx",
        "British Shorthair",
        "Abyssinian",
        "Scottish Fold",
        "Birman",
    ] {
        assert!(validate_race(r), "{}", r);
    }
    assert!(!validate_race("persian"));
    assert!(!validate_race("Tabby"));
    assert!(!validate_race(""));
}

#[test]
fn sex_is_male_or_female() {
    assert!(validate_sex("male"));
    assert!(validate_sex("female"));
    assert!(!validate_sex("Male"));
    assert!(!validate_sex(""));
}

#[test]
fn image_urls_must_parse() {
    assert!(validate_image_urls(&vec![]));
    assert!(validate_image_urls(&vec!["https://example.com/a.jpg".to_string()]));
    assert!(!validate_image_urls(&vec![
        "https://example.com/a.jpg".to_string(),
        "not a url".to_string()
    ]));
}

#[test]
fn age_bounds() {
    let mut c = good_cat();
    c.age_in_month = 1;
    assert!(c.validate().is_ok());
    c.age_in_month = 120082;
    assert!(c.validate().is_ok());
    c.age_in_month = 0;
    assert_eq!(fields(&c.validate().unwrap_err()), vec!["age_in_month"]);
    c.age_in_month = 120083;
    assert_eq!(fields(&c.validate().unwrap_err()), vec!["age_in_month"]);
}

#[test]
fn name_and_description_lengths() {
    let mut c = good_cat();
    c.name = "".to_string();
    c.description = "d".repeat(201);
    assert_eq!(fields(&c.validate().unwrap_err()), vec!["name", "description"]);
    c.name = "n".repeat(30);
    c.description = "é".repeat(200);
    assert!(c.validate().is_ok());
    c.name = "n".repeat(31);
    assert_eq!(fields(&c.validate().unwrap_err()), vec!["name"]);
}

#[test]
fn errors_come_in_field_order_with_message() {
    let mut c = good_cat();
    c.race = "Tabby".to_string();
    c.sex = "other".to_string();
    c.img_urls = vec!["::".to_string()];
    let e = c.validate().unwrap_err();
    assert_eq!(fields(&e), vec!["race", "sex", "img_urls"]);
    assert_eq!(
        e.message(),
        "Field: race, Errors: invalid race, Field: sex, Errors: invalid sex, Field: img_urls, Errors: invalid url"
    );
}

#[test]
fn payload_checks_like_request() {
    let p = CreateCatPayload {
        name: "Tom".to_string(),
        race: "Bengal".to_string(),
        sex: "female".to_string(),
        age_in_month: -3,
        description: "x".to_string(),
        img_urls: vec![],
        user_id: 7,
    };
    assert_eq!(fields(&p.validate().unwrap_err()), vec!["age_in_month"]);
}

#[test]
fn short_password_names_password_field() {
    let u = CreateUser {
        email: "alice@example.com".to_string(),
        name: "Alice Smith".to_string(),
        password: "abc".to_string(),
    };
    let e = u.validate().unwrap_err();
    assert_eq!(fields(&e), vec!["password"]);
    assert_eq!(
        e.message(),
        "Field: password, Errors: Password must be between 5 and 15 characters"
    );
}

#[test]
fn registration_rules() {
    let ok = CreateUser {
        email: "alice@example.com".to_string(),
        name: "Alice".to_string(),
        password: "secret".to_string(),
    };
    assert!(ok.validate().is_ok());
    let bad = CreateUser {
        email: "not-an-email".to_string(),
        name: "Al".to_string(),
        password: "p".repeat(16),
    };
    let e = bad.validate().unwrap_err();
    assert_eq!(fields(&e), vec!["email", "name", "password"]);
    assert_eq!(e.errors[0].message, "Invalid email");
    assert_eq!(e.errors[1].message, "Name must be between 5 and 50 characters");
}

#[test]
fn login_rules() {
    let ok = LoginUser { email: "bob@example.com".to_string(), password: "hunter22".to_string() };
    assert!(ok.validate().is_ok());
    let bad = LoginUser { email: "".to_string(), password: "hunter22".to_string() };
    assert_eq!(fields(&bad.validate().unwrap_err()), vec!["email"]);
}
