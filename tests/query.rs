use cat_match::entities::{Cat, CreateCatPayload, CreateUser, FilterCat, FilterUser};
use cat_match::query::{
    cat_listing_query, cat_response_of, delete_cat_statement, find_one_cat_statement,
    insert_cat_statement, insert_user_statement, parse_age_filter, update_cat_statement,
    user_lookup_query, AgeFilter, AgeOp, QueryError, QueryPart, SqlValue,
};

/// The text with `$n` placeholders, and the bound values as text.
fn render(parts: &[QueryPart]) -> (String, Vec<String>) {
    let mut sql = String::new();
    let mut binds = Vec::new();
    for p in parts {
        match p {
            QueryPart::Sql(s) => sql.push_str(s),
            QueryPart::Bind(v) => {
                binds.push(match v {
                    SqlValue::Int(i) => i.to_string(),
                    SqlValue::OptInt(o) => format!("{:?}", o),
                    SqlValue::Text(t) => t.clone(),
                    SqlValue::TextList(l) => format!("{:?}", l),
                });
                sql.push_str(&format!("${}", binds.len()));
            }
        }
    }
    (sql, binds)
}

const SELECT: &str = "SELECT id, name, race, sex, age_in_month, description, img_urls, created_at, user_id FROM cats WHERE 1=1";

#[test]
fn age_filter_greater_less_exact() {
    assert_eq!(parse_age_filter(">12"), Ok(AgeFilter { op: AgeOp::Greater, value: 12 }));
    assert_eq!(parse_age_filter("<12"), Ok(AgeFilter { op: AgeOp::Less, value: 12 }));
    assert_eq!(parse_age_filter("12"), Ok(AgeFilter { op: AgeOp::Equal, value: 12 }));
    assert_eq!(parse_age_filter("7"), Ok(AgeFilter { op: AgeOp::Equal, value: 7 }));
}

#[test]
fn age_filter_rejects_non_numbers() {
    assert_eq!(parse_age_filter(""), Err(QueryError::InvalidAge));
    assert_eq!(parse_age_filter(">"), Err(QueryError::InvalidAge));
    assert_eq!(parse_age_filter(">x"), Err(QueryError::InvalidAge));
    assert_eq!(parse_age_filter("=12"), Err(QueryError::InvalidAge));
}

#[test]
fn default_filter_lists_five_newest() {
    let f = FilterCat::default();
    assert_eq!(f.limit, 5);
    assert_eq!(f.offset, 0);
    let (sql, binds) = render(&cat_listing_query(&f).unwrap());
    assert_eq!(sql, format!("{} ORDER BY created_at DESC LIMIT $1 OFFSET $2", SELECT));
    assert_eq!(binds, vec!["5", "0"]);
}

#[test]
fn every_predicate_in_order() {
    let f = FilterCat {
        id: Some(3),
        limit: 10,
        offset: 20,
        race: Some("Bengal".to_string()),
        sex: Some("female".to_string()),
        age_in_month: Some(">12".to_string()),
        has_matched: Some(true),
        owned: Some(true),
        search: Some("Tom".to_string()),
        user_id: Some(9),
    };
    let (sql, binds) = render(&cat_listing_query(&f).unwrap());
    assert_eq!(
        sql,
        format!(
            "{} AND id = $1 AND name = $2 AND race = $3 AND sex = $4 AND age_in_month > $5 AND user_id = $6 ORDER BY created_at DESC LIMIT $7 OFFSET $8",
            SELECT
        )
    );
    assert_eq!(binds, vec!["3", "Tom", "Bengal", "female", "12", "Some(9)", "10", "20"]);
}

#[test]
fn less_and_exact_age_predicates() {
    let mut f = FilterCat::default();
    f.age_in_month = Some("<12".to_string());
    let (sql, binds) = render(&cat_listing_query(&f).unwrap());
    assert!(sql.contains(" AND age_in_month < $1 "));
    assert_eq!(binds[0], "12");
    f.age_in_month = Some("12".to_string());
    let (sql, binds) = render(&cat_listing_query(&f).unwrap());
    assert!(sql.contains(" AND age_in_month = $1 "));
    assert_eq!(binds[0], "12");
}

#[test]
fn unreadable_age_fails_listing() {
    let mut f = FilterCat::default();
    f.age_in_month = Some("old".to_string());
    assert!(matches!(cat_listing_query(&f), Err(QueryError::InvalidAge)));
}

#[test]
fn non_positive_id_is_ignored() {
    let mut f = FilterCat::default();
    f.id = Some(0);
    let (sql, _) = render(&cat_listing_query(&f).unwrap());
    assert!(!sql.contains("id = "));
}

#[test]
fn owned_presence_not_truth_scopes_to_caller() {
    let mut f = FilterCat::default();
    f.owned = Some(false);
    f.user_id = Some(4);
    let (sql, binds) = render(&cat_listing_query(&f).unwrap());
    assert!(sql.contains(" AND user_id = $1 "));
    assert_eq!(binds[0], "Some(4)");
}

#[test]
fn user_lookup_by_email() {
    let f = FilterUser { id: Some(0), name: None, email: Some("a@b.co".to_string()) };
    let (sql, binds) = render(&user_lookup_query(&f));
    assert_eq!(sql, "SELECT id, name, email, password FROM users WHERE 1=1 AND email = $1 LIMIT 1");
    assert_eq!(binds, vec!["a@b.co"]);
    let f = FilterUser { id: Some(2), name: Some("Ann".to_string()), email: None };
    let (sql, binds) = render(&user_lookup_query(&f));
    assert_eq!(
        sql,
        "SELECT id, name, email, password FROM users WHERE 1=1 AND id = $1 AND name = $2 LIMIT 1"
    );
    assert_eq!(binds, vec!["2", "Ann"]);
}

fn payload() -> CreateCatPayload {
    CreateCatPayload {
        name: "Tom".to_string(),
        race: "Siamese".to_string(),
        sex: "male".to_string(),
        age_in_month: 30,
        description: "calm".to_string(),
        img_urls: vec!["https://x.io/1".to_string()],
        user_id: 5,
    }
}

#[test]
fn insert_cat_binds_every_field() {
    let (sql, binds) = render(&insert_cat_statement(&payload()));
    assert_eq!(
        sql,
        "INSERT INTO cats (name, race, sex, age_in_month, description, img_urls, user_id) VALUES ($1, $2, $3, $4, $5, $6, $7) RETURNING id, created_at"
    );
    assert_eq!(binds, vec!["Tom", "Siamese", "male", "30", "calm", "[\"https://x.io/1\"]", "5"]);
}

#[test]
fn update_cat_targets_id() {
    let (sql, binds) = render(&update_cat_statement(11, &payload()));
    assert_eq!(
        sql,
        "UPDATE cats SET name = $1, race = $2, sex = $3, age_in_month = $4, description = $5, img_urls = $6 WHERE id = $7 RETURNING id, created_at"
    );
    assert_eq!(binds[6], "11");
}

#[test]
fn find_and_delete_by_id() {
    let (sql, binds) = render(&find_one_cat_statement(8));
    assert_eq!(sql, "SELECT id, name, race, sex, age_in_month, description, img_urls, created_at, user_id FROM cats WHERE id = $1");
    assert_eq!(binds, vec!["8"]);
    let (sql, binds) = render(&delete_cat_statement(8));
    assert_eq!(sql, "DELETE FROM cats WHERE id = $1");
    assert_eq!(binds, vec!["8"]);
}

#[test]
fn insert_user_statement_binds() {
    let u = CreateUser {
        email: "a@b.co".to_string(),
        name: "Alice".to_string(),
        password: "$argon2id$hash".to_string(),
    };
    let (sql, binds) = render(&insert_user_statement(&u));
    assert_eq!(
        sql,
        "INSERT INTO users (name, email, password) VALUES ($1, $2, $3) RETURNING id, name, email, password"
    );
    assert_eq!(binds, vec!["Alice", "a@b.co", "$argon2id$hash"]);
}

#[test]
fn listing_row_is_never_matched() {
    let c = Cat {
        id: 1,
        name: "Tom".to_string(),
        race: "Bengal".to_string(),
        sex: "male".to_string(),
        age_in_month: 3,
        description: "d".to_string(),
        img_urls: vec![],
        created_at: 1_700_000_000_000_000,
        user_id: 2,
    };
    let r = cat_response_of(c);
    assert_eq!(r.id, 1);
    assert_eq!(r.name, "Tom");
    assert_eq!(r.created_at, 1_700_000_000_000_000);
    assert!(!r.has_matched);
}
