//! Statements for the store, built as text parts and bound values. User
//! values are only ever bound, never written into the text.
use vstd::prelude::*;
use crate::entities::{Cat, CatResponse, CreateCatPayload, CreateUser, FilterCat, FilterUser};
use crate::number::{i32_of, parse_i32};
use crate::text::chars_of;

verus! {

/// A value bound to a placeholder.
pub enum SqlValue {
    Int(i32),
    OptInt(Option<i32>),
    Text(String),
    TextList(Vec<String>),
}

pub enum SqlValueV {
    Int(int),
    OptInt(Option<i32>),
    Text(Seq<char>),
    TextList(Seq<Seq<char>>),
}

impl View for SqlValue {
    type V = SqlValueV;

    open spec fn view(&self) -> SqlValueV {
        match self {
            SqlValue::Int(i) => SqlValueV::Int(*i as int),
            SqlValue::OptInt(o) => SqlValueV::OptInt(*o),
            SqlValue::Text(s) => SqlValueV::Text(s@),
            SqlValue::TextList(v) => SqlValueV::TextList(v@.map_values(|s: String| s@)),
        }
    }
}

/// A piece of a statement: fixed text, or a placeholder with its value.
pub enum QueryPart {
    Sql(String),
    Bind(SqlValue),
}

pub enum QueryPartV {
    Sql(Seq<char>),
    Bind(SqlValueV),
}

impl View for QueryPart {
    type V = QueryPartV;

    open spec fn view(&self) -> QueryPartV {
        match self {
            QueryPart::Sql(s) => QueryPartV::Sql(s@),
            QueryPart::Bind(v) => QueryPartV::Bind(v@),
        }
    }
}

pub open spec fn parts_view(q: Seq<QueryPart>) -> Seq<QueryPartV> {
    q.map_values(|p: QueryPart| p@)
}

/// How an age filter compares.
#[derive(PartialEq, Eq, Structural, Clone, Copy, Debug)]
pub enum AgeOp {
    Greater,
    Less,
    Equal,
}

/// An age filter: the comparison and the bound.
#[derive(PartialEq, Eq, Structural, Clone, Copy, Debug)]
pub struct AgeFilter {
    pub op: AgeOp,
    pub value: i32,
}

/// Why a filter cannot become a statement.
#[derive(PartialEq, Eq, Structural, Clone, Copy, Debug)]
pub enum QueryError {
    /// The age filter does not write a number.
    InvalidAge,
}

/// A leading `>` or `<` picks the comparison and is dropped; any other text
/// is an exact age, read whole.
pub open spec fn age_filter_of(s: Seq<char>) -> Option<(AgeOp, int)> {
    if s.len() > 0 && s[0] == '>' {
        match i32_of(s.drop_first()) {
            Some(v) => Some((AgeOp::Greater, v)),
            None => None,
        }
    } else if s.len() > 0 && s[0] == '<' {
        match i32_of(s.drop_first()) {
            Some(v) => Some((AgeOp::Less, v)),
            None => None,
        }
    } else {
        match i32_of(s) {
            Some(v) => Some((AgeOp::Equal, v)),
            None => None,
        }
    }
}

/// Whether an age meets the filter.
pub open spec fn age_matches(op: AgeOp, bound: int, age: int) -> bool {
    match op {
        AgeOp::Greater => age > bound,
        AgeOp::Less => age < bound,
        AgeOp::Equal => age == bound,
    }
}

/// Reads an age filter such as `>12`, `<12` or `12`.
pub fn parse_age_filter(s: &str) -> (r: Result<AgeFilter, QueryError>)
    ensures
        match age_filter_of(s@) {
            Some((op, v)) => r == Ok::<AgeFilter, QueryError>(AgeFilter { op, value: v as i32 }),
            None => r == Err::<AgeFilter, QueryError>(QueryError::InvalidAge),
        },
{
    let c = chars_of(s);
    let (op, start) = if c.len() > 0 && c[0] == '>' {
        (AgeOp::Greater, 1usize)
    } else if c.len() > 0 && c[0] == '<' {
        (AgeOp::Less, 1usize)
    } else {
        (AgeOp::Equal, 0usize)
    };
    assert(start == 1 ==> c@.subrange(1, c@.len() as int) =~= s@.drop_first());
    assert(c@.subrange(0, c@.len() as int) =~= s@);
    match parse_i32(&c, start) {
        Some(v) => Ok(AgeFilter { op, value: v }),
        None => Err(QueryError::InvalidAge),
    }
}

fn push_sql(q: &mut Vec<QueryPart>, s: &str)
    ensures
        parts_view(final(q)@) == parts_view(old(q)@).push(QueryPartV::Sql(s@)),
{
    q.push(QueryPart::Sql(s.to_owned()));
    assert(parts_view(final(q)@) =~= parts_view(old(q)@).push(QueryPartV::Sql(s@)));
}

fn push_bind(q: &mut Vec<QueryPart>, v: SqlValue)
    ensures
        parts_view(final(q)@) == parts_view(old(q)@).push(QueryPartV::Bind(v@)),
{
    let ghost w = v@;
    q.push(QueryPart::Bind(v));
    assert(parts_view(final(q)@) =~= parts_view(old(q)@).push(QueryPartV::Bind(w)));
}

/// A predicate with its bound value, where present.
pub open spec fn predicate(present: bool, sql: Seq<char>, v: SqlValueV) -> Seq<QueryPartV> {
    if present {
        seq![QueryPartV::Sql(sql), QueryPartV::Bind(v)]
    } else {
        seq![]
    }
}

pub open spec fn text_predicate(o: Option<String>, sql: Seq<char>) -> Seq<QueryPartV> {
    match o {
        Some(s) => predicate(true, sql, SqlValueV::Text(s@)),
        None => seq![],
    }
}

pub open spec fn id_predicate(o: Option<i32>) -> Seq<QueryPartV> {
    match o {
        Some(id) => predicate(id > 0, " AND id = "@, SqlValueV::Int(id as int)),
        None => seq![],
    }
}

pub open spec fn age_predicate(a: Option<(AgeOp, int)>) -> Seq<QueryPartV> {
    match a {
        Some((AgeOp::Greater, v)) => predicate(true, " AND age_in_month > "@, SqlValueV::Int(v)),
        Some((AgeOp::Less, v)) => predicate(true, " AND age_in_month < "@, SqlValueV::Int(v)),
        Some((AgeOp::Equal, v)) => predicate(true, " AND age_in_month = "@, SqlValueV::Int(v)),
        None => seq![],
    }
}

/// The listing statement for a filter whose age filter, if any, reads as `age`.
pub open spec fn cat_listing(f: FilterCat, age: Option<(AgeOp, int)>) -> Seq<QueryPartV> {
    seq![
        QueryPartV::Sql(
            "SELECT id, name, race, sex, age_in_month, description, img_urls, created_at, user_id FROM cats WHERE 1=1"@,
        ),
    ] + id_predicate(f.id) + text_predicate(f.search, " AND name = "@) + text_predicate(
        f.race,
        " AND race = "@,
    ) + text_predicate(f.sex, " AND sex = "@) + age_predicate(age) + predicate(
        f.owned is Some,
        " AND user_id = "@,
        SqlValueV::OptInt(f.user_id),
    ) + seq![
        QueryPartV::Sql(" ORDER BY created_at DESC LIMIT "@),
        QueryPartV::Bind(SqlValueV::Int(f.limit as int)),
        QueryPartV::Sql(" OFFSET "@),
        QueryPartV::Bind(SqlValueV::Int(f.offset as int)),
    ]
}

/// The listing statement of a filter, or `None` where its age filter does
/// not read.
pub open spec fn cat_listing_of(f: FilterCat) -> Option<Seq<QueryPartV>> {
    match f.age_in_month {
        None => Some(cat_listing(f, None)),
        Some(a) => match age_filter_of(a@) {
            Some(x) => Some(cat_listing(f, Some(x))),
            None => None,
        },
    }
}

fn push_text_predicate(q: &mut Vec<QueryPart>, o: &Option<String>, sql: &str)
    ensures
        parts_view(final(q)@) == parts_view(old(q)@) + text_predicate(*o, sql@),
{
    match o {
        Some(s) => {
            push_sql(q, sql);
            push_bind(q, SqlValue::Text(s.clone()));
        },
        None => {},
    }
    assert(parts_view(final(q)@) =~= parts_view(old(q)@) + text_predicate(*o, sql@));
}

fn push_id_predicate(q: &mut Vec<QueryPart>, o: Option<i32>)
    ensures
        parts_view(final(q)@) == parts_view(old(q)@) + id_predicate(o),
{
    match o {
        Some(id) => {
            if id > 0 {
                push_sql(q, " AND id = ");
                push_bind(q, SqlValue::Int(id));
            }
        },
        None => {},
    }
    assert(parts_view(final(q)@) =~= parts_view(old(q)@) + id_predicate(o));
}

/// The statement that lists the cats a filter asks for: newest first, `limit`
/// rows from `offset` on.
#[verifier::rlimit(60)]
pub fn cat_listing_query(f: &FilterCat) -> (r: Result<Vec<QueryPart>, QueryError>)
    ensures
        match cat_listing_of(*f) {
            Some(q) => r matches Ok(p) && parts_view(p@) == q,
            None => r == Err::<Vec<QueryPart>, QueryError>(QueryError::InvalidAge),
        },
{
    let age = match &f.age_in_month {
        Some(a) => match parse_age_filter(a.as_str()) {
            Ok(x) => Some(x),
            Err(e) => {
                return Err(e);
            },
        },
        None => None,
    };
    let ghost age_v: Option<(AgeOp, int)> = match age {
        Some(x) => Some((x.op, x.value as int)),
        None => None,
    };
    let mut q: Vec<QueryPart> = Vec::new();
    push_sql(
        &mut q,
        "SELECT id, name, race, sex, age_in_month, description, img_urls, created_at, user_id FROM cats WHERE 1=1",
    );
    push_id_predicate(&mut q, f.id);
    push_text_predicate(&mut q, &f.search, " AND name = ");
    push_text_predicate(&mut q, &f.race, " AND race = ");
    push_text_predicate(&mut q, &f.sex, " AND sex = ");
    let ghost before_age = parts_view(q@);
    match age {
        Some(x) => {
            match x.op {
                AgeOp::Greater => push_sql(&mut q, " AND age_in_month > "),
                AgeOp::Less => push_sql(&mut q, " AND age_in_month < "),
                AgeOp::Equal => push_sql(&mut q, " AND age_in_month = "),
            }
            push_bind(&mut q, SqlValue::Int(x.value));
        },
        None => {},
    }
    assert(parts_view(q@) =~= before_age + age_predicate(age_v));
    let ghost before_owned = parts_view(q@);
    if f.owned.is_some() {
        push_sql(&mut q, " AND user_id = ");
        push_bind(&mut q, SqlValue::OptInt(f.user_id));
    }
    assert(parts_view(q@) =~= before_owned + predicate(
        f.owned is Some,
        " AND user_id = "@,
        SqlValueV::OptInt(f.user_id),
    ));
    push_sql(&mut q, " ORDER BY created_at DESC LIMIT ");
    push_bind(&mut q, SqlValue::Int(f.limit));
    push_sql(&mut q, " OFFSET ");
    push_bind(&mut q, SqlValue::Int(f.offset));
    assert(parts_view(q@) =~= cat_listing(*f, age_v));
    Ok(q)
}

/// The lookup statement of a user filter: the first user that meets every
/// predicate present.
pub open spec fn user_lookup(f: FilterUser) -> Seq<QueryPartV> {
    seq![QueryPartV::Sql("SELECT id, name, email, password FROM users WHERE 1=1"@)] + id_predicate(
        f.id,
    ) + text_predicate(f.email, " AND email = "@) + text_predicate(f.name, " AND name = "@) + seq![
        QueryPartV::Sql(" LIMIT 1"@),
    ]
}

/// The statement that looks up one user by a filter.
pub fn user_lookup_query(f: &FilterUser) -> (r: Vec<QueryPart>)
    ensures
        parts_view(r@) == user_lookup(*f),
{
    let mut q: Vec<QueryPart> = Vec::new();
    push_sql(&mut q, "SELECT id, name, email, password FROM users WHERE 1=1");
    push_id_predicate(&mut q, f.id);
    push_text_predicate(&mut q, &f.email, " AND email = ");
    push_text_predicate(&mut q, &f.name, " AND name = ");
    push_sql(&mut q, " LIMIT 1");
    assert(parts_view(q@) =~= user_lookup(*f));
    q
}

pub open spec fn strings_view(v: Seq<String>) -> Seq<Seq<char>> {
    v.map_values(|s: String| s@)
}

pub(crate) fn clone_strings(v: &Vec<String>) -> (r: Vec<String>)
    ensures
        r@ == v@,
{
    let mut r: Vec<String> = Vec::new();
    let mut i: usize = 0;
    while i < v.len()
        invariant
            i <= v.len(),
            r@ =~= v@.subrange(0, i as int),
        decreases v.len() - i,
    {
        let s = v[i].clone();
        r.push(s);
        i = i + 1;
        assert(r@ =~= v@.subrange(0, i as int));
    }
    assert(v@.subrange(0, v.len() as int) =~= v@);
    r
}

pub open spec fn text(s: String) -> QueryPartV {
    QueryPartV::Bind(SqlValueV::Text(s@))
}

pub open spec fn comma() -> QueryPartV {
    QueryPartV::Sql(", "@)
}

/// Stores a new cat; the store hands back its id and creation time.
pub open spec fn insert_cat_parts(c: CreateCatPayload) -> Seq<QueryPartV> {
    seq![
        QueryPartV::Sql(
            "INSERT INTO cats (name, race, sex, age_in_month, description, img_urls, user_id) VALUES ("@,
        ),
        text(c.name),
        comma(),
        text(c.race),
        comma(),
        text(c.sex),
        comma(),
        QueryPartV::Bind(SqlValueV::Int(c.age_in_month as int)),
        comma(),
        text(c.description),
        comma(),
        QueryPartV::Bind(SqlValueV::TextList(strings_view(c.img_urls@))),
        comma(),
        QueryPartV::Bind(SqlValueV::Int(c.user_id as int)),
        QueryPartV::Sql(") RETURNING id, created_at"@),
    ]
}

/// Replaces the mutable fields of the cat `id`; the owner stays.
pub open spec fn update_cat_parts(id: i32, c: CreateCatPayload) -> Seq<QueryPartV> {
    seq![
        QueryPartV::Sql("UPDATE cats SET name = "@),
        text(c.name),
        QueryPartV::Sql(", race = "@),
        text(c.race),
        QueryPartV::Sql(", sex = "@),
        text(c.sex),
        QueryPartV::Sql(", age_in_month = "@),
        QueryPartV::Bind(SqlValueV::Int(c.age_in_month as int)),
        QueryPartV::Sql(", description = "@),
        text(c.description),
        QueryPartV::Sql(", img_urls = "@),
        QueryPartV::Bind(SqlValueV::TextList(strings_view(c.img_urls@))),
        QueryPartV::Sql(" WHERE id = "@),
        QueryPartV::Bind(SqlValueV::Int(id as int)),
        QueryPartV::Sql(" RETURNING id, created_at"@),
    ]
}

pub open spec fn find_one_cat_parts(id: i32) -> Seq<QueryPartV> {
    seq![
        QueryPartV::Sql(
            "SELECT id, name, race, sex, age_in_month, description, img_urls, created_at, user_id FROM cats WHERE id = "@,
        ),
        QueryPartV::Bind(SqlValueV::Int(id as int)),
    ]
}

pub open spec fn delete_cat_parts(id: i32) -> Seq<QueryPartV> {
    seq![
        QueryPartV::Sql("DELETE FROM cats WHERE id = "@),
        QueryPartV::Bind(SqlValueV::Int(id as int)),
    ]
}

/// Stores a new user; the store hands back the whole row.
pub open spec fn insert_user_parts(u: CreateUser) -> Seq<QueryPartV> {
    seq![
        QueryPartV::Sql("INSERT INTO users (name, email, password) VALUES ("@),
        text(u.name),
        comma(),
        text(u.email),
        comma(),
        text(u.password),
        QueryPartV::Sql(") RETURNING id, name, email, password"@),
    ]
}

pub fn insert_cat_statement(c: &CreateCatPayload) -> (r: Vec<QueryPart>)
    ensures
        parts_view(r@) == insert_cat_parts(*c),
{
    let mut q: Vec<QueryPart> = Vec::new();
    push_sql(
        &mut q,
        "INSERT INTO cats (name, race, sex, age_in_month, description, img_urls, user_id) VALUES (",
    );
    push_bind(&mut q, SqlValue::Text(c.name.clone()));
    push_sql(&mut q, ", ");
    push_bind(&mut q, SqlValue::Text(c.race.clone()));
    push_sql(&mut q, ", ");
    push_bind(&mut q, SqlValue::Text(c.sex.clone()));
    push_sql(&mut q, ", ");
    push_bind(&mut q, SqlValue::Int(c.age_in_month));
    push_sql(&mut q, ", ");
    push_bind(&mut q, SqlValue::Text(c.description.clone()));
    push_sql(&mut q, ", ");
    push_bind(&mut q, SqlValue::TextList(clone_strings(&c.img_urls)));
    push_sql(&mut q, ", ");
    push_bind(&mut q, SqlValue::Int(c.user_id));
    push_sql(&mut q, ") RETURNING id, created_at");
    assert(parts_view(q@) =~= insert_cat_parts(*c));
    q
}

pub fn update_cat_statement(id: i32, c: &CreateCatPayload) -> (r: Vec<QueryPart>)
    ensures
        parts_view(r@) == update_cat_parts(id, *c),
{
    let mut q: Vec<QueryPart> = Vec::new();
    push_sql(&mut q, "UPDATE cats SET name = ");
    push_bind(&mut q, SqlValue::Text(c.name.clone()));
    push_sql(&mut q, ", race = ");
    push_bind(&mut q, SqlValue::Text(c.race.clone()));
    push_sql(&mut q, ", sex = ");
    push_bind(&mut q, SqlValue::Text(c.sex.clone()));
    push_sql(&mut q, ", age_in_month = ");
    push_bind(&mut q, SqlValue::Int(c.age_in_month));
    push_sql(&mut q, ", description = ");
    push_bind(&mut q, SqlValue::Text(c.description.clone()));
    push_sql(&mut q, ", img_urls = ");
    push_bind(&mut q, SqlValue::TextList(clone_strings(&c.img_urls)));
    push_sql(&mut q, " WHERE id = ");
    push_bind(&mut q, SqlValue::Int(id));
    push_sql(&mut q, " RETURNING id, created_at");
    assert(parts_view(q@) =~= update_cat_parts(id, *c));
    q
}

pub fn find_one_cat_statement(id: i32) -> (r: Vec<QueryPart>)
    ensures
        parts_view(r@) == find_one_cat_parts(id),
{
    let mut q: Vec<QueryPart> = Vec::new();
    push_sql(
        &mut q,
        "SELECT id, name, race, sex, age_in_month, description, img_urls, created_at, user_id FROM cats WHERE id = ",
    );
    push_bind(&mut q, SqlValue::Int(id));
    assert(parts_view(q@) =~= find_one_cat_parts(id));
    q
}

pub fn delete_cat_statement(id: i32) -> (r: Vec<QueryPart>)
    ensures
        parts_view(r@) == delete_cat_parts(id),
{
    let mut q: Vec<QueryPart> = Vec::new();
    push_sql(&mut q, "DELETE FROM cats WHERE id = ");
    push_bind(&mut q, SqlValue::Int(id));
    assert(parts_view(q@) =~= delete_cat_parts(id));
    q
}

pub fn insert_user_statement(u: &CreateUser) -> (r: Vec<QueryPart>)
    ensures
        parts_view(r@) == insert_user_parts(*u),
{
    let mut q: Vec<QueryPart> = Vec::new();
    push_sql(&mut q, "INSERT INTO users (name, email, password) VALUES (");
    push_bind(&mut q, SqlValue::Text(u.name.clone()));
    push_sql(&mut q, ", ");
    push_bind(&mut q, SqlValue::Text(u.email.clone()));
    push_sql(&mut q, ", ");
    push_bind(&mut q, SqlValue::Text(u.password.clone()));
    push_sql(&mut q, ") RETURNING id, name, email, password");
    assert(parts_view(q@) =~= insert_user_parts(*u));
    q
}

/// A stored cat as a listing shows it: no owner, and never matched.
pub fn cat_response_of(cat: Cat) -> (r: CatResponse)
    ensures
        r.id == cat.id && r.name == cat.name && r.race == cat.race && r.sex == cat.sex,
        r.age_in_month == cat.age_in_month && r.description == cat.description,
        r.img_urls == cat.img_urls && r.created_at == cat.created_at,
        !r.has_matched,
{
    CatResponse {
        id: cat.id,
        name: cat.name,
        race: cat.race,
        sex: cat.sex,
        age_in_month: cat.age_in_month,
        description: cat.description,
        img_urls: cat.img_urls,
        created_at: cat.created_at,
        has_matched: false,
    }
}

/// A listing with no predicate selects every cat, newest first, and pages
/// with the filter's `limit` and `offset`.
pub proof fn lemma_unfiltered_listing(f: FilterCat)
    requires
        f.id is None && f.search is None && f.race is None && f.sex is None,
        f.age_in_month is None && f.owned is None,
    ensures
        cat_listing_of(f) == Some(
            seq![
                QueryPartV::Sql(
                    "SELECT id, name, race, sex, age_in_month, description, img_urls, created_at, user_id FROM cats WHERE 1=1"@,
                ),
                QueryPartV::Sql(" ORDER BY created_at DESC LIMIT "@),
                QueryPartV::Bind(SqlValueV::Int(f.limit as int)),
                QueryPartV::Sql(" OFFSET "@),
                QueryPartV::Bind(SqlValueV::Int(f.offset as int)),
            ],
        ),
{
    let q = cat_listing(f, None);
    assert(q =~= seq![
        QueryPartV::Sql(
            "SELECT id, name, race, sex, age_in_month, description, img_urls, created_at, user_id FROM cats WHERE 1=1"@,
        ),
        QueryPartV::Sql(" ORDER BY created_at DESC LIMIT "@),
        QueryPartV::Bind(SqlValueV::Int(f.limit as int)),
        QueryPartV::Sql(" OFFSET "@),
        QueryPartV::Bind(SqlValueV::Int(f.offset as int)),
    ]);
}

/// The operator that an age filter puts in the listing.
pub open spec fn age_operator(op: AgeOp) -> Seq<char> {
    match op {
        AgeOp::Greater => " AND age_in_month > "@,
        AgeOp::Less => " AND age_in_month < "@,
        AgeOp::Equal => " AND age_in_month = "@,
    }
}

/// With an age filter `>n`, `<n`, or a plain number `n` read whole, the
/// listing keeps only the cats whose age compares so with `n`: the age
/// predicate comes right after the name, race and sex predicates.
pub proof fn lemma_age_filter_in_listing(f: FilterCat, a: String, n: int)
    requires
        f.age_in_month == Some(a),
        i32::MIN <= n <= i32::MAX,
        (a@.len() > 0 && (a@[0] == '>' || a@[0] == '<') && i32_of(a@.drop_first()) == Some(n))
            || (!(a@.len() > 0 && (a@[0] == '>' || a@[0] == '<')) && i32_of(a@) == Some(n)),
    ensures
        ({
            let op = if a@.len() > 0 && a@[0] == '>' {
                AgeOp::Greater
            } else if a@.len() > 0 && a@[0] == '<' {
                AgeOp::Less
            } else {
                AgeOp::Equal
            };
            let pre = seq![
                QueryPartV::Sql(
                    "SELECT id, name, race, sex, age_in_month, description, img_urls, created_at, user_id FROM cats WHERE 1=1"@,
                ),
            ] + id_predicate(f.id) + text_predicate(f.search, " AND name = "@) + text_predicate(
                f.race,
                " AND race = "@,
            ) + text_predicate(f.sex, " AND sex = "@);
            &&& age_filter_of(a@) == Some((op, n))
            &&& cat_listing_of(f) matches Some(q) && q.subrange(pre.len() as int, pre.len() + 2int)
                == seq![QueryPartV::Sql(age_operator(op)), QueryPartV::Bind(SqlValueV::Int(n))]
        }),
{
    let op = if a@.len() > 0 && a@[0] == '>' {
        AgeOp::Greater
    } else if a@.len() > 0 && a@[0] == '<' {
        AgeOp::Less
    } else {
        AgeOp::Equal
    };
    let pre = seq![
        QueryPartV::Sql(
            "SELECT id, name, race, sex, age_in_month, description, img_urls, created_at, user_id FROM cats WHERE 1=1"@,
        ),
    ] + id_predicate(f.id) + text_predicate(f.search, " AND name = "@) + text_predicate(
        f.race,
        " AND race = "@,
    ) + text_predicate(f.sex, " AND sex = "@);
    assert(age_filter_of(a@) == Some((op, n)));
    let q = cat_listing(f, Some((op, n)));
    assert(age_predicate(Some((op, n))) =~= seq![
        QueryPartV::Sql(age_operator(op)),
        QueryPartV::Bind(SqlValueV::Int(n)),
    ]);
    assert(q.subrange(pre.len() as int, pre.len() + 2int) =~= seq![
        QueryPartV::Sql(age_operator(op)),
        QueryPartV::Bind(SqlValueV::Int(n)),
    ]);
}

} // verus!
