use std::collections::HashMap;

use holiday_lookup::{
    conclude, decide, fetch_step, get_holiday, handler, Fault, Holiday, HolidayReduced, Member,
    QueryMap, Reply, Scalar, Step,
};
use serde_json::Value;

fn request(iso: &str, year: &str, month: &str, day: &str) -> QueryMap {
    let mut data: HashMap<String, Vec<String>> = HashMap::new();
    data.insert("iso".to_string(), vec![iso.to_string()]);
    data.insert("year".to_string(), vec![year.to_string()]);
    data.insert("month".to_string(), vec![month.to_string()]);
    data.insert("day".to_string(), vec![day.to_string()]);
    QueryMap::from(data)
}

fn holiday(name: &str, description: &str, date: &str) -> Holiday {
    Holiday {
        name: name.to_string(),
        name_local: String::new(),
        language: String::new(),
        description: description.to_string(),
        country: "US".to_string(),
        location: "United States".to_string(),
        type_field: "National".to_string(),
        date: date.to_string(),
        date_year: "2024".to_string(),
        date_month: "07".to_string(),
        date_day: "04".to_string(),
        week_day: "Thursday".to_string(),
    }
}

fn fetch(url: &str) -> Step {
    Step::Fetch { url: url.to_string() }
}

fn text(name: &str, value: &str) -> Member {
    Member { name: name.to_string(), value: Scalar::Text(value.to_string()) }
}

fn json(reply: &Reply) -> Value {
    let mut object = serde_json::Map::new();
    for member in reply.members() {
        let value = match member.value {
            Scalar::Flag(flag) => Value::Bool(flag),
            Scalar::Text(text) => Value::String(text),
        };
        assert!(object.insert(member.name, value).is_none());
    }
    Value::Object(object)
}

fn parsed(text: &str) -> Value {
    serde_json::from_str(text).unwrap()
}

#[test]
fn missing_key_is_reported() {
    let outcome = handler(&request("US", "2024", "07", "04"), None);
    assert_eq!(
        outcome,
        Ok(Step::Respond(Reply::Error { message: "Key for AbstractAPI doesn't exist.".to_string() }))
    );
    assert_eq!(get_holiday("US", "2024", "07", "04", None), outcome);
    assert_eq!(decide(Some("US"), Some("2024"), Some("07"), Some("04"), None), outcome);
}

#[test]
fn missing_key_reply_as_json() {
    match handler(&request("US", "2024", "07", "04"), None) {
        Ok(Step::Respond(reply)) => assert_eq!(
            json(&reply),
            parsed(r#"{"error": true, "message": "Key for AbstractAPI doesn't exist."}"#)
        ),
        other => panic!("no request may be made without a key: {:?}", other),
    }
}

#[test]
fn complete_request_asks_for_the_day() {
    let outcome = handler(&request("US", "2024", "07", "04"), Some("secret"));
    assert_eq!(outcome, Ok(fetch("https://holidays.abstractapi.com/v1/?day=04")));
}

#[test]
fn only_the_day_enters_the_url() {
    let asked = get_holiday("US", "2024", "07", "04", Some("secret"));
    assert_eq!(asked, Ok(fetch("https://holidays.abstractapi.com/v1/?day=04")));
    assert_eq!(get_holiday("FR", "1999", "12", "04", Some("another")), asked);
    assert_eq!(
        get_holiday("US", "2024", "07", "05", Some("secret")),
        Ok(fetch("https://holidays.abstractapi.com/v1/?day=05"))
    );
}

#[test]
fn url_is_built_by_the_url_crate() {
    assert_eq!(
        get_holiday("US", "2024", "07", "0 4", Some("secret")),
        Ok(fetch("https://holidays.abstractapi.com/v1/?day=0%204"))
    );
    assert_eq!(
        get_holiday("US", "2024", "07", "4#x", Some("secret")),
        Ok(fetch("https://holidays.abstractapi.com/v1/?day=4%23x"))
    );
    assert_eq!(
        get_holiday("US", "2024", "07", "4&year=1", Some("secret")),
        Ok(fetch("https://holidays.abstractapi.com/v1/?day=4&year=1"))
    );
    assert_eq!(
        get_holiday("US", "2024", "07", "", Some("secret")),
        Ok(fetch("https://holidays.abstractapi.com/v1/?day="))
    );
}

#[test]
fn built_url_matches_a_url_set_by_hand() {
    let mut url = url::Url::parse("https://holidays.abstractapi.com/v1/").unwrap();
    url.set_query(Some("api_key=secret"));
    url.set_query(Some("country=US"));
    url.set_query(Some("year=2024"));
    url.set_query(Some("month=07"));
    url.set_query(Some("day=04"));
    assert_eq!(
        get_holiday("US", "2024", "07", "04", Some("secret")),
        Ok(fetch(url.as_str()))
    );
}

#[test]
fn empty_key_still_counts_as_configured() {
    assert_eq!(
        get_holiday("US", "2024", "07", "04", Some("")),
        Ok(fetch("https://holidays.abstractapi.com/v1/?day=04"))
    );
}

#[test]
fn first_value_of_day_is_asked_for() {
    let mut data: HashMap<String, Vec<String>> = HashMap::new();
    data.insert("iso".to_string(), vec!["US".to_string()]);
    data.insert("year".to_string(), vec!["2024".to_string()]);
    data.insert("month".to_string(), vec!["07".to_string()]);
    data.insert("day".to_string(), vec!["04".to_string(), "05".to_string()]);
    assert_eq!(
        handler(&QueryMap::from(data), Some("secret")),
        Ok(fetch("https://holidays.abstractapi.com/v1/?day=04"))
    );
}

#[test]
fn fetch_step_takes_the_url() {
    assert_eq!(fetch_step(Ok("https://example.com/?day=1".to_string())), Ok(fetch("https://example.com/?day=1")));
}

#[test]
fn fetch_step_passes_the_reason_on() {
    assert_eq!(
        fetch_step(Err(url::ParseError::EmptyHost)),
        Err(Fault::InvalidUrl(url::ParseError::EmptyHost))
    );
    assert_eq!(
        fetch_step(Err(url::ParseError::RelativeUrlWithoutBase)),
        Err(Fault::InvalidUrl(url::ParseError::RelativeUrlWithoutBase))
    );
}

#[test]
fn no_record_is_no_holidays() {
    let reply = conclude(Vec::new());
    assert_eq!(reply, Reply::Error { message: "No holidays".to_string() });
    assert_eq!(json(&reply), parsed(r#"{"error": true, "message": "No holidays"}"#));
}

#[test]
fn first_record_is_reduced() {
    let reply = conclude(vec![
        holiday("Independence Day", "US federal holiday", "2024-07-04"),
        holiday("Another", "ignored", "2024-07-05"),
    ]);
    match &reply {
        Reply::Found(found) => {
            assert_eq!(found.name(), "Independence Day");
            assert_eq!(found.desc(), "US federal holiday");
            assert_eq!(found.date(), "2024-07-04");
        }
        other => panic!("a record was there: {:?}", other),
    }
    assert_eq!(
        reply,
        conclude(vec![holiday("Independence Day", "US federal holiday", "2024-07-04")])
    );
}

#[test]
fn found_reply_has_three_members() {
    let reply = conclude(vec![holiday("Independence Day", "US federal holiday", "2024-07-04")]);
    assert_eq!(
        reply.members(),
        vec![
            text("name", "Independence Day"),
            text("desc", "US federal holiday"),
            text("date", "2024-07-04"),
        ]
    );
}

#[test]
fn error_reply_has_two_members() {
    let reply = Reply::error("No holidays");
    assert_eq!(reply, Reply::Error { message: "No holidays".to_string() });
    assert_eq!(
        reply.members(),
        vec![
            Member { name: "error".to_string(), value: Scalar::Flag(true) },
            text("message", "No holidays"),
        ]
    );
}

#[test]
fn independence_day_example() {
    let step = handler(&request("US", "2024", "07", "04"), Some("secret"));
    assert!(matches!(step, Ok(Step::Fetch { .. })));
    let reply = conclude(vec![holiday("Independence Day", "US federal holiday", "2024-07-04")]);
    assert_eq!(
        json(&reply),
        parsed(r#"{"name":"Independence Day","desc":"US federal holiday","date":"2024-07-04"}"#)
    );
}

#[test]
fn reduction_is_repeatable() {
    let record = holiday("Independence Day", "US federal holiday", "2024-07-04");
    let first = HolidayReduced::from(record.clone());
    let second = HolidayReduced::from(record);
    assert_eq!(first, second);
    assert_eq!(first.name(), "Independence Day");
    assert_eq!(first.desc(), "US federal holiday");
    assert_eq!(first.date(), "2024-07-04");
}

#[test]
fn reduction_ignores_other_fields() {
    let record = holiday("Independence Day", "US federal holiday", "2024-07-04");
    let mut other = record.clone();
    other.name_local = "Dia de la Independencia".to_string();
    other.language = "es".to_string();
    other.country = "MX".to_string();
    other.location = "Elsewhere".to_string();
    other.type_field = "Local".to_string();
    other.date_year = "1999".to_string();
    other.date_month = "01".to_string();
    other.date_day = "02".to_string();
    other.week_day = "Monday".to_string();
    assert_eq!(HolidayReduced::from(record), HolidayReduced::from(other));
}

#[test]
fn reduction_keeps_texts_verbatim() {
    let reduced = HolidayReduced::from(holiday("", " spaced \"quoted\" ", "04/07/2024"));
    assert_eq!(reduced.name(), "");
    assert_eq!(reduced.desc(), " spaced \"quoted\" ");
    assert_eq!(reduced.date(), "04/07/2024");
}
