use replicate_rust::api_definitions::{
    GetCollectionModels, GetModel, ListCollectionModels, ListCollectionModelsItem,
};
use replicate_rust::errors::{DecodeError, ReplicateError, ShapeError};
use replicate_rust::json::{Json, JsonNumber};
use replicate_rust::transport::{success_body, Response};

fn text(value: &str) -> Json {
    Json::String(String::from(value))
}

fn object(members: Vec<(&str, Json)>) -> Json {
    Json::Object(members.into_iter().map(|(key, value)| (String::from(key), value)).collect())
}

fn number(text: &str) -> JsonNumber {
    match Json::parse(text).unwrap() {
        Json::Number(number) => number,
        other => panic!("not a number: {:?}", other),
    }
}

#[test]
fn parse_reads_every_kind_of_value() {
    let json = Json::parse("{\"b\": [1, -2, 1.5, true, null, \"x\"], \"a\": {}}").unwrap();
    assert_eq!(
        json,
        Json::Object(vec![
            (String::from("a"), Json::Object(vec![])),
            (
                String::from("b"),
                Json::Array(vec![
                    Json::Number(JsonNumber {
                        unsigned: Some(1),
                        signed: Some(1),
                        text: String::from("1"),
                    }),
                    Json::Number(JsonNumber {
                        unsigned: None,
                        signed: Some(-2),
                        text: String::from("-2"),
                    }),
                    Json::Number(JsonNumber {
                        unsigned: None,
                        signed: None,
                        text: String::from("1.5"),
                    }),
                    Json::Bool(true),
                    Json::Null,
                    Json::String(String::from("x")),
                ]),
            ),
        ])
    );
}

#[test]
fn parse_reports_the_limits_of_the_integers() {
    let largest = number("18446744073709551615");
    assert_eq!(largest.unsigned, Some(u64::MAX));
    assert_eq!(largest.signed, None);
    assert_eq!(largest.text, "18446744073709551615");

    let smallest = number("-9223372036854775808");
    assert_eq!(smallest.unsigned, None);
    assert_eq!(smallest.signed, Some(i64::MIN));

    let zero = number("0");
    assert_eq!(zero.unsigned, Some(0));
    assert_eq!(zero.signed, Some(0));
}

#[test]
fn parse_rejects_what_is_not_one_document() {
    for text in ["", " ", "{", "}", "{\"a\" 1}", "[1,]", "nul", "\"open", "1 2", "{\"a\": 1,}"] {
        assert!(matches!(Json::parse(text), Err(DecodeError::Syntax(_))), "{}", text);
    }
}

#[test]
fn parse_unescapes_strings() {
    assert_eq!(Json::parse("\"a\\n\\u00e9\\\"\"").unwrap(), text("a\n\u{e9}\""));
}

#[test]
fn clone_copies_the_whole_document() {
    let json = Json::parse("{\"a\": [1, {\"b\": [null, 2.5e3, \"x\"]}], \"c\": false}").unwrap();
    assert_eq!(json.clone(), json);
}

#[test]
fn a_model_takes_every_field_from_the_document() {
    let body = "{\"url\": \"https://replicate.com/replicate/hello-world\", \"owner\": \"replicate\", \"name\": \"hello-world\", \"description\": \"A tiny model that says hello\", \"visibility\": \"public\", \"github_url\": \"https://github.com/replicate/cog-examples\", \"paper_url\": null, \"license_url\": null, \"run_count\": 5681081, \"cover_image_url\": \"https://example.test/cover.png\", \"default_example\": {\"id\": \"abc\", \"metrics\": {\"predict_time\": 4.484541}}, \"latest_version\": {\"id\": \"5c7d\", \"openapi_schema\": {}}}";
    let model = GetModel::from_json(&Json::parse(body).unwrap()).unwrap();
    assert_eq!(model.url, "https://replicate.com/replicate/hello-world");
    assert_eq!(model.owner, "replicate");
    assert_eq!(model.name, "hello-world");
    assert_eq!(model.description.as_deref(), Some("A tiny model that says hello"));
    assert_eq!(model.visibility, "public");
    assert_eq!(model.github_url.as_deref(), Some("https://github.com/replicate/cog-examples"));
    assert_eq!(model.paper_url, None);
    assert_eq!(model.license_url, None);
    assert_eq!(model.run_count, Some(5681081));
    assert_eq!(model.cover_image_url.as_deref(), Some("https://example.test/cover.png"));
    assert_eq!(
        model.default_example,
        Some(Json::parse("{\"id\": \"abc\", \"metrics\": {\"predict_time\": 4.484541}}").unwrap())
    );
    assert_eq!(
        model.latest_version,
        Some(Json::parse("{\"id\": \"5c7d\", \"openapi_schema\": {}}").unwrap())
    );
}

#[test]
fn a_model_may_leave_out_what_is_optional() {
    let json = object(vec![
        ("url", text("u")),
        ("owner", text("o")),
        ("name", text("n")),
        ("visibility", text("private")),
    ]);
    let model = GetModel::from_json(&json).unwrap();
    assert_eq!(
        model,
        GetModel {
            url: String::from("u"),
            owner: String::from("o"),
            name: String::from("n"),
            description: None,
            visibility: String::from("private"),
            github_url: None,
            paper_url: None,
            license_url: None,
            run_count: None,
            cover_image_url: None,
            default_example: None,
            latest_version: None,
        }
    );
}

#[test]
fn a_run_count_must_be_an_integer_from_zero_up() {
    let model = |count: &str| {
        let body = format!(
            "{{\"url\": \"u\", \"owner\": \"o\", \"name\": \"n\", \"visibility\": \"v\", \"run_count\": {}}}",
            count
        );
        GetModel::from_json(&Json::parse(&body).unwrap())
    };
    assert_eq!(model("0").unwrap().run_count, Some(0));
    assert_eq!(model("18446744073709551615").unwrap().run_count, Some(u64::MAX));
    assert_eq!(model("null").unwrap().run_count, None);
    for wrong in ["-1", "1.0", "1e3", "\"1\"", "true", "[]", "{}"] {
        assert_eq!(model(wrong), Err(ShapeError::WrongType(String::from("run_count"))));
    }
}

#[test]
fn a_collection_holds_its_models_in_order() {
    let body = "{\"name\": \"n\", \"slug\": \"s\", \"description\": \"d\", \"models\": [{\"url\": \"u1\", \"owner\": \"o1\", \"name\": \"first\", \"visibility\": \"public\"}, {\"url\": \"u2\", \"owner\": \"o2\", \"name\": \"second\", \"visibility\": \"public\"}]}";
    let collection = GetCollectionModels::from_json(&Json::parse(body).unwrap()).unwrap();
    assert_eq!(collection.models.len(), 2);
    assert_eq!(collection.models[0].name, "first");
    assert_eq!(collection.models[1].name, "second");
    assert_eq!(collection.models[1].url, "u2");
}

#[test]
fn what_is_not_an_object_is_rejected() {
    for json in [Json::Null, Json::Bool(true), text("x"), Json::Array(vec![])] {
        assert_eq!(GetCollectionModels::from_json(&json), Err(ShapeError::NotAnObject));
        assert_eq!(ListCollectionModels::from_json(&json), Err(ShapeError::NotAnObject));
        assert_eq!(ListCollectionModelsItem::from_json(&json), Err(ShapeError::NotAnObject));
        assert_eq!(GetModel::from_json(&json), Err(ShapeError::NotAnObject));
    }
    let page = object(vec![("results", Json::Array(vec![text("x")]))]);
    assert_eq!(ListCollectionModels::from_json(&page), Err(ShapeError::NotAnObject));
}

#[test]
fn an_unknown_member_is_rejected() {
    let json = object(vec![
        ("name", text("n")),
        ("slug", text("s")),
        ("surprise", Json::Null),
        ("description", text("d")),
        ("another", Json::Null),
    ]);
    assert_eq!(
        ListCollectionModelsItem::from_json(&json),
        Err(ShapeError::UnknownField(String::from("surprise")))
    );
    let json = object(vec![("Name", text("n")), ("slug", text("s")), ("description", text("d"))]);
    assert_eq!(
        ListCollectionModelsItem::from_json(&json),
        Err(ShapeError::UnknownField(String::from("Name")))
    );
}

#[test]
fn a_missing_member_is_rejected() {
    let json = object(vec![("name", text("n")), ("description", text("d"))]);
    assert_eq!(
        ListCollectionModelsItem::from_json(&json),
        Err(ShapeError::MissingField(String::from("slug")))
    );
    let json = object(vec![("name", text("n")), ("slug", text("s")), ("description", text("d"))]);
    assert_eq!(
        GetCollectionModels::from_json(&json),
        Err(ShapeError::MissingField(String::from("models")))
    );
    assert_eq!(
        ListCollectionModelsItem::from_json(&object(vec![])),
        Err(ShapeError::MissingField(String::from("name")))
    );
}

#[test]
fn a_repeated_member_is_rejected() {
    let json = object(vec![
        ("name", text("n")),
        ("slug", text("s")),
        ("description", text("d")),
        ("slug", text("t")),
    ]);
    assert_eq!(
        ListCollectionModelsItem::from_json(&json),
        Err(ShapeError::DuplicateField(String::from("slug")))
    );
}

#[test]
fn a_member_of_the_wrong_type_is_rejected() {
    let json = object(vec![("name", text("n")), ("slug", Json::Null), ("description", text("d"))]);
    assert_eq!(
        ListCollectionModelsItem::from_json(&json),
        Err(ShapeError::WrongType(String::from("slug")))
    );
    let json = object(vec![
        ("name", text("n")),
        ("slug", text("s")),
        ("description", text("d")),
        ("models", object(vec![])),
    ]);
    assert_eq!(
        GetCollectionModels::from_json(&json),
        Err(ShapeError::WrongType(String::from("models")))
    );
    let json = object(vec![("results", Json::Array(vec![])), ("next", Json::Bool(false))]);
    assert_eq!(
        ListCollectionModels::from_json(&json),
        Err(ShapeError::WrongType(String::from("next")))
    );
}

#[test]
fn the_first_error_is_the_one_reported() {
    let json = object(vec![("description", Json::Null), ("slug", Json::Null), ("extra", Json::Null)]);
    assert_eq!(
        ListCollectionModelsItem::from_json(&json),
        Err(ShapeError::UnknownField(String::from("extra")))
    );
    let json = object(vec![("description", Json::Null), ("slug", Json::Null)]);
    assert_eq!(
        ListCollectionModelsItem::from_json(&json),
        Err(ShapeError::MissingField(String::from("name")))
    );
    let json = object(vec![("description", Json::Null), ("slug", Json::Null), ("name", text("n"))]);
    assert_eq!(
        ListCollectionModelsItem::from_json(&json),
        Err(ShapeError::WrongType(String::from("slug")))
    );
    let good = object(vec![("name", text("n")), ("slug", text("s")), ("description", text("d"))]);
    let no_slug = object(vec![("name", text("n")), ("description", text("d"))]);
    let no_name = object(vec![("slug", text("s")), ("description", text("d"))]);
    let page = object(vec![("results", Json::Array(vec![good, no_slug, no_name]))]);
    assert_eq!(
        ListCollectionModels::from_json(&page),
        Err(ShapeError::MissingField(String::from("slug")))
    );
}

#[test]
fn success_body_sorts_replies() {
    assert_eq!(
        success_body(Ok(Response { status: 200, body: String::from("payload") })).unwrap(),
        "payload"
    );
    assert!(matches!(
        success_body(Ok(Response { status: 500, body: String::from("oops") })),
        Err(ReplicateError::ResponseError(body)) if body == "oops"
    ));
    assert!(matches!(
        success_body(Err(String::from("dns"))),
        Err(ReplicateError::TransportError(message)) if message == "dns"
    ));
}
