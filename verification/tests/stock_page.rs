use api_proxy::json::{find_member, set_member, Json};
use api_proxy::stock::{exceeds, item_has_prefix, keep_prefixed_items, rewrite_stock_page};

fn text(s: &str) -> Json {
    Json::Str(s.to_string())
}

fn num(s: &str) -> Json {
    Json::Number(s.to_string())
}

fn obj(members: Vec<(&str, Json)>) -> Json {
    Json::Object(members.into_iter().map(|(k, v)| (k.to_string(), v)).collect())
}

fn entry(prefix: &str, number: &str) -> Json {
    obj(vec![("prefix", text(prefix)), ("number", text(number))])
}

fn page(entries: Vec<Json>, total: &str, has_next: bool) -> Json {
    obj(vec![
        ("data", Json::Array(entries)),
        (
            "metadata",
            obj(vec![(
                "pagination",
                obj(vec![("total", num(total)), ("has_next", Json::Bool(has_next)), ("page", num("0"))]),
            )]),
        ),
        ("status", text("ok")),
    ])
}

#[test]
fn rewrite_keeps_only_requested_prefix() {
    let input = page(
        vec![entry("070", "1234567"), entry("077", "7654321"), entry("070", "1112233")],
        "3",
        true,
    );
    let out = rewrite_stock_page(input, &"070".to_string(), 50);
    let expected = page(vec![entry("070", "1234567"), entry("070", "1112233")], "2", false);
    assert_eq!(out, expected);
}

#[test]
fn rewrite_reports_next_page_when_count_exceeds_size() {
    let input = page(vec![entry("55", "1"), entry("55", "2"), entry("55", "3")], "9", false);
    let out = rewrite_stock_page(input, &"55".to_string(), 2);
    let expected = page(vec![entry("55", "1"), entry("55", "2"), entry("55", "3")], "3", true);
    assert_eq!(out, expected);
}

#[test]
fn rewrite_count_equal_to_size_has_no_next_page() {
    let input = page(vec![entry("55", "1"), entry("55", "2")], "2", true);
    let out = rewrite_stock_page(input, &"55".to_string(), 2);
    assert_eq!(out, page(vec![entry("55", "1"), entry("55", "2")], "2", false));
}

#[test]
fn rewrite_negative_size_never_has_next_page() {
    let input = page(vec![entry("55", "1"), entry("55", "2")], "2", true);
    let out = rewrite_stock_page(input, &"55".to_string(), -1);
    assert_eq!(out, page(vec![entry("55", "1"), entry("55", "2")], "2", false));
}

#[test]
fn rewrite_is_idempotent_on_example() {
    let make = || page(vec![entry("070", "1"), entry("050", "2"), text("junk")], "3", true);
    let once = rewrite_stock_page(make(), &"070".to_string(), 0);
    let twice = rewrite_stock_page(rewrite_stock_page(make(), &"070".to_string(), 0), &"070".to_string(), 0);
    assert_eq!(once, twice);
    assert_eq!(once, page(vec![entry("070", "1")], "1", true));
}

#[test]
fn rewrite_drops_entries_without_string_prefix() {
    let input = page(
        vec![
            obj(vec![("prefix", num("70"))]),
            obj(vec![("number", text("1"))]),
            text("070"),
            Json::Null,
            entry("070", "9"),
        ],
        "5",
        false,
    );
    let out = rewrite_stock_page(input, &"070".to_string(), 50);
    assert_eq!(out, page(vec![entry("070", "9")], "1", false));
}

#[test]
fn rewrite_without_data_counts_zero() {
    let input = obj(vec![(
        "metadata",
        obj(vec![("pagination", obj(vec![("total", num("12"))]))]),
    )]);
    let out = rewrite_stock_page(input, &"070".to_string(), 50);
    let expected = obj(vec![(
        "metadata",
        obj(vec![("pagination", obj(vec![("total", num("0")), ("has_next", Json::Bool(false))]))]),
    )]);
    assert_eq!(out, expected);
}

#[test]
fn rewrite_with_data_not_a_list_leaves_it() {
    let input = obj(vec![("data", text("none")), ("metadata", obj(vec![("pagination", obj(vec![]))]))]);
    let out = rewrite_stock_page(input, &"070".to_string(), 50);
    let expected = obj(vec![
        ("data", text("none")),
        (
            "metadata",
            obj(vec![("pagination", obj(vec![("total", num("0")), ("has_next", Json::Bool(false))]))]),
        ),
    ]);
    assert_eq!(out, expected);
}

#[test]
fn rewrite_without_pagination_object_leaves_metadata() {
    let input = obj(vec![
        ("data", Json::Array(vec![entry("070", "1"), entry("055", "2")])),
        ("metadata", obj(vec![("pagination", text("n/a"))])),
    ]);
    let out = rewrite_stock_page(input, &"070".to_string(), 50);
    let expected = obj(vec![
        ("data", Json::Array(vec![entry("070", "1")])),
        ("metadata", obj(vec![("pagination", text("n/a"))])),
    ]);
    assert_eq!(out, expected);
}

#[test]
fn rewrite_passes_non_object_through() {
    let input = Json::Array(vec![entry("070", "1"), entry("055", "2")]);
    let out = rewrite_stock_page(input, &"070".to_string(), 50);
    assert_eq!(out, Json::Array(vec![entry("070", "1"), entry("055", "2")]));
    assert_eq!(rewrite_stock_page(Json::Null, &"070".to_string(), 50), Json::Null);
}

#[test]
fn keep_prefixed_items_keeps_order() {
    let items = vec![entry("1", "a"), entry("2", "b"), entry("1", "c"), entry("1", "d")];
    let kept = keep_prefixed_items(items, &"1".to_string());
    assert_eq!(kept, vec![entry("1", "a"), entry("1", "c"), entry("1", "d")]);
}

#[test]
fn item_prefix_is_matched_exactly() {
    assert!(item_has_prefix(&entry("070", "1"), &"070".to_string()));
    assert!(!item_has_prefix(&entry("0700", "1"), &"070".to_string()));
    assert!(!item_has_prefix(&entry("07", "1"), &"070".to_string()));
    assert!(!item_has_prefix(&text("070"), &"070".to_string()));
}

#[test]
fn item_prefix_uses_first_member() {
    let item = obj(vec![("prefix", text("070")), ("prefix", text("055"))]);
    assert!(item_has_prefix(&item, &"070".to_string()));
    assert!(!item_has_prefix(&item, &"055".to_string()));
}

#[test]
fn exceeds_compares_with_page_size() {
    assert!(exceeds(51, 50));
    assert!(!exceeds(50, 50));
    assert!(!exceeds(0, 0));
    assert!(exceeds(1, 0));
    assert!(!exceeds(usize::MAX, -1));
    assert!(!exceeds(7, i32::MIN));
}

#[test]
fn find_member_finds_first_position() {
    let fields = vec![
        ("a".to_string(), Json::Null),
        ("b".to_string(), Json::Bool(true)),
        ("a".to_string(), Json::Bool(false)),
    ];
    assert_eq!(find_member(&fields, &"a".to_string()), Some(0));
    assert_eq!(find_member(&fields, &"b".to_string()), Some(1));
    assert_eq!(find_member(&fields, &"c".to_string()), None);
}

#[test]
fn set_member_replaces_in_place_or_appends() {
    let mut fields = vec![("a".to_string(), Json::Null), ("b".to_string(), Json::Null)];
    set_member(&mut fields, "a".to_string(), Json::Bool(true));
    set_member(&mut fields, "c".to_string(), num("3"));
    assert_eq!(
        fields,
        vec![
            ("a".to_string(), Json::Bool(true)),
            ("b".to_string(), Json::Null),
            ("c".to_string(), num("3")),
        ]
    );
}
