use vstd::prelude::*;

use crate::json::{
    Json, JsonView, member, with_member, json_view, items_view, fields_view, find_member, set_member,
    lemma_fields_view, lemma_key_position_valid, lemma_member_set_same, lemma_member_set_other,
    lemma_member_set_unchanged, lemma_member_set_distinct, keys_distinct, lemma_member_at,
    key_position,
};
use crate::text::{decimal, u64_decimal};

verus! {

/// An entry of the stock list carries the requested prefix: it is an object
/// whose `prefix` member is that very string.
pub open spec fn has_prefix(item: JsonView, prefix: Seq<char>) -> bool {
    match item {
        JsonView::Object(fields) => member(fields, "prefix"@) == Some(JsonView::Str(prefix)),
        _ => false,
    }
}

/// The entries that carry the requested prefix, in their original order.
pub open spec fn keep_prefixed(items: Seq<JsonView>, prefix: Seq<char>) -> Seq<JsonView> {
    items.filter(|item: JsonView| has_prefix(item, prefix))
}

/// How many entries of the page's `data` list carry the prefix (0 without a list).
pub open spec fn matching_count(fields: Seq<(Seq<char>, JsonView)>, prefix: Seq<char>) -> nat {
    match member(fields, "data"@) {
        Some(JsonView::Array(items)) => keep_prefixed(items, prefix).len(),
        _ => 0,
    }
}

/// The page's members with the `data` list narrowed to the prefixed entries.
pub open spec fn data_narrowed(fields: Seq<(Seq<char>, JsonView)>, prefix: Seq<char>) -> Seq<
    (Seq<char>, JsonView),
> {
    match member(fields, "data"@) {
        Some(JsonView::Array(items)) => with_member(
            fields,
            "data"@,
            JsonView::Array(keep_prefixed(items, prefix)),
        ),
        _ => fields,
    }
}

/// Whether more entries were found than one page of `size` holds. A negative
/// size, read as an unsigned number, exceeds every length a list can have.
pub open spec fn exceeds_page(count: nat, size: int) -> bool {
    size >= 0 && count > size
}

/// `metadata.pagination` with `total` and `has_next` set, where both objects exist.
pub open spec fn pagination_updated(
    fields: Seq<(Seq<char>, JsonView)>,
    total: nat,
    has_next: bool,
) -> Seq<(Seq<char>, JsonView)> {
    match member(fields, "metadata"@) {
        Some(JsonView::Object(meta)) => match member(meta, "pagination"@) {
            Some(JsonView::Object(page)) => with_member(
                fields,
                "metadata"@,
                JsonView::Object(
                    with_member(
                        meta,
                        "pagination"@,
                        JsonView::Object(
                            with_member(
                                with_member(page, "total"@, JsonView::Number(decimal(total))),
                                "has_next"@,
                                JsonView::Bool(has_next),
                            ),
                        ),
                    ),
                ),
            ),
            _ => fields,
        },
        _ => fields,
    }
}

/// The answer of the stock service after narrowing it to `prefix`: only the
/// entries with that prefix stay in `data`, and the pagination reports how
/// many there are and whether they exceed one page of `size`. A document that
/// is not an object is passed on as it is.
pub open spec fn rewritten_page(page: JsonView, prefix: Seq<char>, size: int) -> JsonView {
    match page {
        JsonView::Object(fields) => {
            let total = matching_count(fields, prefix);
            JsonView::Object(
                pagination_updated(
                    data_narrowed(fields, prefix),
                    total,
                    exceeds_page(total, size),
                ),
            )
        },
        _ => page,
    }
}

fn key(s: &str) -> (k: String)
    ensures
        k@ == s@,
{
    s.to_string()
}

/// Whether a stock entry carries `prefix`.
pub fn item_has_prefix(item: &Json, prefix: &String) -> (res: bool)
    ensures
        res == has_prefix(item@, prefix@),
{
    match item {
        Json::Object(fields) => {
            proof {
                lemma_fields_view(fields@);
                lemma_key_position_valid(fields_view(fields@), "prefix"@);
            }
            match find_member(fields, &key("prefix")) {
                Some(i) => match &fields[i].1 {
                    Json::Str(s) => *s == *prefix,
                    _ => false,
                },
                None => false,
            }
        },
        _ => false,
    }
}

/// Keeps the entries that carry `prefix`, in their order.
pub fn keep_prefixed_items(items: Vec<Json>, prefix: &String) -> (kept: Vec<Json>)
    ensures
        items_view(kept@) == keep_prefixed(items_view(items@), prefix@),
{
    let ghost all = items@;
    let ghost pred = |item: JsonView| has_prefix(item, prefix@);
    let mut kept: Vec<Json> = Vec::new();
    proof {
        assert(all.take(0) =~= Seq::<Json>::empty());
        assert(items_view(Seq::<Json>::empty()) =~= Seq::<JsonView>::empty());
        reveal(Seq::filter);
    }
    for item in it: items.into_iter()
        invariant
            it.seq() == all,
            pred == (|item: JsonView| has_prefix(item, prefix@)),
            items_view(kept@) == items_view(all.take(it.index())).filter(pred),
    {
        let ghost i = it.index();
        let ghost before = kept@;
        proof {
            assert(all.take(i + 1).drop_last() =~= all.take(i));
            assert(all.take(i + 1).last() == item);
            assert(items_view(all.take(i + 1)) == items_view(all.take(i)).push(json_view(item)));
            assert(items_view(all.take(i + 1)).drop_last() =~= items_view(all.take(i)));
            reveal(Seq::filter);
        }
        let ghost item_view = json_view(item);
        if item_has_prefix(&item, prefix) {
            kept.push(item);
            proof {
                assert(kept@.drop_last() =~= before);
                assert(items_view(kept@) == items_view(before).push(item_view));
                assert(pred(item_view));
            }
        } else {
            proof {
                assert(!pred(item_view));
            }
        }
    }
    proof {
        assert(all.take(all.len() as int) =~= all);
    }
    kept
}

/// Sets `total` and `has_next` in `metadata.pagination`, where both are objects.
pub fn update_pagination(fields: &mut Vec<(String, Json)>, total: usize, has_next: bool)
    ensures
        fields_view(final(fields)@) == pagination_updated(
            fields_view(old(fields)@),
            total as nat,
            has_next,
        ),
{
    let ghost outer = fields_view(fields@);
    proof {
        lemma_fields_view(fields@);
        lemma_key_position_valid(outer, "metadata"@);
    }
    match find_member(fields, &key("metadata")) {
        Some(i) => {
            let (meta_key, meta) = fields.remove(i);
            match meta {
                Json::Object(mut meta_fields) => {
                    let ghost middle = fields_view(meta_fields@);
                    proof {
                        lemma_fields_view(meta_fields@);
                        lemma_key_position_valid(middle, "pagination"@);
                    }
                    match find_member(&meta_fields, &key("pagination")) {
                        Some(j) => {
                            let (page_key, page) = meta_fields.remove(j);
                            match page {
                                Json::Object(mut page_fields) => {
                                    let ghost inner = fields_view(page_fields@);
                                    set_member(
                                        &mut page_fields,
                                        key("total"),
                                        Json::Number(u64_decimal(total as u64)),
                                    );
                                    set_member(&mut page_fields, key("has_next"), Json::Bool(has_next));
                                    let ghost new_inner = fields_view(page_fields@);
                                    assert(new_inner == with_member(
                                        with_member(inner, "total"@, JsonView::Number(decimal(total as nat))),
                                        "has_next"@,
                                        JsonView::Bool(has_next),
                                    ));
                                    meta_fields.insert(j, (page_key, Json::Object(page_fields)));
                                    proof {
                                        lemma_fields_view(meta_fields@);
                                        assert(fields_view(meta_fields@) =~= middle.update(
                                            j as int,
                                            ("pagination"@, JsonView::Object(new_inner)),
                                        ));
                                    }
                                },
                                other => {
                                    meta_fields.insert(j, (page_key, other));
                                    proof {
                                        lemma_fields_view(meta_fields@);
                                        assert(fields_view(meta_fields@) =~= middle);
                                    }
                                },
                            }
                        },
                        None => {},
                    }
                    let ghost new_middle = fields_view(meta_fields@);
                    fields.insert(i, (meta_key, Json::Object(meta_fields)));
                    proof {
                        lemma_fields_view(fields@);
                        if member(middle, "pagination"@) matches Some(JsonView::Object(_)) {
                            assert(fields_view(fields@) =~= outer.update(
                                i as int,
                                ("metadata"@, JsonView::Object(new_middle)),
                            ));
                        } else {
                            assert(new_middle == middle);
                            assert(fields_view(fields@) =~= outer);
                        }
                    }
                },
                other => {
                    fields.insert(i, (meta_key, other));
                    proof {
                        lemma_fields_view(fields@);
                        assert(fields_view(fields@) =~= outer);
                    }
                },
            }
        },
        None => {},
    }
}

/// Whether `count` entries exceed one page of `size` (`count > size as usize`).
pub fn exceeds(count: usize, size: i32) -> (res: bool)
    ensures
        res == exceeds_page(count as nat, size as int),
{
    size >= 0 && count > (size as usize)
}

/// Narrows the stock service's answer to the entries with `prefix` and
/// rewrites its pagination to match: `total` is the number of entries kept,
/// `has_next` whether they exceed one page of `size`.
pub fn rewrite_stock_page(page: Json, prefix: &String, size: i32) -> (res: Json)
    ensures
        res@ == rewritten_page(page@, prefix@, size as int),
{
    match page {
        Json::Object(mut fields) => {
            let ghost original = fields_view(fields@);
            proof {
                lemma_fields_view(fields@);
                lemma_key_position_valid(original, "data"@);
            }
            let mut total: usize = 0;
            match find_member(&fields, &key("data")) {
                Some(i) => {
                    let (data_key, data) = fields.remove(i);
                    match data {
                        Json::Array(items) => {
                            let kept = keep_prefixed_items(items, prefix);
                            total = kept.len();
                            proof {
                                crate::json::lemma_items_view(kept@);
                            }
                            let ghost kept_view = items_view(kept@);
                            fields.insert(i, (data_key, Json::Array(kept)));
                            proof {
                                lemma_fields_view(fields@);
                                assert(fields_view(fields@) =~= original.update(
                                    i as int,
                                    ("data"@, JsonView::Array(kept_view)),
                                ));
                            }
                        },
                        other => {
                            fields.insert(i, (data_key, other));
                            proof {
                                lemma_fields_view(fields@);
                                assert(fields_view(fields@) =~= original);
                            }
                        },
                    }
                },
                None => {},
            }
            assert(fields_view(fields@) == data_narrowed(original, prefix@));
            assert(total as nat == matching_count(original, prefix@));
            let has_next = exceeds(total, size);
            update_pagination(&mut fields, total, has_next);
            Json::Object(fields)
        },
        other => other,
    }
}

proof fn lemma_distinct_keys()
    ensures
        "data"@ != "metadata"@,
        "total"@ != "has_next"@,
{
    reveal_strlit("data");
    reveal_strlit("metadata");
    reveal_strlit("total");
    reveal_strlit("has_next");
    assert("data"@.len() != "metadata"@.len());
    assert("total"@.len() != "has_next"@.len());
}

/// Narrowing keeps exactly the entries with the prefix, in order.
pub proof fn lemma_keep_prefixed(items: Seq<JsonView>, prefix: Seq<char>)
    ensures
        forall|i: int|
            0 <= i < keep_prefixed(items, prefix).len() ==> has_prefix(
                #[trigger] keep_prefixed(items, prefix)[i],
                prefix,
            ),
        forall|i: int|
            0 <= i < items.len() && has_prefix(items[i], prefix) ==> #[trigger] keep_prefixed(
                items,
                prefix,
            ).contains(items[i]),
        keep_prefixed(items, prefix).len() <= items.len(),
{
    broadcast use vstd::seq_lib::group_filter_ensures;

}

/// A list all of whose entries carry the prefix is narrowed to itself.
pub proof fn lemma_keep_prefixed_all(items: Seq<JsonView>, prefix: Seq<char>)
    requires
        forall|i: int| 0 <= i < items.len() ==> has_prefix(#[trigger] items[i], prefix),
    ensures
        keep_prefixed(items, prefix) == items,
    decreases items.len(),
{
    reveal(Seq::filter);
    if items.len() > 0 {
        lemma_keep_prefixed_all(items.drop_last(), prefix);
        assert(items.drop_last().push(items.last()) =~= items);
    }
}

/// The members of the rewritten page, where it is an object.
pub open spec fn rewritten_members(
    fields: Seq<(Seq<char>, JsonView)>,
    prefix: Seq<char>,
    size: int,
) -> Seq<(Seq<char>, JsonView)> {
    let total = matching_count(fields, prefix);
    pagination_updated(data_narrowed(fields, prefix), total, exceeds_page(total, size))
}

/// The rewriting touches no member but `data` and `metadata`.
pub proof fn lemma_rewrite_keeps_other_members(
    fields: Seq<(Seq<char>, JsonView)>,
    prefix: Seq<char>,
    size: int,
    other: Seq<char>,
)
    requires
        other != "data"@,
        other != "metadata"@,
    ensures
        member(rewritten_members(fields, prefix, size), other) == member(fields, other),
{
    let narrowed = data_narrowed(fields, prefix);
    if let Some(JsonView::Array(items)) = member(fields, "data"@) {
        lemma_member_set_other(fields, "data"@, other, JsonView::Array(keep_prefixed(items, prefix)));
    }
    let total = matching_count(fields, prefix);
    if let Some(JsonView::Object(meta)) = member(narrowed, "metadata"@) {
        if let Some(JsonView::Object(page)) = member(meta, "pagination"@) {
            lemma_member_set_other(
                narrowed,
                "metadata"@,
                other,
                JsonView::Object(
                    with_member(
                        meta,
                        "pagination"@,
                        JsonView::Object(
                            with_member(
                                with_member(page, "total"@, JsonView::Number(decimal(total))),
                                "has_next"@,
                                JsonView::Bool(exceeds_page(total, size)),
                            ),
                        ),
                    ),
                ),
            );
        }
    }
}

/// Where the page has a `data` list, the rewritten page's `data` holds exactly
/// the entries with the requested prefix, in their order.
pub proof fn lemma_rewrite_data(
    fields: Seq<(Seq<char>, JsonView)>,
    prefix: Seq<char>,
    size: int,
    items: Seq<JsonView>,
)
    requires
        member(fields, "data"@) == Some(JsonView::Array(items)),
    ensures
        member(rewritten_members(fields, prefix, size), "data"@) == Some(
            JsonView::Array(keep_prefixed(items, prefix)),
        ),
        matching_count(fields, prefix) == keep_prefixed(items, prefix).len(),
{
    lemma_distinct_keys();
    let kept = JsonView::Array(keep_prefixed(items, prefix));
    lemma_member_set_same(fields, "data"@, kept);
    let narrowed = data_narrowed(fields, prefix);
    let total = matching_count(fields, prefix);
    if let Some(JsonView::Object(meta)) = member(narrowed, "metadata"@) {
        if let Some(JsonView::Object(page)) = member(meta, "pagination"@) {
            lemma_member_set_other(
                narrowed,
                "metadata"@,
                "data"@,
                JsonView::Object(
                    with_member(
                        meta,
                        "pagination"@,
                        JsonView::Object(
                            with_member(
                                with_member(page, "total"@, JsonView::Number(decimal(total))),
                                "has_next"@,
                                JsonView::Bool(exceeds_page(total, size)),
                            ),
                        ),
                    ),
                ),
            );
        }
    }
}

/// The members of `metadata.pagination`, where both are objects.
pub open spec fn pagination_of(fields: Seq<(Seq<char>, JsonView)>) -> Option<Seq<(Seq<char>, JsonView)>> {
    match member(fields, "metadata"@) {
        Some(JsonView::Object(meta)) => match member(meta, "pagination"@) {
            Some(JsonView::Object(page)) => Some(page),
            _ => None,
        },
        _ => None,
    }
}

/// The pagination members once `total` and `has_next` are set.
pub open spec fn counted(page: Seq<(Seq<char>, JsonView)>, total: nat, has_next: bool) -> Seq<
    (Seq<char>, JsonView),
> {
    with_member(
        with_member(page, "total"@, JsonView::Number(decimal(total))),
        "has_next"@,
        JsonView::Bool(has_next),
    )
}

proof fn lemma_counted(page: Seq<(Seq<char>, JsonView)>, total: nat, has_next: bool)
    ensures
        member(counted(page, total, has_next), "total"@) == Some(JsonView::Number(decimal(total))),
        member(counted(page, total, has_next), "has_next"@) == Some(JsonView::Bool(has_next)),
        counted(counted(page, total, has_next), total, has_next) == counted(page, total, has_next),
{
    lemma_distinct_keys();
    let t = JsonView::Number(decimal(total));
    let h = JsonView::Bool(has_next);
    let once = counted(page, total, has_next);
    lemma_member_set_same(with_member(page, "total"@, t), "has_next"@, h);
    lemma_member_set_same(page, "total"@, t);
    lemma_member_set_other(with_member(page, "total"@, t), "has_next"@, "total"@, h);
    lemma_member_set_unchanged(once, "total"@, t);
    lemma_member_set_unchanged(once, "has_next"@, h);
}

/// Setting the pagination of members whose pagination is already set that way
/// changes nothing, and the members outside `metadata` stay as they are.
proof fn lemma_pagination_updated(fields: Seq<(Seq<char>, JsonView)>, total: nat, has_next: bool)
    ensures
        pagination_of(pagination_updated(fields, total, has_next)) == match pagination_of(fields) {
            Some(page) => Some(counted(page, total, has_next)),
            None => None,
        },
        pagination_updated(pagination_updated(fields, total, has_next), total, has_next)
            == pagination_updated(fields, total, has_next),
        member(pagination_updated(fields, total, has_next), "data"@) == member(fields, "data"@),
{
    lemma_distinct_keys();
    if let Some(JsonView::Object(meta)) = member(fields, "metadata"@) {
        if let Some(JsonView::Object(page)) = member(meta, "pagination"@) {
            let page2 = counted(page, total, has_next);
            let meta2 = with_member(meta, "pagination"@, JsonView::Object(page2));
            let fields2 = with_member(fields, "metadata"@, JsonView::Object(meta2));
            lemma_member_set_same(fields, "metadata"@, JsonView::Object(meta2));
            lemma_member_set_same(meta, "pagination"@, JsonView::Object(page2));
            lemma_member_set_other(fields, "metadata"@, "data"@, JsonView::Object(meta2));
            lemma_counted(page, total, has_next);
            lemma_member_set_unchanged(meta2, "pagination"@, JsonView::Object(page2));
            lemma_member_set_unchanged(fields2, "metadata"@, JsonView::Object(meta2));
        }
    }
}

/// Rewriting a page that was already rewritten the same way changes nothing.
pub proof fn lemma_rewrite_idempotent(page: JsonView, prefix: Seq<char>, size: int)
    ensures
        rewritten_page(rewritten_page(page, prefix, size), prefix, size) == rewritten_page(
            page,
            prefix,
            size,
        ),
{
    lemma_distinct_keys();
    if let JsonView::Object(fields) = page {
        let once = rewritten_members(fields, prefix, size);
        let narrowed = data_narrowed(fields, prefix);
        let total = matching_count(fields, prefix);
        let has_next = exceeds_page(total, size);
        lemma_pagination_updated(narrowed, total, has_next);
        match member(fields, "data"@) {
            Some(JsonView::Array(items)) => {
                let kept = keep_prefixed(items, prefix);
                lemma_rewrite_data(fields, prefix, size, items);
                lemma_keep_prefixed(items, prefix);
                lemma_keep_prefixed_all(kept, prefix);
                lemma_member_set_unchanged(once, "data"@, JsonView::Array(kept));
                assert(data_narrowed(once, prefix) == once);
                assert(matching_count(once, prefix) == total);
            },
            _ => {
                assert(narrowed == fields);
                assert(data_narrowed(once, prefix) == once);
                assert(matching_count(once, prefix) == 0);
            },
        }
        assert(rewritten_members(once, prefix, size) == once);
    }
}

/// Where the page has `metadata.pagination`, the rewritten page reports there
/// how many entries carry the prefix and whether they exceed one page.
pub proof fn lemma_rewrite_pagination(
    fields: Seq<(Seq<char>, JsonView)>,
    prefix: Seq<char>,
    size: int,
    page: Seq<(Seq<char>, JsonView)>,
)
    requires
        pagination_of(fields) == Some(page),
    ensures
        pagination_of(rewritten_members(fields, prefix, size)) == Some(
            counted(page, matching_count(fields, prefix), exceeds_page(matching_count(fields, prefix), size)),
        ),
        member(counted(page, matching_count(fields, prefix), exceeds_page(matching_count(fields, prefix), size)), "total"@)
            == Some(JsonView::Number(decimal(matching_count(fields, prefix)))),
        member(counted(page, matching_count(fields, prefix), exceeds_page(matching_count(fields, prefix), size)), "has_next"@)
            == Some(JsonView::Bool(exceeds_page(matching_count(fields, prefix), size))),
{
    lemma_distinct_keys();
    let total = matching_count(fields, prefix);
    let narrowed = data_narrowed(fields, prefix);
    if let Some(JsonView::Array(items)) = member(fields, "data"@) {
        lemma_member_set_other(fields, "data"@, "metadata"@, JsonView::Array(keep_prefixed(items, prefix)));
    }
    assert(pagination_of(narrowed) == pagination_of(fields));
    lemma_pagination_updated(narrowed, total, exceeds_page(total, size));
    lemma_counted(page, total, exceeds_page(total, size));
}

/// Rewriting a page whose members have distinct keys keeps them distinct.
pub proof fn lemma_rewrite_keeps_keys_distinct(fields: Seq<(Seq<char>, JsonView)>, prefix: Seq<char>, size: int)
    requires
        keys_distinct(fields),
    ensures
        keys_distinct(rewritten_members(fields, prefix, size)),
{
    let narrowed = data_narrowed(fields, prefix);
    let total = matching_count(fields, prefix);
    if let Some(JsonView::Array(items)) = member(fields, "data"@) {
        lemma_member_set_distinct(fields, "data"@, JsonView::Array(keep_prefixed(items, prefix)));
    }
    if let Some(JsonView::Object(meta)) = member(narrowed, "metadata"@) {
        if let Some(JsonView::Object(page)) = member(meta, "pagination"@) {
            lemma_member_set_distinct(
                narrowed,
                "metadata"@,
                JsonView::Object(
                    with_member(
                        meta,
                        "pagination"@,
                        JsonView::Object(counted(page, total, exceeds_page(total, size))),
                    ),
                ),
            );
        }
    }
}

/// The members of an object (none for any other value).
pub open spec fn members_of(value: JsonView) -> Seq<(Seq<char>, JsonView)> {
    match value {
        JsonView::Object(members) => members,
        _ => Seq::empty(),
    }
}

/// An entry carries `prefix` when it is an object one of whose members is
/// named "prefix" and holds that string, wherever that member stands.
pub open spec fn carries_prefix(item: JsonView, prefix: Seq<char>) -> bool {
    match item {
        JsonView::Object(members) => exists|k: int|
            0 <= k < members.len() && #[trigger] members[k] == ("prefix"@, JsonView::Str(prefix)),
        _ => false,
    }
}

/// Every entry that is an object has distinct keys, as a parsed document has.
pub open spec fn entries_well_formed(items: Seq<JsonView>) -> bool {
    forall|i: int|
        0 <= i < items.len() ==> (#[trigger] items[i] matches JsonView::Object(members) ==> keys_distinct(members))
}

proof fn lemma_has_prefix_carries(item: JsonView, prefix: Seq<char>)
    requires
        item matches JsonView::Object(members) ==> keys_distinct(members),
    ensures
        has_prefix(item, prefix) == carries_prefix(item, prefix),
{
    if let JsonView::Object(members) = item {
        if carries_prefix(item, prefix) {
            let k = choose|k: int|
                0 <= k < members.len() && #[trigger] members[k] == ("prefix"@, JsonView::Str(prefix));
            lemma_member_at(members, "prefix"@, k);
        }
        if has_prefix(item, prefix) {
            lemma_key_position_valid(members, "prefix"@);
            let k = key_position(members, "prefix"@)->0;
            assert(members[k] == ("prefix"@, JsonView::Str(prefix)));
        }
    }
}

proof fn lemma_filter_agree(
    items: Seq<JsonView>,
    p: spec_fn(JsonView) -> bool,
    q: spec_fn(JsonView) -> bool,
)
    requires
        forall|i: int| 0 <= i < items.len() ==> p(#[trigger] items[i]) == q(items[i]),
    ensures
        items.filter(p) == items.filter(q),
    decreases items.len(),
{
    reveal(Seq::filter);
    if items.len() > 0 {
        lemma_filter_agree(items.drop_last(), p, q);
        assert(p(items[items.len() - 1]) == q(items[items.len() - 1]));
    }
}

proof fn lemma_kept_are_carriers(items: Seq<JsonView>, prefix: Seq<char>)
    requires
        entries_well_formed(items),
    ensures
        keep_prefixed(items, prefix) == items.filter(|x: JsonView| carries_prefix(x, prefix)),
{
    assert forall|i: int| 0 <= i < items.len() implies (|x: JsonView| has_prefix(x, prefix))(
        #[trigger] items[i],
    ) == (|x: JsonView| carries_prefix(x, prefix))(items[i]) by {
        lemma_has_prefix_carries(items[i], prefix);
    }
    lemma_filter_agree(
        items,
        |x: JsonView| has_prefix(x, prefix),
        |x: JsonView| carries_prefix(x, prefix),
    );
}

/// Rewriting a page with a `data` list (the keys of the page and of its
/// entries distinct, as in any parsed document) leaves in `data` exactly the
/// entries carrying the requested prefix, in their order, whatever the order
/// of their members. Every other member keeps its place and key, and all but
/// `metadata` keep their value.
pub proof fn lemma_rewrite_narrows_data(
    fields: Seq<(Seq<char>, JsonView)>,
    prefix: Seq<char>,
    size: int,
    d: int,
    items: Seq<JsonView>,
)
    requires
        keys_distinct(fields),
        0 <= d < fields.len(),
        fields[d] == ("data"@, JsonView::Array(items)),
        entries_well_formed(items),
    ensures
        ({
            let out = rewritten_page(JsonView::Object(fields), prefix, size);
            let r = members_of(out);
            &&& out is Object
            &&& r.len() == fields.len()
            &&& r[d] == ("data"@, JsonView::Array(items.filter(|x: JsonView| carries_prefix(x, prefix))))
            &&& forall|i: int|
                0 <= i < fields.len() && i != d ==> #[trigger] r[i].0 == fields[i].0 && (fields[i].0
                    != "metadata"@ ==> r[i] == fields[i])
        }),
{
    lemma_distinct_keys();
    lemma_member_at(fields, "data"@, d);
    lemma_kept_are_carriers(items, prefix);
    let kept = keep_prefixed(items, prefix);
    let narrowed = data_narrowed(fields, prefix);
    assert(narrowed == fields.update(d, ("data"@, JsonView::Array(kept))));
    let total = matching_count(fields, prefix);
    let r = pagination_updated(narrowed, total, exceeds_page(total, size));
    lemma_key_position_valid(narrowed, "metadata"@);
    if r != narrowed {
        let m = key_position(narrowed, "metadata"@)->0;
        assert(narrowed[m].0 == "metadata"@);
        assert(m != d);
    }
}

/// Where the page also has `metadata.pagination` (each an object with
/// distinct keys), the rewritten pagination holds as `total` the decimal count
/// of the entries left in `data`, and as `has_next` whether that count
/// exceeds one page of `size`.
pub proof fn lemma_rewrite_counts_data(
    fields: Seq<(Seq<char>, JsonView)>,
    prefix: Seq<char>,
    size: int,
    d: int,
    items: Seq<JsonView>,
    m: int,
    meta: Seq<(Seq<char>, JsonView)>,
    q: int,
    page: Seq<(Seq<char>, JsonView)>,
)
    requires
        keys_distinct(fields),
        0 <= d < fields.len(),
        fields[d] == ("data"@, JsonView::Array(items)),
        entries_well_formed(items),
        0 <= m < fields.len(),
        fields[m] == ("metadata"@, JsonView::Object(meta)),
        keys_distinct(meta),
        0 <= q < meta.len(),
        meta[q] == ("pagination"@, JsonView::Object(page)),
    ensures
        ({
            let kept = items.filter(|x: JsonView| carries_prefix(x, prefix));
            let out = rewritten_page(JsonView::Object(fields), prefix, size);
            let r = members_of(out);
            let meta2 = members_of(r[m].1);
            let page2 = members_of(meta2[q].1);
            &&& out is Object
            &&& r[d] == ("data"@, JsonView::Array(kept))
            &&& r[m].0 == "metadata"@
            &&& r[m].1 is Object
            &&& meta2.len() == meta.len()
            &&& meta2[q].0 == "pagination"@
            &&& meta2[q].1 is Object
            &&& exists|k: int|
                0 <= k < page2.len() && #[trigger] page2[k] == (
                    "total"@,
                    JsonView::Number(decimal(kept.len())),
                )
            &&& exists|k: int|
                0 <= k < page2.len() && #[trigger] page2[k] == (
                    "has_next"@,
                    JsonView::Bool(size >= 0 && kept.len() > size),
                )
        }),
{
    lemma_distinct_keys();
    lemma_rewrite_narrows_data(fields, prefix, size, d, items);
    lemma_member_at(fields, "data"@, d);
    lemma_kept_are_carriers(items, prefix);
    let kept = keep_prefixed(items, prefix);
    let narrowed = data_narrowed(fields, prefix);
    assert(narrowed == fields.update(d, ("data"@, JsonView::Array(kept))));
    assert(m != d);
    lemma_member_set_distinct(fields, "data"@, JsonView::Array(kept));
    lemma_member_at(narrowed, "metadata"@, m);
    lemma_member_at(meta, "pagination"@, q);
    let total = matching_count(fields, prefix);
    assert(total == kept.len());
    let has_next = exceeds_page(total, size);
    let page2 = counted(page, total, has_next);
    let meta2 = with_member(meta, "pagination"@, JsonView::Object(page2));
    assert(meta2 == meta.update(q, ("pagination"@, JsonView::Object(page2))));
    let r = pagination_updated(narrowed, total, has_next);
    assert(r == narrowed.update(m, ("metadata"@, JsonView::Object(meta2))));
    lemma_counted(page, total, has_next);
    lemma_key_position_valid(page2, "total"@);
    lemma_key_position_valid(page2, "has_next"@);
    let kt = key_position(page2, "total"@)->0;
    let kh = key_position(page2, "has_next"@)->0;
    assert(page2[kt] == ("total"@, JsonView::Number(decimal(kept.len()))));
    assert(page2[kh] == ("has_next"@, JsonView::Bool(size >= 0 && kept.len() > size)));
    assert(rewritten_page(JsonView::Object(fields), prefix, size) == JsonView::Object(r));
    assert(members_of(JsonView::Object(r)) == r);
    assert(r[m] == ("metadata"@, JsonView::Object(meta2)));
    assert(members_of(r[m].1) == meta2);
    assert(meta2[q] == ("pagination"@, JsonView::Object(page2)));
    assert(members_of(meta2[q].1) == page2);
    assert(r[d] == narrowed[d]);
}

/// A page without a `data` member reports no entries: `total` is "0" and
/// `has_next` false, where `metadata.pagination` exists.
pub proof fn lemma_rewrite_counts_nothing_without_data(
    fields: Seq<(Seq<char>, JsonView)>,
    prefix: Seq<char>,
    size: int,
    m: int,
    meta: Seq<(Seq<char>, JsonView)>,
    q: int,
    page: Seq<(Seq<char>, JsonView)>,
)
    requires
        keys_distinct(fields),
        forall|i: int| 0 <= i < fields.len() ==> #[trigger] fields[i].0 != "data"@,
        0 <= m < fields.len(),
        fields[m] == ("metadata"@, JsonView::Object(meta)),
        keys_distinct(meta),
        0 <= q < meta.len(),
        meta[q] == ("pagination"@, JsonView::Object(page)),
    ensures
        ({
            let out = rewritten_page(JsonView::Object(fields), prefix, size);
            let r = members_of(out);
            let meta2 = members_of(r[m].1);
            let page2 = members_of(meta2[q].1);
            &&& out is Object
            &&& r.len() == fields.len()
            &&& r[m].0 == "metadata"@
            &&& r[m].1 is Object
            &&& meta2[q].0 == "pagination"@
            &&& meta2[q].1 is Object
            &&& exists|k: int|
                0 <= k < page2.len() && #[trigger] page2[k] == ("total"@, JsonView::Number(decimal(0)))
            &&& exists|k: int|
                0 <= k < page2.len() && #[trigger] page2[k] == ("has_next"@, JsonView::Bool(false))
        }),
{
    lemma_distinct_keys();
    crate::json::lemma_key_position_absent(fields, "data"@);
    lemma_member_at(fields, "metadata"@, m);
    lemma_member_at(meta, "pagination"@, q);
    let page2 = counted(page, 0, false);
    let meta2 = with_member(meta, "pagination"@, JsonView::Object(page2));
    assert(meta2 == meta.update(q, ("pagination"@, JsonView::Object(page2))));
    lemma_counted(page, 0, false);
    lemma_key_position_valid(page2, "total"@);
    lemma_key_position_valid(page2, "has_next"@);
    let kt = key_position(page2, "total"@)->0;
    let kh = key_position(page2, "has_next"@)->0;
    assert(page2[kt] == ("total"@, JsonView::Number(decimal(0))));
    assert(page2[kh] == ("has_next"@, JsonView::Bool(false)));
    assert(matching_count(fields, prefix) == 0);
    assert(data_narrowed(fields, prefix) == fields);
    let r = fields.update(m, ("metadata"@, JsonView::Object(meta2)));
    assert(pagination_updated(fields, 0, false) == r);
    assert(rewritten_page(JsonView::Object(fields), prefix, size) == JsonView::Object(r));
    assert(members_of(JsonView::Object(r)) == r);
    assert(members_of(r[m].1) == meta2);
    assert(members_of(meta2[q].1) == page2);
}

/// A document that is not an object is passed on as it is, for any prefix
/// and page size.
pub proof fn lemma_rewrite_passes_non_objects(page: JsonView, prefix: Seq<char>, size: int)
    requires
        !(page is Object),
    ensures
        rewritten_page(page, prefix, size) == page,
{
}

} // verus!
