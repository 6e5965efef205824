use vstd::prelude::*;

use crate::text::{i32_decimal, signed_decimal};

verus! {

/// Query of the Nar stock endpoint.
pub struct NarParams {
    pub page: i32,
    pub number: String,
    pub prefix: String,
    pub size: i32,
    pub provider_id: i32,
    /// Extra pause before the lookup, in milliseconds.
    pub time: u64,
}

/// Query of the Bakcell stock endpoint.
pub struct BakcellParams {
    pub page: i32,
    pub number: String,
    pub prefix: String,
    pub size: i32,
    pub provider_id: i32,
    pub organization: i32,
    pub msisdn_type: String,
    /// Extra pause before the lookup, in milliseconds.
    pub time: u64,
}

pub fn default_nar_prefix() -> (s: String)
    ensures
        s@ == "070"@,
{
    "070".to_string()
}

pub fn default_nar_size() -> (n: i32)
    ensures
        n == 50,
{
    50
}

pub fn default_nar_provider_id() -> (n: i32)
    ensures
        n == 1,
{
    1
}

pub fn default_bakcell_prefix() -> (s: String)
    ensures
        s@ == "55"@,
{
    "55".to_string()
}

pub fn default_bakcell_size() -> (n: i32)
    ensures
        n == 6,
{
    6
}

pub fn default_bakcell_provider_id() -> (n: i32)
    ensures
        n == 2,
{
    2
}

pub fn default_bakcell_organization() -> (n: i32)
    ensures
        n == 1,
{
    1
}

pub fn default_bakcell_msisdn_type() -> (s: String)
    ensures
        s@ == "E_SIM"@,
{
    "E_SIM".to_string()
}

/// Query pairs as plain character sequences.
pub open spec fn pairs_view(pairs: Seq<(String, String)>) -> Seq<(Seq<char>, Seq<char>)> {
    pairs.map_values(|p: (String, String)| (p.0@, p.1@))
}

/// No two query parameters share a name.
pub open spec fn names_distinct(pairs: Seq<(Seq<char>, Seq<char>)>) -> bool {
    forall|i: int, j: int|
        0 <= i < pairs.len() && 0 <= j < pairs.len() && i != j ==> #[trigger] pairs[i].0
            != #[trigger] pairs[j].0
}

impl NarParams {
    /// The query that a lookup of `number` with `prefix` uses when no other
    /// parameter is given: the first page, and every other value at its default.
    pub fn lookup(number: String, prefix: String) -> (p: NarParams)
        ensures
            p.page == 0,
            p.number@ == number@,
            p.prefix@ == prefix@,
            p.size == 50,
            p.provider_id == 1,
            p.time == 0,
    {
        NarParams {
            page: 0,
            number,
            prefix,
            size: default_nar_size(),
            provider_id: default_nar_provider_id(),
            time: 0,
        }
    }

    pub open spec fn query_view(&self) -> Seq<(Seq<char>, Seq<char>)> {
        seq![
            ("page"@, signed_decimal(self.page as int)),
            ("number"@, self.number@),
            ("prefix"@, self.prefix@),
            ("size"@, signed_decimal(self.size as int)),
            ("providerId"@, signed_decimal(self.provider_id as int)),
        ]
    }

    /// The query string parameters sent to the Nar service.
    pub fn query(&self) -> (pairs: Vec<(String, String)>)
        ensures
            pairs_view(pairs@) == self.query_view(),
    {
        let pairs = vec![
            ("page".to_string(), i32_decimal(self.page)),
            ("number".to_string(), self.number.clone()),
            ("prefix".to_string(), self.prefix.clone()),
            ("size".to_string(), i32_decimal(self.size)),
            ("providerId".to_string(), i32_decimal(self.provider_id)),
        ];
        assert(pairs_view(pairs@) =~= self.query_view());
        pairs
    }
}

impl BakcellParams {
    /// The query that a lookup of `number` with `prefix` uses when no other
    /// parameter is given: the first page, and every other value at its default.
    pub fn lookup(number: String, prefix: String) -> (p: BakcellParams)
        ensures
            p.page == 0,
            p.number@ == number@,
            p.prefix@ == prefix@,
            p.size == 6,
            p.provider_id == 2,
            p.organization == 1,
            p.msisdn_type@ == "E_SIM"@,
            p.time == 0,
    {
        BakcellParams {
            page: 0,
            number,
            prefix,
            size: default_bakcell_size(),
            provider_id: default_bakcell_provider_id(),
            organization: default_bakcell_organization(),
            msisdn_type: default_bakcell_msisdn_type(),
            time: 0,
        }
    }

    pub open spec fn query_view(&self) -> Seq<(Seq<char>, Seq<char>)> {
        seq![
            ("page"@, signed_decimal(self.page as int)),
            ("number"@, self.number@),
            ("prefix"@, self.prefix@),
            ("size"@, signed_decimal(self.size as int)),
            ("providerId"@, signed_decimal(self.provider_id as int)),
            ("organization"@, signed_decimal(self.organization as int)),
            ("msisdnType"@, self.msisdn_type@),
        ]
    }

    /// The query string parameters sent to the Bakcell service.
    pub fn query(&self) -> (pairs: Vec<(String, String)>)
        ensures
            pairs_view(pairs@) == self.query_view(),
    {
        let pairs = vec![
            ("page".to_string(), i32_decimal(self.page)),
            ("number".to_string(), self.number.clone()),
            ("prefix".to_string(), self.prefix.clone()),
            ("size".to_string(), i32_decimal(self.size)),
            ("providerId".to_string(), i32_decimal(self.provider_id)),
            ("organization".to_string(), i32_decimal(self.organization)),
            ("msisdnType".to_string(), self.msisdn_type.clone()),
        ];
        assert(pairs_view(pairs@) =~= self.query_view());
        pairs
    }
}

/// The Nar query names every parameter once.
pub proof fn lemma_nar_query_names_distinct(params: NarParams)
    ensures
        names_distinct(params.query_view()),
{
    reveal_strlit("page");
    reveal_strlit("number");
    reveal_strlit("prefix");
    reveal_strlit("size");
    reveal_strlit("providerId");
    let q = params.query_view();
    assert forall|i: int, j: int| 0 <= i < q.len() && 0 <= j < q.len() && i != j implies q[i].0
        != q[j].0 by {
        if q[i].0.len() == q[j].0.len() {
            assert(q[i].0[0] != q[j].0[0] || q[i].0[1] != q[j].0[1]);
        }
    }
}

/// The Bakcell query names every parameter once.
pub proof fn lemma_bakcell_query_names_distinct(params: BakcellParams)
    ensures
        names_distinct(params.query_view()),
{
    reveal_strlit("page");
    reveal_strlit("number");
    reveal_strlit("prefix");
    reveal_strlit("size");
    reveal_strlit("providerId");
    reveal_strlit("organization");
    reveal_strlit("msisdnType");
    let q = params.query_view();
    assert forall|i: int, j: int| 0 <= i < q.len() && 0 <= j < q.len() && i != j implies q[i].0
        != q[j].0 by {
        if q[i].0.len() == q[j].0.len() {
            assert(q[i].0[0] != q[j].0[0] || q[i].0[1] != q[j].0[1]);
        }
    }
}

/// The query names `name` with `value`.
pub open spec fn sends(query: Seq<(Seq<char>, Seq<char>)>, name: Seq<char>, value: Seq<char>) -> bool {
    exists|k: int| 0 <= k < query.len() && #[trigger] query[k] == (name, value)
}

/// The Nar query sends each of the lookup's parameters under its name, the
/// numbers in decimal, and nothing else.
pub proof fn lemma_nar_query_sends_params(params: NarParams)
    ensures
        params.query_view().len() == 5,
        sends(params.query_view(), "page"@, signed_decimal(params.page as int)),
        sends(params.query_view(), "number"@, params.number@),
        sends(params.query_view(), "prefix"@, params.prefix@),
        sends(params.query_view(), "size"@, signed_decimal(params.size as int)),
        sends(params.query_view(), "providerId"@, signed_decimal(params.provider_id as int)),
{
    let q = params.query_view();
    assert(q[0] == ("page"@, signed_decimal(params.page as int)));
    assert(q[1] == ("number"@, params.number@));
    assert(q[2] == ("prefix"@, params.prefix@));
    assert(q[3] == ("size"@, signed_decimal(params.size as int)));
    assert(q[4] == ("providerId"@, signed_decimal(params.provider_id as int)));
}

/// The Bakcell query sends each of the lookup's parameters under its name,
/// the numbers in decimal, and nothing else.
pub proof fn lemma_bakcell_query_sends_params(params: BakcellParams)
    ensures
        params.query_view().len() == 7,
        sends(params.query_view(), "page"@, signed_decimal(params.page as int)),
        sends(params.query_view(), "number"@, params.number@),
        sends(params.query_view(), "prefix"@, params.prefix@),
        sends(params.query_view(), "size"@, signed_decimal(params.size as int)),
        sends(params.query_view(), "providerId"@, signed_decimal(params.provider_id as int)),
        sends(params.query_view(), "organization"@, signed_decimal(params.organization as int)),
        sends(params.query_view(), "msisdnType"@, params.msisdn_type@),
{
    let q = params.query_view();
    assert(q[0] == ("page"@, signed_decimal(params.page as int)));
    assert(q[1] == ("number"@, params.number@));
    assert(q[2] == ("prefix"@, params.prefix@));
    assert(q[3] == ("size"@, signed_decimal(params.size as int)));
    assert(q[4] == ("providerId"@, signed_decimal(params.provider_id as int)));
    assert(q[5] == ("organization"@, signed_decimal(params.organization as int)));
    assert(q[6] == ("msisdnType"@, params.msisdn_type@));
}

} // verus!
