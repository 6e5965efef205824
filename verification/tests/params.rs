use api_proxy::params::{
    default_bakcell_msisdn_type, default_bakcell_organization, default_bakcell_prefix,
    default_bakcell_provider_id, default_bakcell_size, default_nar_prefix, default_nar_provider_id,
    default_nar_size, BakcellParams, NarParams,
};

fn pairs(list: &[(&str, &str)]) -> Vec<(String, String)> {
    list.iter().map(|(k, v)| (k.to_string(), v.to_string())).collect()
}

#[test]
fn nar_defaults() {
    assert_eq!(default_nar_prefix(), "070");
    assert_eq!(default_nar_size(), 50);
    assert_eq!(default_nar_provider_id(), 1);
}

#[test]
fn bakcell_defaults() {
    assert_eq!(default_bakcell_prefix(), "55");
    assert_eq!(default_bakcell_size(), 6);
    assert_eq!(default_bakcell_provider_id(), 2);
    assert_eq!(default_bakcell_organization(), 1);
    assert_eq!(default_bakcell_msisdn_type(), "E_SIM");
}

#[test]
fn nar_query_pairs() {
    let params = NarParams {
        page: 3,
        number: "123456".to_string(),
        prefix: "070".to_string(),
        size: 10,
        provider_id: 1,
        time: 0,
    };
    assert_eq!(
        params.query(),
        pairs(&[("page", "3"), ("number", "123456"), ("prefix", "070"), ("size", "10"), ("providerId", "1")])
    );
}

#[test]
fn bakcell_query_pairs() {
    let params = BakcellParams {
        page: -1,
        number: "99".to_string(),
        prefix: "55".to_string(),
        size: 6,
        provider_id: 2,
        organization: 1,
        msisdn_type: "E_SIM".to_string(),
        time: 5,
    };
    assert_eq!(
        params.query(),
        pairs(&[
            ("page", "-1"),
            ("number", "99"),
            ("prefix", "55"),
            ("size", "6"),
            ("providerId", "2"),
            ("organization", "1"),
            ("msisdnType", "E_SIM"),
        ])
    );
}

#[test]
fn lookup_uses_first_page_and_defaults() {
    let nar = NarParams::lookup("1234".to_string(), "077".to_string());
    assert_eq!(
        nar.query(),
        pairs(&[("page", "0"), ("number", "1234"), ("prefix", "077"), ("size", "50"), ("providerId", "1")])
    );
    assert_eq!(nar.time, 0);
    let bakcell = BakcellParams::lookup("42".to_string(), "99".to_string());
    assert_eq!(
        bakcell.query(),
        pairs(&[
            ("page", "0"),
            ("number", "42"),
            ("prefix", "99"),
            ("size", "6"),
            ("providerId", "2"),
            ("organization", "1"),
            ("msisdnType", "E_SIM"),
        ])
    );
}

#[test]
fn readme_nar_request_query() {
    // /nar/stock?page=1&number=123456&prefix=070&size=10
    let params = NarParams {
        page: 1,
        number: "123456".to_string(),
        prefix: "070".to_string(),
        size: 10,
        provider_id: default_nar_provider_id(),
        time: 0,
    };
    assert_eq!(
        params.query(),
        pairs(&[("page", "1"), ("number", "123456"), ("prefix", "070"), ("size", "10"), ("providerId", "1")])
    );
}

#[test]
fn readme_bakcell_request_query() {
    // /bakcell/stock?page=1&number=123456&prefix=55&size=6&msisdn_type=E_SIM
    let params = BakcellParams {
        page: 1,
        number: "123456".to_string(),
        prefix: "55".to_string(),
        size: 6,
        provider_id: default_bakcell_provider_id(),
        organization: default_bakcell_organization(),
        msisdn_type: "E_SIM".to_string(),
        time: 0,
    };
    assert_eq!(
        params.query(),
        pairs(&[
            ("page", "1"),
            ("number", "123456"),
            ("prefix", "55"),
            ("size", "6"),
            ("providerId", "2"),
            ("organization", "1"),
            ("msisdnType", "E_SIM"),
        ])
    );
}
