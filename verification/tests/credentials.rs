use mongoac::bson::BsonViewT;
use mongoac::credential::{AuthMechanismT, mongoac_credential_new, mongoac_credential_set_mechanism, mongoac_credential_set_mechanism_properties, mongoac_credential_set_password, mongoac_credential_set_source, mongoac_credential_set_username};
use mongoac::error::{ErrorCategoryT, ErrorCodeT};

#[test]
fn credential_fields() {
    let mut c = mongoac_credential_new();
    mongoac_credential_set_username(&mut c, Some("alice"));
    mongoac_credential_set_source(&mut c, Some("admin"));
    mongoac_credential_set_password(&mut c, None);
    assert_eq!(c.username.as_deref(), Some("alice"));
    assert_eq!(c.source.as_deref(), Some("admin"));
    assert!(c.password.is_none());
}

#[test]
fn unknown_mechanism_is_refused() {
    let mut c = mongoac_credential_new();
    mongoac_credential_set_mechanism(&mut c, 1).unwrap();
    let before = c.mechanism;
    let e = mongoac_credential_set_mechanism(&mut c, 9).unwrap_err();
    assert_eq!(e.code(), ErrorCodeT::InvalidArgument);
    assert_eq!(e.message(), Some("invalid argument: unknown mongoac_auth_mechanism_t: 9".to_string()));
    assert_eq!(c.mechanism, before);
    let e = mongoac_credential_set_mechanism(&mut c, -2).unwrap_err();
    assert_eq!(e.message(), Some("invalid argument: unknown mongoac_auth_mechanism_t: -2".to_string()));
}

#[test]
fn mechanism_integers_round_trip() {
    for v in [-1, 0, 1, 2, 3, 4, 5, 6, i32::MAX] {
        assert_eq!(i32::from(AuthMechanismT::from(v)), v);
    }
}

#[test]
fn mechanism_properties_from_bson() {
    let mut c = mongoac_credential_new();
    let mut d = mongodb::bson::Document::new();
    d.insert("SERVICE_NAME", "mongodb");
    mongoac_credential_set_mechanism_properties(&mut c, &BsonViewT { data: Some(d.to_vec().unwrap()) }).unwrap();
    assert_eq!(c.mechanism_properties.as_ref().unwrap().get_str("SERVICE_NAME").unwrap(), "mongodb");
    let e = mongoac_credential_set_mechanism_properties(&mut c, &BsonViewT { data: Some(vec![0]) }).unwrap_err();
    assert_eq!(e.category(), ErrorCategoryT::Bson);
    assert!(c.mechanism_properties.is_some());
    mongoac_credential_set_mechanism_properties(&mut c, &BsonViewT::default()).unwrap();
    assert!(c.mechanism_properties.is_none());
}
