use mongoac::bson::BsonViewT;
use mongoac::error::{ErrorCategoryT, ErrorCodeT};
use mongoac::read_preference::{
    mongoac_read_preference_add_tag_set, mongoac_read_preference_new,
    mongoac_read_preference_set_hedge_enabled, mongoac_read_preference_set_max_staleness_seconds,
    mongoac_read_preference_set_nearest, mongoac_read_preference_set_primary,
    mongoac_read_preference_set_primary_preferred, mongoac_read_preference_set_secondary,
    mongoac_read_preference_set_secondary_preferred, ReadPreferenceModeT,
};

fn tag_set_bytes() -> Vec<u8> {
    let mut d = mongodb::bson::Document::new();
    d.insert("dc", "east");
    d.to_vec().unwrap()
}

#[test]
fn primary_refuses_every_option() {
    let mut rp = mongoac_read_preference_new();
    assert_eq!(rp.mode, ReadPreferenceModeT::Primary);
    let e = mongoac_read_preference_set_max_staleness_seconds(&mut rp, 90).unwrap_err();
    assert_eq!(e.code(), ErrorCodeT::InvalidArgument);
    assert_eq!(
        e.message(),
        Some("invalid argument: read preference mode 'primary' does not support maxStalenessSeconds".to_string())
    );
    let e = mongoac_read_preference_set_hedge_enabled(&mut rp, true).unwrap_err();
    assert_eq!(
        e.message(),
        Some("invalid argument: read preference mode 'primary' does not support hedged reads".to_string())
    );
    let view = BsonViewT { data: Some(tag_set_bytes()) };
    let e = mongoac_read_preference_add_tag_set(&mut rp, &view).unwrap_err();
    assert_eq!(
        e.message(),
        Some("invalid argument: read preference mode 'primary' does not support tag sets".to_string())
    );
    assert!(rp.options.is_none());
}

#[test]
fn switching_modes_keeps_the_options() {
    let mut rp = mongoac_read_preference_new();
    mongoac_read_preference_set_secondary(&mut rp);
    mongoac_read_preference_set_max_staleness_seconds(&mut rp, 120).unwrap();
    mongoac_read_preference_set_hedge_enabled(&mut rp, false).unwrap();
    mongoac_read_preference_set_nearest(&mut rp);
    assert_eq!(rp.mode, ReadPreferenceModeT::Nearest);
    let o = rp.options.as_ref().unwrap();
    assert_eq!(o.max_staleness_secs, Some(120));
    assert_eq!(o.hedge_enabled, Some(false));
    mongoac_read_preference_set_primary_preferred(&mut rp);
    mongoac_read_preference_set_secondary_preferred(&mut rp);
    assert_eq!(rp.mode, ReadPreferenceModeT::SecondaryPreferred);
    assert_eq!(rp.options.as_ref().unwrap().max_staleness_secs, Some(120));
}

#[test]
fn going_back_to_primary_drops_the_options() {
    let mut rp = mongoac_read_preference_new();
    mongoac_read_preference_set_nearest(&mut rp);
    mongoac_read_preference_set_max_staleness_seconds(&mut rp, 5).unwrap();
    mongoac_read_preference_set_primary(&mut rp);
    assert_eq!(rp.mode, ReadPreferenceModeT::Primary);
    assert!(rp.options.is_none());
    mongoac_read_preference_set_secondary(&mut rp);
    assert!(rp.options.is_none());
}

#[test]
fn tag_sets_are_appended_in_order() {
    let mut rp = mongoac_read_preference_new();
    mongoac_read_preference_set_secondary(&mut rp);
    let view = BsonViewT { data: Some(tag_set_bytes()) };
    mongoac_read_preference_add_tag_set(&mut rp, &view).unwrap();
    mongoac_read_preference_add_tag_set(&mut rp, &BsonViewT::empty_doc()).unwrap();
    let sets = rp.options.as_ref().unwrap().tag_sets.as_ref().unwrap();
    assert_eq!(sets.len(), 2);
    assert_eq!(sets[0].get("dc").map(String::as_str), Some("east"));
    assert!(sets[1].is_empty());
}

#[test]
fn bad_tag_sets_are_refused_without_change() {
    let mut rp = mongoac_read_preference_new();
    mongoac_read_preference_set_secondary(&mut rp);
    let e = mongoac_read_preference_add_tag_set(&mut rp, &BsonViewT::default()).unwrap_err();
    assert_eq!(e.message(), Some("invalid argument: tag_set: must not be null".to_string()));
    let mut d = mongodb::bson::Document::new();
    d.insert("dc", 3);
    let bytes = d.to_vec().unwrap();
    let e = mongoac_read_preference_add_tag_set(&mut rp, &BsonViewT { data: Some(bytes) }).unwrap_err();
    assert_eq!(e.category(), ErrorCategoryT::Bson);
    assert!(rp.options.is_none());
}

#[test]
fn copies_are_the_same_read_preference() {
    let mut rp = mongoac_read_preference_new();
    mongoac_read_preference_set_secondary(&mut rp);
    mongoac_read_preference_add_tag_set(&mut rp, &BsonViewT { data: Some(tag_set_bytes()) }).unwrap();
    let copy = rp.duplicate();
    assert_eq!(copy.mode, ReadPreferenceModeT::Secondary);
    assert_eq!(copy.options.unwrap().tag_sets.unwrap()[0].get("dc").unwrap(), "east");
}
