use njupt_wifi::account::{derive_account, IspType};

#[test]
fn edu_account_is_the_user_id() {
    assert_eq!(derive_account(&"u1".to_string(), IspType::EDU), "u1");
    assert_eq!(derive_account(&"B21012345".to_string(), IspType::EDU), "B21012345");
}

#[test]
fn cmcc_account_appends_the_cmcc_suffix() {
    assert_eq!(derive_account(&"u1".to_string(), IspType::CMCC), "u1@cmcc");
}

#[test]
fn ct_account_appends_the_njxy_suffix() {
    assert_eq!(derive_account(&"u1".to_string(), IspType::CT), "u1@njxy");
}
