use srcapi_plus::users::{Pronouns, Role, UserId};

#[test]
fn user_id_text() {
    let id = UserId::new("j0ng00m8".to_string());
    assert_eq!(id.as_str(), "j0ng00m8");
    assert_eq!(Pronouns::new("they/them".to_string()).as_str(), "they/them");
    assert_ne!(Role::Admin, Role::User);
}
