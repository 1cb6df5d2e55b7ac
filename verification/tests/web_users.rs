use elerem::web::api::auth::{JWTResponse, PrivateClaims};
use elerem::web::dashboard::User;

fn user(username: &str, email: &str) -> User {
    User { username: username.to_string(), email: email.to_string() }
}

#[test]
fn dashboard_user_rules() {
    let admin = user("admin", "");
    assert!(admin.is_admin());
    assert!(!admin.is_paying_customer());
    assert_eq!(admin.name(), "admin");
    assert_eq!(admin.picture(), "https://ik.imagekit.io/smartlinker/images/avatars/user.png");
    let paying = user("ann", "ann@example.com");
    assert!(paying.is_paying_customer());
    assert!(!paying.is_admin());
    assert!(!user("administrator", "admin").is_admin());
    assert!(!user("x", "ann@example.comx").is_paying_customer());
}

#[test]
fn token_types() {
    let c = PrivateClaims::new("staff".to_string(), 12);
    assert_eq!(c.groups, "staff");
    assert_eq!(c.company, 12);
    assert_eq!(JWTResponse::new("abc".to_string()).jwt, "abc");
}
