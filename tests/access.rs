use audiobookroom::{is_admin_user, may_change_password, may_write_progress, User};

fn user(id: i32, role: i32) -> User {
    User { id, username: format!("u{}", id), role }
}

#[test]
fn permissions_by_role() {
    let admin = user(1, 0);
    let member = user(2, 1);
    let guest = user(3, 2);
    assert!(admin.has("admin"));
    assert!(admin.has("user"));
    assert!(!member.has("admin"));
    assert!(member.has("user"));
    assert!(!guest.has("user"));
    assert!(!admin.has("root"));
    assert!(!admin.has("Admin"));
}

#[test]
fn admin_check() {
    assert!(is_admin_user(&Some(user(1, 0))));
    assert!(!is_admin_user(&Some(user(2, 1))));
    assert!(!is_admin_user(&None));
}

#[test]
fn password_change_rights() {
    assert!(may_change_password(&Some(user(1, 0)), 7));
    assert!(may_change_password(&Some(user(7, 1)), 7));
    assert!(!may_change_password(&Some(user(8, 1)), 7));
    assert!(!may_change_password(&None, 7));
}

#[test]
fn progress_write_rights() {
    assert!(may_write_progress(&Some(user(4, 1)), 4));
    assert!(!may_write_progress(&Some(user(1, 0)), 4));
    assert!(!may_write_progress(&None, 4));
}
