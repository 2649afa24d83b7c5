//! Access rule declaration: the per-role grants and the implicit
//! anonymous-access floor.

use rtsp_router::access::{contains_anonymous, declare_access_rules};

#[test]
fn named_roles_get_full_grants_plus_anonymous_floor() {
    let roles = vec!["alice".to_string(), "bob".to_string()];
    let rules = declare_access_rules("/cam/main", &roles);
    assert_eq!(rules.len(), 3);

    assert_eq!(rules[0].path, "/cam/main");
    assert_eq!(rules[0].role, "alice");
    assert!(rules[0].can_access);
    assert!(rules[0].can_construct);

    assert_eq!(rules[1].path, "/cam/main");
    assert_eq!(rules[1].role, "bob");
    assert!(rules[1].can_access);
    assert!(rules[1].can_construct);

    assert_eq!(rules[2].path, "/cam/main");
    assert_eq!(rules[2].role, "anonymous");
    assert!(rules[2].can_access);
    assert!(!rules[2].can_construct);
}

#[test]
fn explicit_anonymous_gets_no_extra_floor() {
    let roles = vec!["anonymous".to_string()];
    let rules = declare_access_rules("/cam/main", &roles);
    assert_eq!(rules.len(), 1);
    assert_eq!(rules[0].role, "anonymous");
    assert!(rules[0].can_access);
    assert!(rules[0].can_construct);
}

#[test]
fn empty_role_set_degrades_to_floor_only() {
    let rules = declare_access_rules("/cam/sub", &Vec::new());
    assert_eq!(rules.len(), 1);
    assert_eq!(rules[0].path, "/cam/sub");
    assert_eq!(rules[0].role, "anonymous");
    assert!(rules[0].can_access);
    assert!(!rules[0].can_construct);
}

#[test]
fn anonymous_membership_check() {
    assert!(!contains_anonymous(&vec!["alice".to_string()]));
    assert!(contains_anonymous(&vec!["alice".to_string(), "anonymous".to_string()]));
    assert!(!contains_anonymous(&Vec::new()));
}
