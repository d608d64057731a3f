use polykit::rbac::{check_access, format_role, StandardRole};

fn roles(names: &[&str]) -> Vec<String> {
    names.iter().map(|s| s.to_string()).collect()
}

#[test]
fn empty_requirement_always_passes() {
    assert!(check_access(&roles(&[]), &roles(&[])));
    assert!(check_access(&roles(&["x"]), &roles(&[])));
}

#[test]
fn any_matching_role_grants_access() {
    let user = roles(&["polydata-viewer", "polydata-operator"]);
    assert!(check_access(&user, &roles(&["polydata-operator"])));
    assert!(check_access(&user, &roles(&["other", "polydata-viewer"])));
    assert!(!check_access(&user, &roles(&["polydata-compliance"])));
    assert!(!check_access(&roles(&[]), &roles(&["any"])));
}

#[test]
fn role_names_carry_the_app_prefix() {
    assert_eq!(format_role("polydata", StandardRole::Viewer), "polydata-viewer");
    assert_eq!(format_role("polymail", StandardRole::Operator), "polymail-operator");
    assert_eq!(format_role("polymsg", StandardRole::Compliance), "polymsg-compliance");
}
