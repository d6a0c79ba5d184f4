use chat_backend::model::Navigation;

#[test]
fn navigation_names_the_current_page() {
    let navigation = Navigation::new("home");
    assert_eq!(navigation.current_page, "home");
    assert_eq!(navigation, Navigation { current_page: "home".to_string() });
    assert_eq!(Navigation::new("").current_page, "");
}
