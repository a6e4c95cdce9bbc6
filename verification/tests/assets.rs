use pi_panel::assets::ui;

#[test]
fn a_request_without_file_gets_the_index() {
    assert_eq!(ui(None), "ui/index.html");
    assert_eq!(ui(Some("")), "ui/index.html");
}

#[test]
fn a_request_for_a_file_gets_that_file() {
    assert_eq!(ui(Some("app.js")), "ui/app.js");
    assert_eq!(ui(Some("css/site.css")), "ui/css/site.css");
    assert_eq!(ui(Some("index.html")), "ui/index.html");
}
