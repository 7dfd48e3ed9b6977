use ogk::wire::{extract_result_payload, extract_session_marker};

#[test]
fn payload_of_a_script_statement() {
    let page = "<html><script>var result = {\"csrfToken\":\"abc\"};</script></html>";
    assert_eq!(extract_result_payload(page), "{\"csrfToken\":\"abc\"}");
}

#[test]
fn payload_runs_to_the_last_semicolon_of_its_line() {
    let page = "var result = {\"a\":\"x;y\"}; var other = 1;\nnext();";
    assert_eq!(extract_result_payload(page), "{\"a\":\"x;y\"}; var other = 1");
}

#[test]
fn payload_tolerates_whitespace_and_newlines_around_equals() {
    let page = "var result\t=\n   {\"a\":1};\n";
    assert_eq!(extract_result_payload(page), "{\"a\":1}");
}

#[test]
fn payload_of_the_last_statement_wins() {
    let page = "var result = 1;\nvar result = 2;\n";
    assert_eq!(extract_result_payload(page), "2");
}

#[test]
fn payload_absent_is_empty() {
    assert_eq!(extract_result_payload("<html>nothing here</html>"), "");
    assert_eq!(extract_result_payload("var result = {};"), "{}");
    assert_eq!(extract_result_payload("var result={};"), "");
    assert_eq!(extract_result_payload(""), "");
}

#[test]
fn payload_of_whitespace_before_semicolon() {
    assert_eq!(extract_result_payload("var result =  ;"), " ");
}

#[test]
fn marker_of_main_page() {
    let page = "<script>\n  const scui = 'X1Y2Z3';\n</script>";
    assert_eq!(extract_session_marker(page), "X1Y2Z3");
}

#[test]
fn marker_absent_or_empty() {
    assert_eq!(extract_session_marker("const scui = '';"), "");
    assert_eq!(extract_session_marker("let x = 1;"), "");
}
