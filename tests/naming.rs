use ogk::files::FileManager;

const DIR_ILLEGAL: [char; 10] = ['.', '"', '\n', ' ', '\t', '(', ')', '\'', '~', '\u{1c}'];

#[test]
fn dirname_replaces_dots_and_cleans_subject() {
    let d = FileManager::make_dirname("2020.09.12", "최저임금 위원회 (회의록)");
    assert_eq!(d, "2020-09-12_최저임금_위원회_회의록_");
}

#[test]
fn dirname_trims_and_collapses_underscores() {
    let d = FileManager::make_dirname("2021.01.02", "  a__b ~ 'c'  ");
    assert_eq!(d, "2021-01-02_a_b_c_");
}

#[test]
fn dirname_is_deterministic_and_clean() {
    let subjects = ["회의록 (2020)", " \"quoted\"\ttext\n", "a\u{1c}b.c~d", "plain", "", "___"];
    for s in subjects.iter() {
        let first = FileManager::make_dirname("2020.09.01", s);
        let second = FileManager::make_dirname("2020.09.01", s);
        assert_eq!(first, second);
        assert!(!first.chars().any(|c| DIR_ILLEGAL.contains(&c)), "{}", first);
    }
}

#[test]
fn dirname_is_idempotent_on_its_cleaned_subject() {
    let d = FileManager::make_dirname("2020.09.01", " a (b) c.d ");
    let cleaned = d.strip_prefix("2020-09-01_").unwrap();
    assert_eq!(cleaned, "a_b_c_d");
    assert_eq!(FileManager::make_dirname("2020.09.01", cleaned), d);
}

#[test]
fn dirname_of_empty_subject() {
    assert_eq!(FileManager::make_dirname("2020.09.01", "   "), "2020-09-01_");
}

#[test]
fn filename_keeps_dots_and_cleans_question_marks() {
    let f = FileManager::make_filename("12345", "서울특별시 종로구", " 자료 (1)?.zip ");
    assert_eq!(f, "12345_서울특별시_종로구_자료_1_.zip");
}

#[test]
fn filename_with_plain_name() {
    assert_eq!(FileManager::make_filename("7", "기관", "report.pdf"), "7_기관_report.pdf");
}
