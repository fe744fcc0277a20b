use clipbrain::classifier::{classify_by_rules, ContentType};

#[test]
fn test_classify_json() {
    assert_eq!(
        classify_by_rules(r#"{"name": "test", "value": 42}"#),
        ContentType::Json
    );
}

#[test]
fn test_classify_url() {
    assert_eq!(
        classify_by_rules("https://github.com/user/repo"),
        ContentType::Url
    );
}

#[test]
fn test_classify_math() {
    assert_eq!(classify_by_rules("3 + 4 * 2"), ContentType::MathExpression);
}

#[test]
fn test_classify_phone() {
    assert_eq!(classify_by_rules("13800138000"), ContentType::PhoneNumber);
}

#[test]
fn test_classify_plain_text() {
    assert_eq!(
        classify_by_rules("这是一段普通文本"),
        ContentType::PlainText
    );
}

#[test]
fn test_classify_tsv() {
    let tsv = "name\tage\tcity\nAlice\t30\tBeijing\nBob\t25\tShanghai";
    assert_eq!(
        classify_by_rules(tsv),
        ContentType::TableData("tsv".to_string())
    );
}

#[test]
fn test_classify_csv() {
    let csv = "name,age,city\nAlice,30,Beijing\nBob,25,Shanghai";
    assert_eq!(
        classify_by_rules(csv),
        ContentType::TableData("csv".to_string())
    );
}
