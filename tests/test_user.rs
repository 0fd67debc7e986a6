use crusty_maimai::models::{parse_rating, MaimaiUser, UserError};

const HOME_FIXTURE: &str = r#"<html><body>
<div class="name_block">ＰＬＡＹＥＲ</div>
<div class="rating_block">13502</div>
</body></html>"#;

#[test]
fn user_data_from_home_page() {
    let user = MaimaiUser::populate(String::from(HOME_FIXTURE)).unwrap();
    assert_ne!(user.name, "");
    assert_ne!(user.rating, 0);
    assert_eq!(user.name, "ＰＬＡＹＥＲ");
    assert_eq!(user.rating, 13502);
}

#[test]
fn user_missing_name() {
    let r = MaimaiUser::populate(String::from("<div class=\"rating_block\">1</div>"));
    assert!(matches!(r, Err(UserError::MissingName)));
}

#[test]
fn user_missing_rating() {
    let r = MaimaiUser::populate(String::from("<div class=\"name_block\">a</div>"));
    assert!(matches!(r, Err(UserError::MissingRating)));
}

#[test]
fn user_invalid_rating() {
    let r = MaimaiUser::populate(String::from(
        "<div class=\"name_block\">a</div><div class=\"rating_block\">--</div>",
    ));
    assert!(matches!(r, Err(UserError::InvalidRating)));
}

#[test]
fn user_from_texts() {
    let u = MaimaiUser::from_texts(Some(String::from("n")), Some(String::from("-7"))).unwrap();
    assert_eq!(u.name, "n");
    assert_eq!(u.rating, -7);
    assert!(matches!(MaimaiUser::from_texts(None, Some(String::from("1"))), Err(UserError::MissingName)));
    assert!(matches!(MaimaiUser::from_texts(Some(String::from("n")), None), Err(UserError::MissingRating)));
    assert!(matches!(
        MaimaiUser::from_texts(Some(String::from("n")), Some(String::from("40000"))),
        Err(UserError::InvalidRating)
    ));
}

#[test]
fn rating_numerals() {
    assert_eq!(parse_rating("0"), Some(0));
    assert_eq!(parse_rating("13502"), Some(13502));
    assert_eq!(parse_rating("+5"), Some(5));
    assert_eq!(parse_rating("-12"), Some(-12));
    assert_eq!(parse_rating("007"), Some(7));
    assert_eq!(parse_rating("32767"), Some(32767));
    assert_eq!(parse_rating("-32768"), Some(-32768));
}

#[test]
fn rating_rejects() {
    assert_eq!(parse_rating(""), None);
    assert_eq!(parse_rating("+"), None);
    assert_eq!(parse_rating("-"), None);
    assert_eq!(parse_rating("32768"), None);
    assert_eq!(parse_rating("-32769"), None);
    assert_eq!(parse_rating("99999999999999999999"), None);
    assert_eq!(parse_rating(" 1"), None);
    assert_eq!(parse_rating("1 "), None);
    assert_eq!(parse_rating("12a"), None);
    assert_eq!(parse_rating("１２"), None);
}

#[test]
fn rating_agrees_with_std() {
    for s in ["1", "-1", "+0", "32767", "-32768", "32768", "", "+", "x", "1_0"] {
        assert_eq!(parse_rating(s), s.parse::<i16>().ok(), "{}", s);
    }
}
