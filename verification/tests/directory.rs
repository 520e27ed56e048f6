use portlets::directory::{push_decimal, required_param, Article, Author, Directory, LookupError};

fn sample() -> Directory {
    let mut directory = Directory::new();
    assert!(directory.insert_author(String::from("albert"), Author::new("Albert", "albert.g@example.com")));
    assert!(directory.insert_author(String::from("bethany"), Author::new("Bethany", "beth@example.com")));
    assert!(directory.insert_author(String::from("carl"), Author::new("Carl", "c.smith@example.com")));
    assert!(directory.insert_author(String::from("dorothy"), Author::new("Dorothy", "dorothy@example.com")));
    let articles = [
        ("dorothy", "The top twenty..."),
        ("albert", "On the practical nature of..."),
        ("bethany", "How to guide to..."),
        ("dorothy", "The top ten..."),
        ("albert", "Why a city's infrastructure..."),
        ("bethany", "The ultimate guide to..."),
        ("dorothy", "The top hundred..."),
        ("carl", "A quick summary on..."),
        ("dorothy", "The top thousand..."),
        ("bethany", "Beware of..."),
    ];
    for (author_name, title) in articles {
        assert!(directory.push_article(Article::new(author_name, title)).is_none());
    }
    directory
}

fn decimal_of(n: u32) -> String {
    let mut text = String::new();
    push_decimal(&mut text, n);
    text
}

#[test]
fn new_directory_is_empty() {
    let directory = Directory::new();
    assert!(directory.list_authors().is_empty());
    assert!(directory.list_articles().is_empty());
    assert!(directory.list_articles_by_author(String::from("albert")).is_empty());
    assert!(directory.get_author(String::from("albert")).is_err());
    assert!(directory.get_article(1).is_err());
}

#[test]
fn authors_are_listed_with_their_keys_in_order() {
    let listing = sample().list_authors();
    let keys: Vec<&str> = listing.iter().map(|(key, _)| key.as_str()).collect();
    assert_eq!(keys, vec!["albert", "bethany", "carl", "dorothy"]);
    assert_eq!(listing[0].1.name, "Albert");
    assert_eq!(listing[0].1.email, "albert.g@example.com");
    assert_eq!(listing[3].1.name, "Dorothy");
    assert_eq!(listing[3].1.email, "dorothy@example.com");
}

#[test]
fn author_is_found_under_its_key() {
    let (key, author) = sample().get_author(String::from("carl")).unwrap();
    assert_eq!(key, "carl");
    assert_eq!(author.name, "Carl");
    assert_eq!(author.email, "c.smith@example.com");
}

#[test]
fn unknown_author_is_reported_by_name() {
    match sample().get_author(String::from("zed")) {
        Err(LookupError::NoSuchAuthor(name)) => assert_eq!(name, "zed"),
        other => panic!("unexpected: {other:?}"),
    }
    match sample().get_author(String::from("Carl")) {
        Err(error) => assert_eq!(error.message(), "no such author: Carl"),
        Ok(found) => panic!("unexpected: {found:?}"),
    }
}

#[test]
fn inserting_under_a_taken_key_replaces_the_author() {
    let mut directory = sample();
    assert!(!directory.insert_author(String::from("bethany"), Author::new("Beth", "b@example.com")));
    let listing = directory.list_authors();
    assert_eq!(listing.len(), 4);
    assert_eq!(listing[1].0, "bethany");
    assert_eq!(listing[1].1.name, "Beth");
    assert_eq!(listing[1].1.email, "b@example.com");
    assert_eq!(listing[0].1.name, "Albert");
    assert_eq!(listing[2].1.name, "Carl");
    let (_, found) = directory.get_author(String::from("bethany")).unwrap();
    assert_eq!(found.name, "Beth");
    assert_eq!(directory.list_articles().len(), 10);
}

#[test]
fn articles_are_numbered_from_one() {
    let listing = sample().list_articles();
    assert_eq!(listing.len(), 10);
    let ids: Vec<u32> = listing.iter().map(|(id, _)| *id).collect();
    assert_eq!(ids, vec![1, 2, 3, 4, 5, 6, 7, 8, 9, 10]);
    assert_eq!(listing[0].1.title, "The top twenty...");
    assert_eq!(listing[0].1.author_name, "dorothy");
    assert_eq!(listing[9].1.title, "Beware of...");
    assert_eq!(listing[9].1.author_name, "bethany");
}

#[test]
fn articles_of_one_author_keep_their_numbers() {
    let directory = sample();
    let listing = directory.list_articles_by_author(String::from("dorothy"));
    let ids: Vec<u32> = listing.iter().map(|(id, _)| *id).collect();
    assert_eq!(ids, vec![1, 4, 7, 9]);
    let titles: Vec<&str> = listing.iter().map(|(_, article)| article.title.as_str()).collect();
    assert_eq!(titles, vec!["The top twenty...", "The top ten...", "The top hundred...", "The top thousand..."]);
    let listing = directory.list_articles_by_author(String::from("carl"));
    assert_eq!(listing.len(), 1);
    assert_eq!(listing[0].0, 8);
    assert_eq!(listing[0].1.title, "A quick summary on...");
    assert!(directory.list_articles_by_author(String::from("zed")).is_empty());
}

#[test]
fn article_is_found_by_its_number() {
    let directory = sample();
    let first = directory.get_article(1).unwrap();
    assert_eq!(first.title, "The top twenty...");
    assert_eq!(first.author_name, "dorothy");
    let last = directory.get_article(10).unwrap();
    assert_eq!(last.title, "Beware of...");
    assert_eq!(last.author_name, "bethany");
    let fifth = directory.get_article(5).unwrap();
    assert_eq!(fifth.title, "Why a city's infrastructure...");
}

#[test]
fn article_number_out_of_range_is_reported() {
    let directory = sample();
    match directory.get_article(0) {
        Err(LookupError::NoSuchArticle(id)) => assert_eq!(id, 0),
        other => panic!("unexpected: {other:?}"),
    }
    match directory.get_article(11) {
        Err(error) => assert_eq!(error.message(), "no such article: 11"),
        Ok(found) => panic!("unexpected: {found:?}"),
    }
    match directory.get_article(u32::MAX) {
        Err(error) => assert_eq!(error.message(), "no such article: 4294967295"),
        Ok(found) => panic!("unexpected: {found:?}"),
    }
}

#[test]
fn lookup_error_messages() {
    assert_eq!(LookupError::NoSuchAuthor(String::from("zed")).message(), "no such author: zed");
    assert_eq!(LookupError::NoSuchAuthor(String::new()).message(), "no such author: ");
    assert_eq!(LookupError::NoSuchArticle(0).message(), "no such article: 0");
    assert_eq!(LookupError::NoSuchArticle(42).message(), "no such article: 42");
    assert_eq!(LookupError::Parameter.message(), "parameter error");
}

#[test]
fn decimal_numerals() {
    assert_eq!(decimal_of(0), "0");
    assert_eq!(decimal_of(7), "7");
    assert_eq!(decimal_of(9), "9");
    assert_eq!(decimal_of(10), "10");
    assert_eq!(decimal_of(1203), "1203");
    assert_eq!(decimal_of(4294967295), "4294967295");
    let mut text = String::from("/article/");
    push_decimal(&mut text, 35);
    assert_eq!(text, "/article/35");
    for n in [0u32, 1, 19, 100, 999, 1000, 65535, 123456789] {
        assert_eq!(decimal_of(n), n.to_string());
    }
}

#[test]
fn required_param_takes_a_present_value_only() {
    let present: Result<Option<u32>, String> = Ok(Some(3));
    assert_eq!(required_param(present).unwrap(), 3);
    let absent: Result<Option<u32>, String> = Ok(None);
    assert!(matches!(required_param(absent), Err(LookupError::Parameter)));
    let unreadable: Result<Option<u32>, String> = Err(String::from("not a number"));
    match required_param(unreadable) {
        Err(error) => assert_eq!(error.message(), "parameter error"),
        Ok(value) => panic!("unexpected: {value}"),
    }
}

#[test]
fn author_and_article_copies_are_equal_in_text() {
    let author = Author::new("Albert", "albert.g@example.com");
    let copy = author.clone();
    assert_eq!(copy.name, author.name);
    assert_eq!(copy.email, author.email);
    let article = Article::new("albert", "On the practical nature of...");
    let copy = article.clone();
    assert_eq!(copy.author_name, "albert");
    assert_eq!(copy.title, "On the practical nature of...");
}
