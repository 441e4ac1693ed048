use task_query::types::Query;
use task_query::types::WordOrTag;

#[test]
fn query_display_test() {
    let add_query = Query::Add(
        vec!["hello".to_string(), "world".to_string()],
        vec![
            "these".to_string(),
            "are".to_string(),
            "the".to_string(),
            "tags".to_string(),
        ],
    );

    let done_query = Query::Done(4);

    let search_query = Query::Search(vec![
        WordOrTag::Word("hello".to_string()),
        WordOrTag::Tag("world".to_string()),
        WordOrTag::Word("bello".to_string()),
        WordOrTag::Tag("burld".to_string()),
    ]);

    assert_eq!(
        add_query.to_string(),
        "add \"hello world\" #these #are #the #tags".to_owned()
    );
    assert_eq!(done_query.to_string(), "done 4".to_owned());
    assert_eq!(
        search_query.to_string(),
        "search hello #world bello #burld".to_owned()
    );
}

#[test]
fn word_and_tag_render_verbatim() {
    assert_eq!(WordOrTag::Word("hello".to_string()).to_string(), "hello");
    assert_eq!(WordOrTag::Tag("hello".to_string()).to_string(), "#hello");
    assert_eq!(WordOrTag::Word(String::new()).to_string(), "");
    assert_eq!(WordOrTag::Tag(String::new()).to_string(), "#");
    assert_eq!(WordOrTag::Word("a#b c".to_string()).to_string(), "a#b c");
}

#[test]
fn done_renders_decimal() {
    assert_eq!(Query::Done(0).to_string(), "done 0");
    assert_eq!(Query::Done(4).to_string(), "done 4");
    assert_eq!(Query::Done(10).to_string(), "done 10");
    assert_eq!(Query::Done(907).to_string(), "done 907");
    assert_eq!(
        Query::Done(u64::MAX).to_string(),
        "done 18446744073709551615"
    );
}

#[test]
fn add_with_empty_words_renders_empty_quotes() {
    assert_eq!(Query::Add(vec![], vec![]).to_string(), "add \"\"");
    assert_eq!(
        Query::Add(vec![], vec!["urgent".to_string()]).to_string(),
        "add \"\" #urgent"
    );
    assert_eq!(
        Query::Add(vec!["solo".to_string()], vec![]).to_string(),
        "add \"solo\""
    );
}

#[test]
fn search_with_no_terms_renders_bare_keyword() {
    assert_eq!(Query::Search(vec![]).to_string(), "search");
}

#[test]
fn equality_discriminates_variants_and_payloads() {
    assert!(Query::Add(vec![], vec![]) != Query::Done(0));
    assert!(Query::Done(4) == Query::Done(4));
    assert!(Query::Done(4) != Query::Done(5));
    assert!(
        Query::Add(vec!["a".to_string(), "b".to_string()], vec![])
            != Query::Add(vec!["b".to_string(), "a".to_string()], vec![])
    );
    assert!(
        Query::Search(vec![WordOrTag::Word("x".to_string())])
            == Query::Search(vec![WordOrTag::Word("x".to_string())])
    );
    assert!(
        Query::Search(vec![WordOrTag::Word("x".to_string())])
            != Query::Search(vec![WordOrTag::Tag("x".to_string())])
    );
    assert!(WordOrTag::Word("x".to_string()) != WordOrTag::Tag("x".to_string()));
    assert!(WordOrTag::Tag("x".to_string()) == WordOrTag::Tag("x".to_string()));
}

#[test]
fn clone_is_equal_and_independent() {
    let mut original = Query::Add(vec!["hello".to_string()], vec!["tag".to_string()]);
    let copy = original.clone();
    assert!(copy == original);
    assert_eq!(copy.to_string(), original.to_string());

    if let Query::Add(words, _) = &mut original {
        words.push("extra".to_string());
    }
    assert_eq!(copy.to_string(), "add \"hello\" #tag");
    assert!(copy != original);

    let term = WordOrTag::Tag("t".to_string());
    let term_copy = term.clone();
    assert!(term_copy == term);
    assert_eq!(term_copy.to_string(), "#t");
}

#[test]
fn default_is_done_zero() {
    assert!(Query::default() == Query::Done(0));
    assert_eq!(Query::default().to_string(), "done 0");
}
