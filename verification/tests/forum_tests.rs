use nivaro_backend::forum::{
    claim_question, copy_texts, create_question, find_question, get_mock_questions,
    get_mock_tags, get_questions, get_tags, resolve_question, ClaimQuestionRequest,
    CreateQuestionRequest,
};

#[test]
fn sample_questions_and_tags() {
    let questions = get_mock_questions();
    assert_eq!(questions.len(), 3);
    assert_eq!(questions[0].id, "1");
    assert_eq!(questions[0].title, "How to use useEffect hook properly?");
    assert_eq!(questions[0].tags, vec!["React".to_string(), "JavaScript".to_string()]);
    assert_eq!(questions[0].status, "open");
    assert_eq!(questions[0].claimed_by, None);
    assert_eq!(questions[1].status, "claimed");
    assert_eq!(questions[1].claimed_by, Some("mentor789".to_string()));
    assert_eq!(questions[1].tags, vec!["TypeScript".to_string()]);
    assert_eq!(questions[2].status, "resolved");
    assert_eq!(questions[2].resolved_at, Some("2024-01-01T10:00:00Z".to_string()));
    assert_eq!(questions[2].author, "newdev");
    assert_eq!(get_questions().len(), 3);
    let tags = get_mock_tags();
    assert_eq!(tags.len(), 6);
    let names: Vec<&str> = tags.iter().map(|t| t.name.as_str()).collect();
    assert_eq!(names, vec!["JavaScript", "React", "TypeScript", "CSS", "Career", "Algorithms"]);
    assert_eq!(tags[3].color, "bg-purple-100 text-purple-800");
    assert_eq!(tags[5].description, Some("Algorithm and data structure questions".to_string()));
    assert_eq!(get_tags().len(), 6);
}

#[test]
fn question_is_found_by_id() {
    assert_eq!(find_question("2").unwrap().author, "coder456");
    assert!(find_question("7").is_none());
    assert!(find_question("").is_none());
}

#[test]
fn created_question_is_open_and_unclaimed() {
    let req = CreateQuestionRequest {
        title: "T".to_string(),
        content: "C".to_string(),
        tags: vec!["CSS".to_string()],
    };
    let q = create_question(req, "1700000000000".to_string(), "2024-02-01T00:00:00Z".to_string());
    assert_eq!(q.id, "1700000000000");
    assert_eq!(q.title, "T");
    assert_eq!(q.content, "C");
    assert_eq!(q.author, "currentUser");
    assert_eq!(q.tags, vec!["CSS".to_string()]);
    assert_eq!(q.status, "open");
    assert_eq!(q.claimed_by, None);
    assert_eq!(q.created_at, "2024-02-01T00:00:00Z");
    assert_eq!(q.updated_at, "2024-02-01T00:00:00Z");
    assert_eq!(q.resolved_at, None);
}

#[test]
fn claimed_question_names_its_helper() {
    let req = ClaimQuestionRequest { claimed_by: "mentor1".to_string() };
    let q = claim_question("1", req, "2024-02-01T00:00:00Z".to_string()).unwrap();
    assert_eq!(q.id, "1");
    assert_eq!(q.status, "claimed");
    assert_eq!(q.claimed_by, Some("mentor1".to_string()));
    assert_eq!(q.updated_at, "2024-02-01T00:00:00Z");
    assert_eq!(q.created_at, "2024-01-01T12:00:00Z");
    assert_eq!(q.resolved_at, None);
    let none = claim_question(
        "9",
        ClaimQuestionRequest { claimed_by: "m".to_string() },
        "2024-02-01T00:00:00Z".to_string(),
    );
    assert!(none.is_none());
}

#[test]
fn resolved_question_notes_the_time() {
    let q = resolve_question("2", "2024-02-02T00:00:00Z".to_string()).unwrap();
    assert_eq!(q.status, "resolved");
    assert_eq!(q.updated_at, "2024-02-02T00:00:00Z");
    assert_eq!(q.resolved_at, Some("2024-02-02T00:00:00Z".to_string()));
    assert_eq!(q.claimed_by, Some("mentor789".to_string()));
    assert!(resolve_question("9", "t".to_string()).is_none());
}

#[test]
fn texts_are_copied_in_order() {
    let v = vec!["a".to_string(), "b".to_string(), "".to_string()];
    assert_eq!(copy_texts(&v), v);
    assert_eq!(copy_texts(&Vec::new()), Vec::<String>::new());
}
