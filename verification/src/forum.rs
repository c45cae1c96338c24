//! The help forum: questions, their tags, and the steps a question goes
//! through (open, claimed, resolved), served from a fixed sample until a
//! store is connected.

use crate::search::{first_index, lemma_first_index_is, lemma_first_index_none};
use crate::text::{copy_text_opt, same_text, text_opt};
use vstd::prelude::*;

verus! {

pub struct Question {
    pub id: String,
    pub title: String,
    pub content: String,
    pub author: String,
    pub tags: Vec<String>,
    /// `open`, `claimed` or `resolved`.
    pub status: String,
    pub claimed_by: Option<String>,
    pub created_at: String,
    pub updated_at: String,
    pub resolved_at: Option<String>,
}

/// The mathematical value of a [`Question`].
pub struct QuestionView {
    pub id: Seq<char>,
    pub title: Seq<char>,
    pub content: Seq<char>,
    pub author: Seq<char>,
    pub tags: Seq<Seq<char>>,
    pub status: Seq<char>,
    pub claimed_by: Option<Seq<char>>,
    pub created_at: Seq<char>,
    pub updated_at: Seq<char>,
    pub resolved_at: Option<Seq<char>>,
}

/// The values of a list of texts.
pub open spec fn text_views(v: Seq<String>) -> Seq<Seq<char>> {
    v.map_values(|t: String| t@)
}

impl View for Question {
    type V = QuestionView;

    open spec fn view(&self) -> QuestionView {
        QuestionView {
            id: self.id@,
            title: self.title@,
            content: self.content@,
            author: self.author@,
            tags: text_views(self.tags@),
            status: self.status@,
            claimed_by: text_opt(self.claimed_by),
            created_at: self.created_at@,
            updated_at: self.updated_at@,
            resolved_at: text_opt(self.resolved_at),
        }
    }
}

/// A copy of a list of texts.
pub fn copy_texts(v: &Vec<String>) -> (r: Vec<String>)
    ensures
        text_views(r@) == text_views(v@),
{
    let mut out: Vec<String> = Vec::new();
    let n = v.len();
    let mut i: usize = 0;
    while i < n
        invariant
            n == v@.len(),
            i <= n,
            out@.len() == i,
            forall|k: int| 0 <= k < i ==> (#[trigger] out@[k])@ == v@[k]@,
        decreases n - i,
    {
        out.push(v[i].clone());
        i += 1;
    }
    assert(text_views(out@) =~= text_views(v@));
    out
}

impl Clone for Question {
    fn clone(&self) -> (r: Self)
        ensures
            r@ == self@,
    {
        Question {
            id: self.id.clone(),
            title: self.title.clone(),
            content: self.content.clone(),
            author: self.author.clone(),
            tags: copy_texts(&self.tags),
            status: self.status.clone(),
            claimed_by: copy_text_opt(&self.claimed_by),
            created_at: self.created_at.clone(),
            updated_at: self.updated_at.clone(),
            resolved_at: copy_text_opt(&self.resolved_at),
        }
    }
}

pub struct Tag {
    pub id: String,
    pub name: String,
    /// The style classes the tag is drawn with.
    pub color: String,
    pub description: Option<String>,
}

/// The mathematical value of a [`Tag`].
pub struct TagView {
    pub id: Seq<char>,
    pub name: Seq<char>,
    pub color: Seq<char>,
    pub description: Option<Seq<char>>,
}

impl View for Tag {
    type V = TagView;

    open spec fn view(&self) -> TagView {
        TagView {
            id: self.id@,
            name: self.name@,
            color: self.color@,
            description: text_opt(self.description),
        }
    }
}

pub struct CreateQuestionRequest {
    pub title: String,
    pub content: String,
    pub tags: Vec<String>,
}

pub struct ClaimQuestionRequest {
    pub claimed_by: String,
}

/// The sample questions.
pub open spec fn sample_questions() -> Seq<QuestionView> {
    seq![
        QuestionView {
            id: "1"@,
            title: "How to use useEffect hook properly?"@,
            content: "I'm having trouble understanding when to use useEffect and how to handle dependencies properly. Can someone explain the best practices?"@,
            author: "student123"@,
            tags: seq!["React"@, "JavaScript"@],
            status: "open"@,
            claimed_by: None,
            created_at: "2024-01-01T12:00:00Z"@,
            updated_at: "2024-01-01T12:00:00Z"@,
            resolved_at: None,
        },
        QuestionView {
            id: "2"@,
            title: "TypeScript generic constraints help needed"@,
            content: "I'm working on a TypeScript project and struggling with generic constraints. How do I properly constrain a generic type to have certain properties?"@,
            author: "coder456"@,
            tags: seq!["TypeScript"@],
            status: "claimed"@,
            claimed_by: Some("mentor789"@),
            created_at: "2024-01-01T08:00:00Z"@,
            updated_at: "2024-01-01T11:00:00Z"@,
            resolved_at: None,
        },
        QuestionView {
            id: "3"@,
            title: "Career advice: Should I specialize or be a generalist?"@,
            content: "I'm a junior developer and wondering whether I should focus on becoming an expert in one technology stack or learn multiple technologies. What are the pros and cons?"@,
            author: "newdev"@,
            tags: seq!["Career"@],
            status: "resolved"@,
            claimed_by: Some("mentor123"@),
            created_at: "2023-12-31T12:00:00Z"@,
            updated_at: "2024-01-01T10:00:00Z"@,
            resolved_at: Some("2024-01-01T10:00:00Z"@),
        },
    ]
}

/// The sample tags.
pub open spec fn sample_tags() -> Seq<TagView> {
    seq![
        TagView {
            id: "1"@,
            name: "JavaScript"@,
            color: "bg-yellow-100 text-yellow-800"@,
            description: Some("Questions about JavaScript programming"@),
        },
        TagView {
            id: "2"@,
            name: "React"@,
            color: "bg-blue-100 text-blue-800"@,
            description: Some("React framework questions"@),
        },
        TagView {
            id: "3"@,
            name: "TypeScript"@,
            color: "bg-blue-100 text-blue-900"@,
            description: Some("TypeScript language questions"@),
        },
        TagView {
            id: "4"@,
            name: "CSS"@,
            color: "bg-purple-100 text-purple-800"@,
            description: Some("Styling and CSS questions"@),
        },
        TagView {
            id: "5"@,
            name: "Career"@,
            color: "bg-green-100 text-green-800"@,
            description: Some("Career and professional development"@),
        },
        TagView {
            id: "6"@,
            name: "Algorithms"@,
            color: "bg-red-100 text-red-800"@,
            description: Some("Algorithm and data structure questions"@),
        },
    ]
}

/// The values of a list of questions.
pub open spec fn question_views(v: Seq<Question>) -> Seq<QuestionView> {
    v.map_values(|q: Question| q@)
}

/// The values of a list of tags.
pub open spec fn tag_views(v: Seq<Tag>) -> Seq<TagView> {
    v.map_values(|t: Tag| t@)
}

/// The predicate "has this id".
pub open spec fn question_with_id(id: Seq<char>) -> spec_fn(QuestionView) -> bool {
    |q: QuestionView| q.id == id
}

/// The question that a request opens under `id` at the instant written as
/// `now`.
pub open spec fn spec_new_question(req: CreateQuestionRequest, id: Seq<char>, now: Seq<char>) -> QuestionView {
    QuestionView {
        id,
        title: req.title@,
        content: req.content@,
        author: "currentUser"@,
        tags: text_views(req.tags@),
        status: "open"@,
        claimed_by: None,
        created_at: now,
        updated_at: now,
        resolved_at: None,
    }
}

/// The question once it is claimed at the instant written as `now`.
pub open spec fn spec_claimed(q: QuestionView, claimed_by: Seq<char>, now: Seq<char>) -> QuestionView {
    QuestionView { status: "claimed"@, claimed_by: Some(claimed_by), updated_at: now, ..q }
}

/// The question once it is resolved at the instant written as `now`.
pub open spec fn spec_resolved(q: QuestionView, now: Seq<char>) -> QuestionView {
    QuestionView { status: "resolved"@, updated_at: now, resolved_at: Some(now), ..q }
}

/// A list of one or two texts.
fn texts(first: &str, second: Option<&str>) -> (r: Vec<String>)
    ensures
        text_views(r@) == match second {
            Some(s) => seq![first@, s@],
            None => seq![first@],
        },
{
    let mut v: Vec<String> = Vec::new();
    v.push(first.to_owned());
    if let Some(s) = second {
        v.push(s.to_owned());
        assert(text_views(v@) =~= seq![first@, s@]);
    } else {
        assert(text_views(v@) =~= seq![first@]);
    }
    v
}

/// The sample questions.
pub fn get_mock_questions() -> (r: Vec<Question>)
    ensures
        question_views(r@) == sample_questions(),
{
    let mut v: Vec<Question> = Vec::new();
    v.push(
        Question {
            id: "1".to_owned(),
            title: "How to use useEffect hook properly?".to_owned(),
            content:
                "I'm having trouble understanding when to use useEffect and how to handle dependencies properly. Can someone explain the best practices?".to_owned(),
            author: "student123".to_owned(),
            tags: texts("React", Some("JavaScript")),
            status: "open".to_owned(),
            claimed_by: None,
            created_at: "2024-01-01T12:00:00Z".to_owned(),
            updated_at: "2024-01-01T12:00:00Z".to_owned(),
            resolved_at: None,
        },
    );
    v.push(
        Question {
            id: "2".to_owned(),
            title: "TypeScript generic constraints help needed".to_owned(),
            content:
                "I'm working on a TypeScript project and struggling with generic constraints. How do I properly constrain a generic type to have certain properties?".to_owned(),
            author: "coder456".to_owned(),
            tags: texts("TypeScript", None),
            status: "claimed".to_owned(),
            claimed_by: Some("mentor789".to_owned()),
            created_at: "2024-01-01T08:00:00Z".to_owned(),
            updated_at: "2024-01-01T11:00:00Z".to_owned(),
            resolved_at: None,
        },
    );
    v.push(
        Question {
            id: "3".to_owned(),
            title: "Career advice: Should I specialize or be a generalist?".to_owned(),
            content:
                "I'm a junior developer and wondering whether I should focus on becoming an expert in one technology stack or learn multiple technologies. What are the pros and cons?".to_owned(),
            author: "newdev".to_owned(),
            tags: texts("Career", None),
            status: "resolved".to_owned(),
            claimed_by: Some("mentor123".to_owned()),
            created_at: "2023-12-31T12:00:00Z".to_owned(),
            updated_at: "2024-01-01T10:00:00Z".to_owned(),
            resolved_at: Some("2024-01-01T10:00:00Z".to_owned()),
        },
    );
    assert(question_views(v@) =~= sample_questions());
    v
}

/// One tag.
fn tag(id: &str, name: &str, color: &str, description: &str) -> (r: Tag)
    ensures
        r@ == (TagView { id: id@, name: name@, color: color@, description: Some(description@) }),
{
    Tag {
        id: id.to_owned(),
        name: name.to_owned(),
        color: color.to_owned(),
        description: Some(description.to_owned()),
    }
}

/// The sample tags.
pub fn get_mock_tags() -> (r: Vec<Tag>)
    ensures
        tag_views(r@) == sample_tags(),
{
    let mut v: Vec<Tag> = Vec::new();
    v.push(
        tag(
            "1",
            "JavaScript",
            "bg-yellow-100 text-yellow-800",
            "Questions about JavaScript programming",
        ),
    );
    v.push(tag("2", "React", "bg-blue-100 text-blue-800", "React framework questions"));
    v.push(tag("3", "TypeScript", "bg-blue-100 text-blue-900", "TypeScript language questions"));
    v.push(tag("4", "CSS", "bg-purple-100 text-purple-800", "Styling and CSS questions"));
    v.push(tag("5", "Career", "bg-green-100 text-green-800", "Career and professional development"));
    v.push(
        tag("6", "Algorithms", "bg-red-100 text-red-800", "Algorithm and data structure questions"),
    );
    assert(tag_views(v@) =~= sample_tags());
    v
}

/// All questions.
pub fn get_questions() -> (r: Vec<Question>)
    ensures
        question_views(r@) == sample_questions(),
{
    get_mock_questions()
}

/// All tags.
pub fn get_tags() -> (r: Vec<Tag>)
    ensures
        tag_views(r@) == sample_tags(),
{
    get_mock_tags()
}

/// The question with this id, if there is one.
pub fn find_question(id: &str) -> (r: Option<Question>)
    ensures
        match first_index(sample_questions(), question_with_id(id@)) {
            Some(i) => r matches Some(q) && q@ == sample_questions()[i],
            None => r is None,
        },
{
    let all = get_mock_questions();
    let n = all.len();
    let mut i: usize = 0;
    while i < n
        invariant
            n == all@.len(),
            i <= n,
            question_views(all@) == sample_questions(),
            forall|k: int| 0 <= k < i ==> !question_with_id(id@)(#[trigger] sample_questions()[k]),
        decreases n - i,
    {
        assert(question_views(all@)[i as int] == all@[i as int]@);
        if same_text(all[i].id.as_str(), id) {
            proof {
                assert(question_with_id(id@)(sample_questions()[i as int]));
                lemma_first_index_is(sample_questions(), question_with_id(id@), 0, i as int);
            }
            return Some(all[i].clone());
        }
        i += 1;
    }
    proof {
        assert(question_views(all@).len() == n);
        lemma_first_index_none(sample_questions(), question_with_id(id@), 0);
    }
    None
}

/// The question that a request opens under `id`, at the instant written as
/// `now`: open, unclaimed, by the current user.
pub fn create_question(req: CreateQuestionRequest, id: String, now: String) -> (r: Question)
    ensures
        r@ == spec_new_question(req, id@, now@),
{
    Question {
        id,
        title: req.title,
        content: req.content,
        author: "currentUser".to_owned(),
        tags: req.tags,
        status: "open".to_owned(),
        claimed_by: None,
        created_at: now.clone(),
        updated_at: now,
        resolved_at: None,
    }
}

/// The question with this id once the helper named in the request has
/// claimed it at the instant written as `now`; `None` where there is no such
/// question.
pub fn claim_question(id: &str, req: ClaimQuestionRequest, now: String) -> (r: Option<Question>)
    ensures
        match first_index(sample_questions(), question_with_id(id@)) {
            Some(i) => r matches Some(q) && q@ == spec_claimed(
                sample_questions()[i],
                req.claimed_by@,
                now@,
            ),
            None => r is None,
        },
{
    match find_question(id) {
        Some(mut question) => {
            question.status = "claimed".to_owned();
            question.claimed_by = Some(req.claimed_by);
            question.updated_at = now;
            Some(question)
        },
        None => None,
    }
}

/// The question with this id once it is resolved at the instant written as
/// `now`; `None` where there is no such question.
pub fn resolve_question(id: &str, now: String) -> (r: Option<Question>)
    ensures
        match first_index(sample_questions(), question_with_id(id@)) {
            Some(i) => r matches Some(q) && q@ == spec_resolved(sample_questions()[i], now@),
            None => r is None,
        },
{
    match find_question(id) {
        Some(mut question) => {
            question.status = "resolved".to_owned();
            question.updated_at = now.clone();
            question.resolved_at = Some(now);
            Some(question)
        },
        None => None,
    }
}

} // verus!
