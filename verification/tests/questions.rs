use aia::question::{
    question_item_from_args, question_option_from_args, question_request,
    QuestionToolQuestionItemArgs, QuestionToolQuestionOptionArgs,
};
use aia::tool_policy::QuestionKind;

fn item(id: &str, kind: &str) -> QuestionToolQuestionItemArgs {
    QuestionToolQuestionItemArgs {
        id: id.to_string(),
        header: format!("header {id}"),
        question: format!("question {id}?"),
        kind: kind.to_string(),
        required: None,
        multi_select: None,
        options: None,
        placeholder: None,
        recommended_option_ids: None,
        recommendation_reason: None,
    }
}

#[test]
fn question_arguments_fill_in_defaults() {
    let args = item("q1", " Text ");
    let q = question_item_from_args(&args).unwrap();
    assert_eq!(q.id, "q1");
    assert_eq!(q.header, "header q1");
    assert_eq!(q.question, "question q1?");
    assert_eq!(q.kind, QuestionKind::Text);
    assert!(!q.required);
    assert!(!q.multi_select);
    assert!(q.options.is_empty());
    assert!(q.recommended_option_ids.is_empty());
    assert_eq!(q.placeholder, None);
}

#[test]
fn question_options_and_flags_are_kept() {
    let mut args = item("q2", "CHOICE");
    args.required = Some(true);
    args.multi_select = Some(false);
    args.options = Some(vec![
        QuestionToolQuestionOptionArgs { id: "a".into(), label: "A".into(), description: None },
        QuestionToolQuestionOptionArgs {
            id: "b".into(),
            label: "B".into(),
            description: Some("second".into()),
        },
    ]);
    args.recommended_option_ids = Some(vec!["b".into()]);
    args.recommendation_reason = Some("fits".into());
    args.placeholder = Some("pick one".into());
    let q = question_item_from_args(&args).unwrap();
    assert_eq!(q.kind, QuestionKind::Choice);
    assert!(q.required);
    assert!(!q.multi_select);
    assert_eq!(q.options.len(), 2);
    assert_eq!(q.options[1].id, "b");
    assert_eq!(q.options[1].label, "B");
    assert_eq!(q.options[1].description.as_deref(), Some("second"));
    assert_eq!(q.recommended_option_ids, vec!["b".to_string()]);
    assert_eq!(q.recommendation_reason.as_deref(), Some("fits"));
    assert_eq!(q.placeholder.as_deref(), Some("pick one"));
    let o = question_option_from_args(&QuestionToolQuestionOptionArgs {
        id: "x".into(),
        label: "X".into(),
        description: None,
    });
    assert_eq!(o.id, "x");
    assert_eq!(o.label, "X");
}

#[test]
fn question_requests_keep_order_and_stop_at_the_first_bad_kind() {
    let qs = vec![item("q1", "confirm"), item("q2", "text")];
    let req = question_request("req-1".to_string(), "call-1", "turn-1", &qs).unwrap();
    assert_eq!(req.request_id, "req-1");
    assert_eq!(req.invocation_id, "call-1");
    assert_eq!(req.turn_id, "turn-1");
    assert_eq!(req.questions.len(), 2);
    assert_eq!(req.questions[0].id, "q1");
    assert_eq!(req.questions[0].kind, QuestionKind::Confirm);
    assert_eq!(req.questions[1].kind, QuestionKind::Text);

    let bad = vec![item("q1", "text"), item("q2", " Slider "), item("q3", "dial")];
    let err = question_request("req-2".to_string(), "call-2", "turn-2", &bad).err().unwrap();
    assert_eq!(err, "invalid Question kind: slider; expected choice, text, or confirm");
    let empty = question_request("req-3".to_string(), "c", "t", &Vec::new()).unwrap();
    assert!(empty.questions.is_empty());
}
