//! The structured questions a model asks the user through the question
//! tool: how the tool's arguments become a question request.
use vstd::prelude::*;

use crate::text::{ascii_lower, opt_text, owned, trimmed};
use crate::tool_policy::{parse_question_kind, question_kind_named, QuestionKind};

verus! {

/// An option of a choice question, as the tool's arguments give it.
#[derive(Debug, Clone)]
pub struct QuestionToolQuestionOptionArgs {
    pub id: String,
    pub label: String,
    pub description: Option<String>,
}

/// A question as the tool's arguments give it: the kind is still a word,
/// and the flags and lists may be left out.
#[derive(Debug, Clone)]
pub struct QuestionToolQuestionItemArgs {
    pub id: String,
    pub header: String,
    pub question: String,
    pub kind: String,
    pub required: Option<bool>,
    pub multi_select: Option<bool>,
    pub options: Option<Vec<QuestionToolQuestionOptionArgs>>,
    pub placeholder: Option<String>,
    pub recommended_option_ids: Option<Vec<String>>,
    pub recommendation_reason: Option<String>,
}

/// An option of a choice question.
#[derive(Debug, Clone)]
pub struct QuestionOption {
    pub id: String,
    pub label: String,
    pub description: Option<String>,
}

/// A question shown to the user.
#[derive(Debug, Clone)]
pub struct QuestionItem {
    pub id: String,
    pub header: String,
    pub question: String,
    pub kind: QuestionKind,
    pub required: bool,
    pub multi_select: bool,
    pub options: Vec<QuestionOption>,
    pub placeholder: Option<String>,
    pub recommended_option_ids: Vec<String>,
    pub recommendation_reason: Option<String>,
}

/// The questions of one tool call, waiting for the user's answers.
#[derive(Debug, Clone)]
pub struct QuestionRequest {
    pub request_id: String,
    pub invocation_id: String,
    pub turn_id: String,
    pub questions: Vec<QuestionItem>,
}

/// The kind word of a question after trimming and ASCII lower-casing.
pub open spec fn normalized_kind(args: QuestionToolQuestionItemArgs) -> Seq<char> {
    ascii_lower(trimmed(args.kind@))
}

/// The kind a question's arguments name, if any.
pub open spec fn kind_of_args(args: QuestionToolQuestionItemArgs) -> Option<QuestionKind> {
    question_kind_named(normalized_kind(args))
}

/// The message that refuses a question whose kind is unknown.
pub open spec fn kind_error(args: QuestionToolQuestionItemArgs) -> Seq<char> {
    "invalid Question kind: "@ + normalized_kind(args) + "; expected choice, text, or confirm"@
}

/// `option` carries the fields of `args`.
pub open spec fn option_from(option: QuestionOption, args: QuestionToolQuestionOptionArgs) -> bool {
    &&& option.id@ == args.id@
    &&& option.label@ == args.label@
    &&& opt_text(option.description) == opt_text(args.description)
}

/// The options a question's arguments give, none when they are left out.
pub open spec fn options_of_args(args: QuestionToolQuestionItemArgs) -> Seq<
    QuestionToolQuestionOptionArgs,
> {
    match args.options {
        Some(v) => v@,
        None => Seq::empty(),
    }
}

/// `item` is the question that `args` describe: the texts are kept, the
/// kind is the one named, a left-out flag is false, left-out lists are
/// empty and the options keep their order.
pub open spec fn item_from(item: QuestionItem, args: QuestionToolQuestionItemArgs) -> bool {
    &&& item.id@ == args.id@
    &&& item.header@ == args.header@
    &&& item.question@ == args.question@
    &&& kind_of_args(args) == Some(item.kind)
    &&& item.required == (args.required == Some(true))
    &&& item.multi_select == (args.multi_select == Some(true))
    &&& item.options@.len() == options_of_args(args).len()
    &&& forall|i: int|
        0 <= i < item.options@.len() ==> option_from(
            #[trigger] item.options@[i],
            options_of_args(args)[i],
        )
    &&& opt_text(item.placeholder) == opt_text(args.placeholder)
    &&& item.recommended_option_ids@ == (match args.recommended_option_ids {
        Some(v) => v@,
        None => Seq::empty(),
    })
    &&& opt_text(item.recommendation_reason) == opt_text(args.recommendation_reason)
}

fn copy_text(o: &Option<String>) -> (r: Option<String>)
    ensures
        opt_text(r) == opt_text(*o),
{
    match o {
        Some(s) => Some(owned(s.as_str())),
        None => None,
    }
}

/// An option of a choice question from its arguments.
pub fn question_option_from_args(value: &QuestionToolQuestionOptionArgs) -> (r: QuestionOption)
    ensures
        option_from(r, *value),
{
    QuestionOption {
        id: owned(value.id.as_str()),
        label: owned(value.label.as_str()),
        description: copy_text(&value.description),
    }
}

fn options_from_args(options: &Option<Vec<QuestionToolQuestionOptionArgs>>) -> (r: Vec<
    QuestionOption,
>)
    ensures
        match *options {
            Some(v) => r@.len() == v@.len() && forall|i: int|
                0 <= i < r@.len() ==> option_from(#[trigger] r@[i], v@[i]),
            None => r@.len() == 0,
        },
{
    let mut out: Vec<QuestionOption> = Vec::new();
    match options {
        Some(v) => {
            let mut i: usize = 0;
            while i < v.len()
                invariant
                    i <= v@.len(),
                    out@.len() == i,
                    forall|j: int| 0 <= j < i ==> option_from(#[trigger] out@[j], v@[j]),
                decreases v@.len() - i,
            {
                let o = question_option_from_args(&v[i]);
                out.push(o);
                i = i + 1;
            }
        },
        None => {},
    }
    out
}

fn copy_texts(v: &Vec<String>) -> (r: Vec<String>)
    ensures
        r@ == v@,
{
    let mut out: Vec<String> = Vec::new();
    let mut i: usize = 0;
    while i < v.len()
        invariant
            i <= v@.len(),
            out@ == v@.subrange(0, i as int),
        decreases v@.len() - i,
    {
        let s = v[i].clone();
        out.push(s);
        i = i + 1;
    }
    out
}

/// The question that a question's arguments describe; refused, with the
/// message of `parse_question_kind`, when the kind is unknown.
pub fn question_item_from_args(value: &QuestionToolQuestionItemArgs) -> (r: Result<
    QuestionItem,
    String,
>)
    ensures
        match r {
            Ok(item) => item_from(item, *value),
            Err(message) => kind_of_args(*value) is None && message@ == kind_error(*value),
        },
{
    let kind = match parse_question_kind(value.kind.as_str()) {
        Ok(k) => k,
        Err(message) => return Err(message),
    };
    let required = match value.required {
        Some(b) => b,
        None => false,
    };
    let multi_select = match value.multi_select {
        Some(b) => b,
        None => false,
    };
    let recommended_option_ids = match &value.recommended_option_ids {
        Some(v) => copy_texts(v),
        None => Vec::new(),
    };
    Ok(
        QuestionItem {
            id: owned(value.id.as_str()),
            header: owned(value.header.as_str()),
            question: owned(value.question.as_str()),
            kind,
            required,
            multi_select,
            options: options_from_args(&value.options),
            placeholder: copy_text(&value.placeholder),
            recommended_option_ids,
            recommendation_reason: copy_text(&value.recommendation_reason),
        },
    )
}

/// The request that puts the questions of tool call `invocation_id`, made
/// in turn `turn_id`, to the user, under the id `request_id`. The questions
/// keep their order; the first one whose kind is unknown refuses the whole
/// request with its message.
pub fn question_request(
    request_id: String,
    invocation_id: &str,
    turn_id: &str,
    questions: &Vec<QuestionToolQuestionItemArgs>,
) -> (r: Result<QuestionRequest, String>)
    ensures
        match r {
            Ok(request) => {
                &&& forall|i: int|
                    0 <= i < questions@.len() ==> (#[trigger] kind_of_args(questions@[i])) is Some
                &&& request.request_id@ == request_id@
                &&& request.invocation_id@ == invocation_id@
                &&& request.turn_id@ == turn_id@
                &&& request.questions@.len() == questions@.len()
                &&& forall|i: int|
                    0 <= i < questions@.len() ==> item_from(
                        #[trigger] request.questions@[i],
                        questions@[i],
                    )
            },
            Err(message) => exists|k: int|
                0 <= k < questions@.len() && (#[trigger] kind_of_args(questions@[k])) is None
                    && (forall|j: int|
                    0 <= j < k ==> (#[trigger] kind_of_args(questions@[j])) is Some) && message@
                    == kind_error(questions@[k]),
        },
{
    let mut items: Vec<QuestionItem> = Vec::new();
    let mut i: usize = 0;
    while i < questions.len()
        invariant
            i <= questions@.len(),
            items@.len() == i,
            forall|j: int| 0 <= j < i ==> (#[trigger] kind_of_args(questions@[j])) is Some,
            forall|j: int| 0 <= j < i ==> item_from(#[trigger] items@[j], questions@[j]),
        decreases questions@.len() - i,
    {
        match question_item_from_args(&questions[i]) {
            Ok(item) => {
                items.push(item);
            },
            Err(message) => {
                assert(kind_of_args(questions@[i as int]) is None);
                return Err(message);
            },
        }
        i = i + 1;
    }
    Ok(
        QuestionRequest {
            request_id,
            invocation_id: owned(invocation_id),
            turn_id: owned(turn_id),
            questions: items,
        },
    )
}

} // verus!
