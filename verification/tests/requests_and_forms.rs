use batgpt::model::{Exercise, FormField, GenerationError};
use batgpt::page::extract_exercise;
use batgpt::prompt::{completion_request, solution_from, ChatMessage, Completion, Role};
use batgpt::site::{exercise_url, login_form, login_url, submit_form, submit_url};

fn field(name: &str, value: &str) -> FormField {
    FormField { name: name.to_string(), value: value.to_string() }
}

#[test]
fn request_names_the_model_and_holds_two_messages() {
    let exercise = Exercise {
        statement: "Given 3 ints…".to_string(),
        starter: "public int sum3(...)".to_string(),
    };
    let request = completion_request(&exercise);
    assert_eq!(request.model, "gpt-3.5-turbo");
    assert_eq!(
        request.messages,
        vec![
            ChatMessage {
                role: Role::System,
                content: "Solve the provided problem by editing the provided java method. Only respond with the unformatted code and nothing else.".to_string(),
            },
            ChatMessage {
                role: Role::User,
                content: "Given 3 ints…\npublic int sum3(...)".to_string(),
            },
        ]
    );
}

#[test]
fn request_of_an_empty_exercise_still_has_the_line_break() {
    let exercise = Exercise { statement: String::new(), starter: String::new() };
    let request = completion_request(&exercise);
    assert_eq!(request.messages.len(), 2);
    assert_eq!(request.messages[1].content, "\n");
}

#[test]
fn solution_is_the_first_choice_unchanged() {
    let choices = vec![Some("  first \n".to_string()), Some("second".to_string()), None];
    assert_eq!(solution_from(Completion::Choices(choices)), Ok("  first \n".to_string()));
}

#[test]
fn solution_of_no_choices_is_an_error() {
    assert_eq!(solution_from(Completion::Choices(vec![])), Err(GenerationError::NoChoices));
}

#[test]
fn solution_of_a_first_choice_without_content_is_an_error() {
    let choices = vec![None, Some("second".to_string())];
    assert_eq!(solution_from(Completion::Choices(choices)), Err(GenerationError::Undecodable));
}

#[test]
fn solution_may_be_empty_when_the_service_says_so() {
    assert_eq!(solution_from(Completion::Choices(vec![Some(String::new())])), Ok(String::new()));
}

#[test]
fn request_holds_the_whole_statement_of_a_page_with_nested_markup() {
    let markup = "<div class='max2'>Given <b>3</b> ints</div>\
                  <div id='ace_div'>public int sum3(...)</div>";
    let exercise = extract_exercise(markup).unwrap();
    let request = completion_request(&exercise);
    assert_eq!(request.messages[1].role, Role::User);
    assert!(request.messages[1].content.starts_with("Given 3 ints"));
    assert!(request.messages[1].content.ends_with("public int sum3(...)"));
    assert_eq!(request.messages[1].content, "Given 3 ints\npublic int sum3(...)");
}

#[test]
fn solution_of_a_failed_call_is_an_error() {
    assert_eq!(solution_from(Completion::Failed), Err(GenerationError::ServiceFailed));
}

#[test]
fn solution_of_an_undecodable_response_is_an_error() {
    assert_eq!(solution_from(Completion::Undecodable), Err(GenerationError::Undecodable));
}

#[test]
fn addresses_of_the_site() {
    assert_eq!(exercise_url("sum3"), "https://codingbat.com/prob/sum3");
    assert_eq!(exercise_url(""), "https://codingbat.com/prob/");
    assert_eq!(login_url(), "https://codingbat.com/login");
    assert_eq!(submit_url(), "https://codingbat.com/run");
}

#[test]
fn login_form_holds_name_credential_and_flag() {
    assert_eq!(
        login_form("alice", "p1"),
        vec![field("uname", "alice"), field("pw", "p1"), field("dologin", "log+in")]
    );
}

#[test]
fn submit_form_holds_exercise_code_and_account() {
    assert_eq!(
        submit_form("sum3", "return a+b+c;", "bob"),
        vec![field("id", "sum3"), field("code", "return a+b+c;"), field("cuname", "bob")]
    );
}
