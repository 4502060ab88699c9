use rust_api::models::{CreateTaskRequest, LoginRequest};

fn request(username: &str, password: &str) -> LoginRequest {
    LoginRequest { username: username.to_string(), password: password.to_string() }
}

#[test]
fn the_placeholder_account_is_accepted() {
    assert!(request("admin", "password").is_accepted());
}

#[test]
fn another_user_or_password_is_refused() {
    assert!(!request("admin", "Password").is_accepted());
    assert!(!request("admin", "").is_accepted());
    assert!(!request("root", "password").is_accepted());
    assert!(!request("", "").is_accepted());
    assert!(!request("password", "admin").is_accepted());
}

#[test]
fn a_task_request_holds_title_and_description() {
    let request = CreateTaskRequest { title: "Deploy".to_string(), description: None };
    assert_eq!(request.title, "Deploy");
    assert_eq!(request.description, None);
    let copy = request.clone();
    assert_eq!(copy.title, "Deploy");
}
