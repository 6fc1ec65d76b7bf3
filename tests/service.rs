use acled_client::acled::AcledParams;
use acled_client::acled_service::AcledService;
use acled_client::errors::AppError;
use acled_client::popup::generate_popup_content;
use acled_client::acled::AcledEvent;
use acled_client::storage_service::StorageService;
use acled_client::user::UserData;

fn params() -> AcledParams {
    AcledParams {
        start_date: "2024-01-01".to_string(),
        end_date: "2024-02-01".to_string(),
        country: "Burkina Faso".to_string(),
        event_type: "Violence against civilians".to_string(),
        limit: 25,
    }
}

fn user() -> UserData {
    UserData::new("me@example.org".to_string(), "k3y".to_string())
}

#[test]
fn url_carries_every_value_encoded() {
    let url = AcledService::build_url(&user(), &params());
    assert_eq!(
        url,
        "https://api.acleddata.com/acled/read?key=k3y&email=me%40example.org\
         &start=2024-01-01&end=2024-02-01&country=Burkina%20Faso\
         &event_type=Violence%20against%20civilians&limit=25"
    );
}

#[test]
fn url_encodes_non_ascii_as_utf8_bytes() {
    let mut p = params();
    p.country = "Côte d'Ivoire".to_string();
    let url = AcledService::build_url(&user(), &p);
    assert!(url.contains("&country=C%C3%B4te%20d%27Ivoire&"));
}

#[test]
fn empty_country_stops_the_fetch_before_any_request() {
    let mut p = params();
    p.country = String::new();
    assert_eq!(
        AcledService::prepare_fetch(&user(), &p),
        Err(AppError::validation("parameters", "Invalid API parameters provided"))
    );
}

#[test]
fn invalid_credentials_stop_the_fetch() {
    let u = UserData::new(String::new(), "k".to_string());
    assert_eq!(
        AcledService::prepare_fetch(&u, &params()),
        Err(AppError::validation("credentials", "Invalid user credentials provided"))
    );
    let mut p = params();
    p.limit = 0;
    assert_eq!(
        AcledService::prepare_fetch(&u, &p),
        Err(AppError::validation("parameters", "Invalid API parameters provided"))
    );
}

#[test]
fn valid_input_gives_the_url_to_request() {
    assert_eq!(
        AcledService::prepare_fetch(&user(), &params()),
        Ok(AcledService::build_url(&user(), &params()))
    );
}

#[test]
fn validate_params_names_the_first_broken_rule() {
    assert_eq!(AcledService::validate_params(&params()), Ok(()));
    let mut p = params();
    p.start_date = String::new();
    p.country = String::new();
    assert_eq!(
        AcledService::validate_params(&p),
        Err(AppError::validation("start_date", "Start date is required"))
    );
    let mut p = params();
    p.end_date = String::new();
    assert_eq!(
        AcledService::validate_params(&p),
        Err(AppError::validation("end_date", "End date is required"))
    );
    let mut p = params();
    p.country = String::new();
    assert_eq!(
        AcledService::validate_params(&p),
        Err(AppError::validation("country", "Country is required"))
    );
    let mut p = params();
    p.event_type = String::new();
    assert_eq!(
        AcledService::validate_params(&p),
        Err(AppError::validation("event_type", "Event type is required"))
    );
    let mut p = params();
    p.limit = 0;
    assert_eq!(
        AcledService::validate_params(&p),
        Err(AppError::validation("limit", "Limit must be greater than 0"))
    );
    let mut p = params();
    p.limit = 5001;
    assert_eq!(
        AcledService::validate_params(&p),
        Err(AppError::validation("limit", "Limit cannot exceed 5000"))
    );
}

#[test]
fn unsuccessful_status_becomes_api_error() {
    assert_eq!(
        AcledService::handle_response(404, "Not Found", "[]"),
        Err(AppError::api(404, "HTTP 404: Not Found"))
    );
    assert_eq!(
        AcledService::handle_response(503, "Service Unavailable", "ignored"),
        Err(AppError::api(503, "HTTP 503: Service Unavailable"))
    );
}

#[test]
fn successful_status_reads_the_body() {
    assert_eq!(AcledService::handle_response(200, "OK", "[]"), Ok(vec![]));
    assert_eq!(
        AcledService::handle_response(299, "OK", r#"{"message":"No access"}"#),
        Err(AppError::api(400, "No access"))
    );
}

#[test]
fn transport_failure_is_a_network_error() {
    assert_eq!(
        AcledService::transport_failure("connection refused"),
        AppError::network("Network request failed: connection refused")
    );
}

fn event_with_notes(notes: String, fatalities: Option<u32>) -> AcledEvent {
    AcledEvent {
        data_id: 9,
        event_date: "2024-05-05".to_string(),
        event_type: "Riots".to_string(),
        actor1: "Rioters".to_string(),
        actor2: "Police".to_string(),
        location: "Sidon".to_string(),
        latitude: Some("33.56".to_string()),
        longitude: Some("35.37".to_string()),
        notes,
        fatalities,
    }
}

#[test]
fn popup_truncates_long_notes() {
    let notes: String = "x".repeat(150);
    let html = generate_popup_content(&event_with_notes(notes, None));
    let expected = format!("{}...</p>", "x".repeat(100));
    assert!(html.contains(&expected));
    assert!(!html.contains(&"x".repeat(101)));
}

#[test]
fn popup_keeps_short_notes() {
    let notes: String = "y".repeat(50);
    let html = generate_popup_content(&event_with_notes(notes.clone(), None));
    assert!(html.contains(&format!(">{}</p>", notes)));
    assert!(!html.contains("..."));
    assert!(!html.contains("Fatalities"));
}

#[test]
fn popup_shows_every_field() {
    let html = generate_popup_content(&event_with_notes("calm".to_string(), Some(4)));
    assert_eq!(
        html,
        "<div style='color: #00ff00; background: #0a0a0a; font-family: \"Pixelify Sans\";'>\
         <h4 style='margin: 0 0 8px 0; color: #00ff00;'>Riots</h4>\
         <p style='margin: 4px 0;'><strong>Date:</strong> 2024-05-05</p>\
         <p style='margin: 4px 0;'><strong>Location:</strong> Sidon</p>\
         <p style='margin: 4px 0;'><strong>Actor 1:</strong> Rioters</p>\
         <p style='margin: 4px 0;'><strong>Actor 2:</strong> Police</p>\
         <p style='margin: 4px 0; color: #ff6666;'><strong>Fatalities:</strong> 4</p>\
         <p style='margin: 4px 0; font-style: italic; font-size: 0.9em;'>calm</p></div>"
    );
}

#[test]
fn stored_credentials_come_back_when_both_are_filled() {
    let r = StorageService::load_user_data(Ok(Some("a@b.c".to_string())), Ok(Some("k".to_string())));
    assert_eq!(r, Ok(Some(UserData::new("a@b.c".to_string(), "k".to_string()))));
}

#[test]
fn missing_or_empty_stored_credentials_give_none() {
    assert_eq!(StorageService::load_user_data(Ok(None), Ok(Some("k".to_string()))), Ok(None));
    assert_eq!(StorageService::load_user_data(Ok(Some("a".to_string())), Ok(None)), Ok(None));
    assert_eq!(
        StorageService::load_user_data(Ok(Some(String::new())), Ok(Some("k".to_string()))),
        Ok(None)
    );
}

#[test]
fn failed_store_reads_are_storage_errors() {
    assert_eq!(
        StorageService::load_user_data(Err("denied".to_string()), Err("later".to_string())),
        Err(AppError::storage("Failed to load email: denied"))
    );
    assert_eq!(
        StorageService::load_user_data(Ok(None), Err("quota".to_string())),
        Err(AppError::storage("Failed to load API key: quota"))
    );
    assert_eq!(
        StorageService::failure("save email", "quota"),
        AppError::storage("Failed to save email: quota")
    );
}
