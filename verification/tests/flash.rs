use benefits_ofx::calendar::{DateError, Month, Timestamp};
use benefits_ofx::error::Error;
use benefits_ofx::flash::auth::{
    AuthState, AuthenticationResult, FlashAuthentication, AUTH_URL, FLASH_CLIENT_ID, FLASH_WEB_AUTH_URL,
};
use benefits_ofx::flash::statement::{
    convert, statement_items, FlashTransaction, FlashTransactionStatus, TransactionType, FLASH_BFF_URL,
};
use benefits_ofx::flash::{FlashClient, USER_AGENT};
use benefits_ofx::http::{Method, Pair};
use benefits_ofx::ofx::{Ofx, OfxTransaction, OfxTransactionVariant};

fn client() -> FlashClient {
    FlashClient::new("ana@example.com".to_string(), "company-7".to_string(), "employee-3".to_string())
}

fn logged_in(token: &str) -> FlashClient {
    FlashClient::auth_override(
        FlashAuthentication { token: token.to_string() },
        "company-7".to_string(),
        "employee-3".to_string(),
    )
}

fn pair(name: &str, value: &str) -> Pair {
    Pair { name: name.to_string(), value: value.to_string() }
}

fn state(client: &FlashClient) -> String {
    match client.auth() {
        AuthState::NotStarted => "not started".to_string(),
        AuthState::Initialized(session) => format!("session {}", session),
        AuthState::Authenticated(auth) => format!("token {}", auth.token),
    }
}

fn result(access_token: &str) -> AuthenticationResult {
    AuthenticationResult {
        access_token: access_token.to_string(),
        expires_in: 3600,
        token_type: "Bearer".to_string(),
        refresh_token: "r".to_string(),
        id_token: "i".to_string(),
    }
}

fn transaction(id: &str, type_: TransactionType, amount: u64, date: &str, description: &str) -> FlashTransaction {
    FlashTransaction {
        id: id.to_string(),
        date: Timestamp::parse(date).unwrap(),
        amount,
        description: description.to_string(),
        status: FlashTransactionStatus::Completed,
        type_,
    }
}

fn entries(document: &Ofx) -> Vec<OfxTransaction> {
    let card = document.credit_card.as_ref().unwrap();
    card.statement
        .statements
        .transactions
        .transactions
        .iter()
        .map(|OfxTransactionVariant::Transaction(transaction)| transaction.clone())
        .collect()
}

fn object(pairs: &[(&str, serde_json::Value)]) -> serde_json::Value {
    let mut map = serde_json::Map::new();
    for (name, value) in pairs {
        map.insert(name.to_string(), value.clone());
    }
    serde_json::Value::Object(map)
}

fn string(text: &str) -> serde_json::Value {
    serde_json::Value::String(text.to_string())
}

#[test]
fn the_second_step_before_the_first_fails() {
    let client = client();
    assert_eq!(client.finish_login("123456"), Err(Error::AuthNotStarted));
    assert_eq!(state(&client), "not started");
    assert_eq!(Error::AuthNotStarted.message(), "auth not started. Call initiate_auth first");
}

#[test]
fn the_first_step_sends_one_request() {
    let mut client = client();
    let mut sent = 0;
    for _ in 0..2 {
        if let Some(_request) = client.initiate_auth("secret") {
            sent += 1;
            assert_eq!(client.session_started(Ok("session-1".to_string())), Ok(()));
        }
    }
    assert_eq!(sent, 1);
    assert_eq!(state(&client), "session session-1");
    assert_eq!(client.initiate_auth("secret"), None);
    assert_eq!(client.session_started(Ok("session-2".to_string())), Ok(()));
    assert_eq!(state(&client), "session session-1");
}

#[test]
fn a_first_step_that_fails_leaves_the_login_unstarted() {
    let mut client = client();
    assert!(client.initiate_auth("secret").is_some());
    let failed = client.session_started(Err(Error::Transport("timeout".to_string())));
    assert_eq!(failed, Err(Error::Transport("timeout".to_string())));
    assert_eq!(state(&client), "not started");
    assert!(client.initiate_auth("secret").is_some());
    let failed = client.session_started(Err(Error::Parse { reason: "missing field".to_string(), body: "{}".to_string() }));
    assert!(failed.is_err());
    assert_eq!(state(&client), "not started");
    assert_eq!(client.finish_login("123456"), Err(Error::AuthNotStarted));
}

#[test]
fn a_code_that_fails_can_be_tried_again() {
    let mut client = client();
    client.initiate_auth("secret").unwrap();
    client.session_started(Ok("session-1".to_string())).unwrap();

    let first = client.finish_login("000000").unwrap().unwrap();
    let failed = client.login_finished(Err(Error::Transport("wrong code".to_string())));
    assert_eq!(failed, Err(Error::Transport("wrong code".to_string())));
    assert_eq!(state(&client), "session session-1");
    assert_eq!(client.initiate_auth("secret"), None);

    let second = client.finish_login("123456").unwrap().unwrap();
    assert_ne!(first.body, second.body);
    assert!(second.body.as_ref().unwrap().contains("\"Session\":\"session-1\""));
    assert!(second.body.as_ref().unwrap().contains("\"SMS_MFA_CODE\":\"123456\""));
    assert!(client.sign_in_employee(&result("access")).body.is_some());
    assert_eq!(client.login_finished(Ok(FlashAuthentication { token: "app".to_string() })), Ok(()));
    assert_eq!(state(&client), "token app");
}

#[test]
fn a_finished_login_sends_nothing_more() {
    let mut client = logged_in("app");
    assert_eq!(state(&client), "token app");
    assert_eq!(client.username(), "");
    assert_eq!(client.initiate_auth("secret"), None);
    assert_eq!(client.finish_login("123456"), Ok(None));
    assert_eq!(client.session_started(Ok("s".to_string())), Ok(()));
    assert_eq!(client.login_finished(Ok(FlashAuthentication { token: "other".to_string() })), Ok(()));
    assert_eq!(state(&client), "token app");
    assert!(client.login_finished(Err(Error::Transport("x".to_string()))).is_err());
    assert_eq!(state(&client), "token app");
}

#[test]
fn a_token_without_a_session_changes_nothing() {
    let mut client = client();
    assert_eq!(client.login_finished(Ok(FlashAuthentication { token: "app".to_string() })), Ok(()));
    assert_eq!(state(&client), "not started");
}

#[test]
fn the_request_of_the_first_step() {
    let request = client().initiate_auth("p\"w").unwrap();
    assert_eq!(request.method, Method::Post);
    assert_eq!(request.url, "https://hros-auth.flashapp.services");
    assert_eq!(request.url, AUTH_URL);
    assert_eq!(request.query, vec![]);
    assert_eq!(
        request.headers,
        vec![pair("X-Amz-Target", "AWSCognitoIdentityProviderService.InitiateAuth")]
    );
    assert_eq!(
        request.body.as_ref().unwrap(),
        "{\"AuthFlow\":\"USER_PASSWORD_AUTH\",\"AuthParameters\":{\"PASSWORD\":\"p\\\"w\",\
         \"USERNAME\":\"ana@example.com\"},\"ClientId\":\"4r4ki1jqohppg2dko3uf7rvq13\",\
         \"ClientMetadata\":{\"preferredMfa\":\"SMS_MFA\"}}"
    );
    let expected = object(&[
        ("AuthFlow", string("USER_PASSWORD_AUTH")),
        ("ClientId", string(FLASH_CLIENT_ID)),
        ("AuthParameters", object(&[("USERNAME", string("ana@example.com")), ("PASSWORD", string("p\"w"))])),
        ("ClientMetadata", object(&[("preferredMfa", string("SMS_MFA"))])),
    ]);
    assert_eq!(request.body, Some(expected.to_string()));
}

#[test]
fn the_request_of_the_second_step() {
    let mut client = client();
    client.session_started(Ok("sess\\ion".to_string())).unwrap();
    let request = client.finish_login("123456").unwrap().unwrap();
    assert_eq!(request.method, Method::Post);
    assert_eq!(request.url, "https://hros-auth.flashapp.services");
    assert_eq!(request.query, vec![]);
    assert_eq!(
        request.headers,
        vec![pair("X-Amz-Target", "AWSCognitoIdentityProviderService.RespondToAuthChallenge")]
    );
    assert_eq!(
        request.body.as_ref().unwrap(),
        "{\"ChallengeName\":\"SMS_MFA\",\"ChallengeResponses\":{\"SMS_MFA_CODE\":\"123456\",\
         \"USERNAME\":\"ana@example.com\"},\"ClientId\":\"4r4ki1jqohppg2dko3uf7rvq13\",\
         \"Session\":\"sess\\\\ion\"}"
    );
    let expected = object(&[
        ("ChallengeName", string("SMS_MFA")),
        ("ChallengeResponses", object(&[("USERNAME", string("ana@example.com")), ("SMS_MFA_CODE", string("123456"))])),
        ("ClientId", string(FLASH_CLIENT_ID)),
        ("Session", string("sess\\ion")),
    ]);
    assert_eq!(request.body, Some(expected.to_string()));
}

#[test]
fn the_request_that_exchanges_the_access_token() {
    let request = client().sign_in_employee(&result("access-1"));
    assert_eq!(request.method, Method::Post);
    assert_eq!(request.url, "https://flashos-entrance.us.flashapp.services/v1/auth/trpc/signInEmployee");
    assert!(request.url.starts_with(FLASH_WEB_AUTH_URL));
    assert_eq!(request.query, vec![]);
    assert_eq!(request.headers, vec![pair("Authorization", "Bearer access-1")]);
    assert_eq!(request.body.as_ref().unwrap(), "{\"companyId\":\"company-7\",\"employeeId\":\"employee-3\"}");
    let expected = object(&[("employeeId", string("employee-3")), ("companyId", string("company-7"))]);
    assert_eq!(request.body, Some(expected.to_string()));
}

#[test]
fn a_statement_needs_a_finished_login() {
    let mut client = client();
    assert_eq!(client.get_month_statement(Some(2023), 2023, Month::June), Err(Error::NotAuthenticated));
    assert_eq!(client.get_month_statement(Some(i32::MAX), 2023, Month::June), Err(Error::NotAuthenticated));
    client.session_started(Ok("s".to_string())).unwrap();
    assert_eq!(client.get_month_statement(Some(2023), 2023, Month::June), Err(Error::NotAuthenticated));
    client.login_finished(Ok(FlashAuthentication { token: "app".to_string() })).unwrap();
    assert!(client.get_month_statement(Some(2023), 2023, Month::June).is_ok());
    assert_eq!(Error::NotAuthenticated.message(), "Not authenticated");
}

#[test]
fn the_request_for_a_statement() {
    let client = logged_in("app-token");
    let request = client.get_month_statement(Some(2023), 1999, Month::June).unwrap();
    assert_eq!(request.method, Method::Get);
    assert_eq!(request.url, "https://corporate-card-bff.us.flashapp.services/bff/trpc/person.getStatement");
    assert!(request.url.starts_with(FLASH_BFF_URL));
    assert_eq!(request.body, None);
    assert_eq!(
        request.headers,
        vec![
            pair("Authorization", "app-token"),
            pair("x-flash-auth", "Bearer app-token"),
            pair("company-id", "company-7"),
        ]
    );
    assert_eq!(request.query.len(), 2);
    assert_eq!(request.query[0], pair("batch", "1"));
    assert_eq!(request.query[1].name, "input");
    assert_eq!(
        request.query[1].value,
        "{\"0\":{\"json\":{\"filter\":{\"endDate\":\"2023-06-30T23:59:59.000Z\",\
         \"startDate\":\"2023-06-01T03:00:00.000Z\"},\"pagination\":{\"currentPage\":0,\
         \"pageSize\":100}},\"meta\":{\"values\":{\"filter.endDate\":[\"Date\"],\
         \"filter.startDate\":[\"Date\"]}}}}"
    );
    let date = serde_json::Value::Array(vec![string("Date")]);
    let expected = object(&[(
        "0",
        object(&[
            (
                "json",
                object(&[
                    (
                        "pagination",
                        object(&[
                            ("currentPage", serde_json::Value::from(0u32)),
                            ("pageSize", serde_json::Value::from(100u32)),
                        ]),
                    ),
                    (
                        "filter",
                        object(&[
                            ("startDate", string("2023-06-01T03:00:00.000Z")),
                            ("endDate", string("2023-06-30T23:59:59.000Z")),
                        ]),
                    ),
                ]),
            ),
            ("meta", object(&[("values", object(&[("filter.endDate", date.clone()), ("filter.startDate", date)]))])),
        ]),
    )]);
    assert_eq!(request.query[1].value, expected.to_string());
}

#[test]
fn the_window_of_a_statement_is_the_whole_month() {
    let client = logged_in("t");
    let input = |year: Option<i32>, current: i32, month: Month| {
        client.get_month_statement(year, current, month).unwrap().query[1].value.clone()
    };
    let february = input(None, 2024, Month::February);
    assert!(february.contains("\"startDate\":\"2024-02-01T03:00:00.000Z\""));
    assert!(february.contains("\"endDate\":\"2024-02-29T23:59:59.000Z\""));
    let december = input(Some(2023), 2024, Month::December);
    assert!(december.contains("\"startDate\":\"2023-12-01T03:00:00.000Z\""));
    assert!(december.contains("\"endDate\":\"2023-12-31T23:59:59.000Z\""));
}

#[test]
fn a_statement_of_a_month_that_does_not_exist_fails() {
    let client = logged_in("t");
    assert_eq!(
        client.get_month_statement(Some(-300000), 2023, Month::June),
        Err(Error::Calendar(DateError::YearOutOfRange))
    );
    assert_eq!(
        client.get_month_statement(None, 262142, Month::December),
        Err(Error::Calendar(DateError::NoNextMonth))
    );
}

#[test]
fn the_statement_is_the_last_list_of_the_batch() {
    let a = transaction("a", TransactionType::Deposit, 1, "2023-06-01T00:00:00.000Z", "x");
    let b = transaction("b", TransactionType::Deposit, 2, "2023-06-02T00:00:00.000Z", "y");
    assert_eq!(statement_items(vec![]), vec![]);
    assert_eq!(statement_items(vec![vec![]]), vec![]);
    assert_eq!(statement_items(vec![vec![a.clone(), b.clone()]]), vec![a.clone(), b.clone()]);
    assert_eq!(statement_items(vec![vec![a.clone()], vec![b.clone()]]), vec![b.clone()]);
    assert_eq!(statement_items(vec![vec![a], vec![]]), vec![]);
}

#[test]
fn transactions_become_entries() {
    let items = vec![
        transaction("t1", TransactionType::OpenLoopPayment, 1050, "2023-06-30T18:30:00.000Z", "Padaria & Café"),
        transaction("t2", TransactionType::Deposit, 50000, "2023-06-01T03:00:00.000Z", "Crédito"),
    ];
    let document = convert(&items).unwrap();
    assert_eq!(
        entries(&document),
        vec![
            OfxTransaction {
                type_: "DEBIT".to_string(),
                timestamp: "20230630000000[-3:BRT]".to_string(),
                amount: "-10.50".to_string(),
                id: "t1".to_string(),
                description: "Padaria & Café".to_string(),
            },
            OfxTransaction {
                type_: "CREDIT".to_string(),
                timestamp: "20230601000000[-3:BRT]".to_string(),
                amount: "500.00".to_string(),
                id: "t2".to_string(),
                description: "Crédito".to_string(),
            },
        ]
    );
    assert_eq!(
        document,
        Ofx::card_statement(
            "Flash",
            "20230630000000[-3:BRT]".to_string(),
            "20230601000000[-3:BRT]".to_string(),
            entries(&document).into_iter().map(OfxTransactionVariant::Transaction).collect(),
        )
    );
    assert_eq!(Ofx::try_from(items), Ok(document));
}

#[test]
fn no_transactions_are_an_error() {
    assert_eq!(convert(&Vec::new()), Err(Error::EmptyStatement));
    assert_eq!(Ofx::try_from(Vec::<FlashTransaction>::new()), Err(Error::EmptyStatement));
}

#[test]
fn amounts_of_transactions() {
    let amount = |type_: TransactionType, amount: u64| {
        let items = vec![transaction("x", type_, amount, "2023-06-01T00:00:00.000Z", "")];
        entries(&convert(&items).unwrap())[0].amount.clone()
    };
    assert_eq!(amount(TransactionType::Deposit, 1050), "10.50");
    assert_eq!(amount(TransactionType::OpenLoopPayment, 1050), "-10.50");
    assert_eq!(amount(TransactionType::Deposit, 0), "0.00");
    assert_eq!(amount(TransactionType::OpenLoopPayment, 0), "-0.00");
    assert_eq!(amount(TransactionType::Deposit, 7), "0.07");
    assert_eq!(amount(TransactionType::OpenLoopPayment, u64::MAX), "-184467440737095516.15");
    for hundredths in [0u64, 1, 10, 99, 100, 101, 1050, 5000, 99999, 123456789] {
        assert_eq!(amount(TransactionType::Deposit, hundredths), format!("{:.2}", hundredths as f64 / 100.0));
        assert_eq!(
            amount(TransactionType::OpenLoopPayment, hundredths),
            format!("{:.2}", hundredths as f64 / 100.0 * -1.0)
        );
    }
}

#[test]
fn the_client_keeps_what_it_was_made_with() {
    let client = client();
    assert_eq!(client.username(), "ana@example.com");
    assert_eq!(client.company_id(), "company-7");
    assert_eq!(client.employee_id(), "employee-3");
    assert!(USER_AGENT.starts_with("Mozilla/5.0"));
}

#[test]
fn a_transport_error_says_what_it_was_given() {
    assert_eq!(Error::Transport("connection reset".to_string()).message(), "connection reset");
}
