use linear_mg::client::{
    classify_status, DEFAULT_ENDPOINT, graphql_outcome, status_error, user_agent, GraphqlError,
    StatusClass,
};
use linear_mg::error::CliError;

#[test]
fn endpoint_and_agent() {
    assert_eq!(DEFAULT_ENDPOINT, "https://api.linear.app/graphql");
    assert_eq!(user_agent("0.3.1"), "linear-wp/0.3.1");
}

#[test]
fn statuses_are_classified_in_order() {
    assert_eq!(classify_status(429), StatusClass::RateLimited);
    assert_eq!(classify_status(401), StatusClass::Unauthorized);
    assert_eq!(classify_status(403), StatusClass::Unauthorized);
    assert_eq!(classify_status(404), StatusClass::Failed);
    assert_eq!(classify_status(302), StatusClass::Failed);
    assert_eq!(classify_status(199), StatusClass::Failed);
    assert_eq!(classify_status(200), StatusClass::Success);
    assert_eq!(classify_status(299), StatusClass::Success);
}

#[test]
fn status_errors() {
    assert_eq!(
        status_error(429, Some("30"), "slow down".into()),
        Some(CliError::RateLimited { retry_after: Some(30) })
    );
    assert_eq!(
        status_error(429, Some("Wed, 21 Oct 2015 07:28:00 GMT"), "".into()),
        Some(CliError::RateLimited { retry_after: None })
    );
    assert_eq!(status_error(429, None, "".into()), Some(CliError::RateLimited { retry_after: None }));
    assert_eq!(status_error(401, None, "nope".into()), Some(CliError::AuthError("nope".into())));
    assert_eq!(status_error(403, None, "no".into()), Some(CliError::AuthError("no".into())));
    assert_eq!(
        status_error(500, None, "boom".into()),
        Some(CliError::HttpError { status: 500, body: "boom".into() })
    );
    assert_eq!(status_error(200, None, "".into()), None);
}

#[test]
fn graphql_errors_without_data_fail() {
    let errs = vec![GraphqlError { message: "a".into() }, GraphqlError { message: "b".into() }];
    let r: Result<u32, CliError> = graphql_outcome(None, Some(errs));
    assert_eq!(r, Err(CliError::GraphQlErrors(vec!["a".into(), "b".into()])));
}

#[test]
fn partial_errors_keep_data() {
    let errs = vec![GraphqlError { message: "a".into() }];
    assert_eq!(graphql_outcome(Some(5u32), Some(errs)), Ok(5));
    assert_eq!(graphql_outcome(Some(5u32), None), Ok(5));
}

#[test]
fn no_data_without_errors() {
    assert_eq!(graphql_outcome::<u32>(None, None), Err(CliError::NoData));
    assert_eq!(graphql_outcome::<u32>(None, Some(vec![])), Err(CliError::NoData));
}
